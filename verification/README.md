# evalexpr

An expression evaluator (`1 + 2 * a`, `len("abc") == 3`, `a = 5; a += 1; a`) with the
calculation helpers that build on it, written in Verus: every function of the library states what
it returns in its `requires`/`ensures` contract, and Verus proves each body against it.

## Layout

- `src/token.rs`, `src/tree.rs`: the tokenizer and the parser that builds operator trees, with a
  model of each step (`spec_tokenize`, `spec_parse`) and the evaluation model `spec_eval_model`.
- `src/operator.rs`, `src/arithmetic.rs`, `src/comparison.rs`, `src/builtin.rs`: what each
  operator and builtin function computes.
- `src/interface.rs`: `eval`, `eval_with_context`, `build_operator_tree` and the typed variants.
- `src/context.rs`, `src/value.rs`, `src/error.rs`: contexts, values and errors with their models.
- `src/laws.rs`: properties that relate several functions (what a context gives back after a
  write, that assignments keep a variable's type, that a built tree evaluates as its text, that
  the typed evaluations are conversions of the untyped one).
- `src/dates.rs`, `src/date_utils.rs`, `src/expression_functions.rs`, `src/bucket_functions.rs`,
  `src/row_functions.rs`, `src/report.rs`, `src/columns.rs`, `src/ffi.rs`: the helpers used by
  calculation templates.
- `src/templates.rs`: the calculation templates. `RollingZScore::commit_values` computes a row's
  rolling z-scores (with `ZScoreWindow`); the two trade models are given as step functions
  (`SimpleTradeModel::step`, `adaptive_stop_loss_step`) from a state and what a row shows to the
  next state and the action taken. The loops that apply those steps row by row and format the
  trade columns and reasons (the trade models' `commit_row`) are not part of this library.
- `src/expression.rs`: the range test of the older `Expression` parser. That parser
  (`Expression::parse_operators`, `Expression::compile`) rests on an operator type with
  priorities that this project does not have, and is left out.
- `app/`: the command-line program and the adapters that need I/O or outside traits.

Floating-point arithmetic is reached through the `EvalexprFloat` trait. Each of its operations
comes with a spec function (`add` with `spec_add`, `from_float_literal` with
`spec_from_float_literal`, and so on) that the implementation defines and the operation returns
exactly; the library's contracts state float results through these spec functions, so that an
evaluation's float result is the one its operations compute. An implementation outside Verus
writes each spec function as the operation it describes (the two that take or give a
`LiteralText` are never called at run time). Calls into `regex` and `chrono`/`workdays` stand behind
small trusted wrappers whose contracts name the outside result.
