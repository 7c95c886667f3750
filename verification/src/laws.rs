//! Properties of the library that relate several of its functions.
use vstd::prelude::*;
use crate::numeric::EvalexprFloat;
use crate::value::{Value, VModel, IntType, model_type, float_of, has_float};
use crate::operator::{Operator, spec_compare, is_number, spec_precedence, lex_less_from, spec_eval_op, spec_is_left_to_right,
    spec_eval_op_mut, spec_assign, checked_int_op};
use crate::ffi::{FfiResult, ToErrorType, is_ffi_result_of};
use crate::error::{EvalexprError, EvalexprResult, EModel, RModel, result_model};
use crate::context::{ContextWithMutableVariables, HashMapContext, expected_type_model};
use crate::token::{Token, TModel, PModel, tokens_model, spec_tokenize, spec_string_literal, spec_partial_tokens,
    spec_resolve, spec_resolve_step};
use crate::tree::{Node, NodeModel, CtxView, spec_eval_model_mut, spec_parse, shape_admits, spec_shape_model,
    number_result, int_result, float_result, string_result, boolean_result};
use crate::interface::{text_outcome, text_outcome_or, evaluates_to};
use crate::bucket_functions::{stops_descend, bucket_from};
use crate::columns::{sanitized, collapse_pairs, sanitized_char};
use crate::expression_functions::safe_divide_outcome;
use crate::arithmetic::Outcome;
use crate::comparison::{spec_greater, spec_less};
use crate::text::spec_is_ascii_alphanumeric;
use crate::dates::{weekday_from_sunday, valid_date, days_in_month, month_offset, is_leap_year};

verus! {

/// A `HashMapContext` gives back what was written: once `set_value(identifier, value)` succeeds,
/// `get_value(identifier)` finds `value`, and every other identifier is bound as before.
/// Setting an identifier that is not bound yet always succeeds.
pub proof fn law_read_after_write<F: EvalexprFloat>(vars: Map<Seq<char>, VModel<F>>, identifier: Seq<char>, value: VModel<F>, other: Seq<char>)
    ensures
        !vars.contains_key(identifier) ==> HashMapContext::<F>::spec_set_refusal(vars, identifier, value) is None,
        HashMapContext::<F>::spec_set_refusal(vars, identifier, value) is None ==> {
            let after = vars.insert(identifier, value);
            &&& after.contains_key(identifier) && after[identifier] == value
            &&& other != identifier ==> (after.contains_key(other) == vars.contains_key(other)
                    && (vars.contains_key(other) ==> after[other] == vars[other]))
        },
{
}

/// Assignments to a `HashMapContext` are type safe: once an identifier holds a value of one type,
/// setting it to a value of another type is refused with the error that expects the first type,
/// and the context keeps the first value.
pub proof fn law_assignment_keeps_type<F: EvalexprFloat>(vars: Map<Seq<char>, VModel<F>>, identifier: Seq<char>, first: VModel<F>, second: VModel<F>)
    requires
        HashMapContext::<F>::spec_set_refusal(vars, identifier, first) is None,
        model_type(first) != model_type(second),
    ensures
        HashMapContext::<F>::spec_set_refusal(vars.insert(identifier, first), identifier, second)
            == Some(expected_type_model(model_type(first), second)),
{
}

/// A tree that `build_operator_tree` built from a text evaluates, in any context, to what evaluating
/// the text directly in that context gives: `result` is what `Node::eval_with_context` promises of
/// the built tree, and it is what `eval_with_configuration` promises of the text.
pub proof fn law_precompiled_tree_evaluates_as_text<F: EvalexprFloat>(text: Seq<char>, built: EvalexprResult<Node<F>, F>, ctx: CtxView<F>, result: EvalexprResult<Value<F>, F>)
    requires
        text_outcome(text, built, |m: NodeModel<F>| built matches Ok(n) && n.model() == m),
        built is Ok,
        shape_admits(spec_shape_model(built->Ok_0.model(), ctx), result_model(result)),
    ensures
        evaluates_to(text, ctx, result),
{
    let n = built->Ok_0;
    let outcome = |m: NodeModel<F>| shape_admits(spec_shape_model(m, ctx), result_model(result));
    match crate::token::spec_tokenize::<F>(text) {
        Ok(tm) => {
            let toks = choose|toks: Seq<Token<F>>| #[trigger] tokens_model(toks) == tm && match spec_parse(toks) {
                Err(e) => built matches Err(x) && x@ == e && true,
                Ok(m) => built matches Ok(n) && n.model() == m,
            };
            assert(tokens_model(toks) == tm);
            assert(spec_parse(toks) == Ok::<NodeModel<F>, crate::error::EModel<F>>(n.model()));
            assert(outcome(n.model()));
        },
        Err(e) => {},
    }
}

/// Evaluating a text into a type and evaluating it into a value can be used interchangeably: for
/// a conversion `conv` that hands an error on unchanged (as `string_result`, `int_result`,
/// `float_result`, `number_result`, `boolean_result`, `tuple_result` and `empty_result` do), the
/// conversion of a result that evaluating into a value may give is a result that evaluating into
/// that type may give.
pub proof fn law_typed_evaluation_converts<F: EvalexprFloat, T>(text: Seq<char>, ctx: CtxView<F>, r: EvalexprResult<Value<F>, F>,
    typed: EvalexprResult<T, F>, conv: spec_fn(RModel<F>, EvalexprResult<T, F>) -> bool)
    requires
        evaluates_to(text, ctx, r),
        conv(result_model(r), typed),
        forall|e: EModel<F>| #[trigger] conv(Err(e), typed) ==> (typed matches Err(x) && x@ == e),
    ensures
        text_outcome(text, typed, |m: NodeModel<F>| exists|v: RModel<F>| #[trigger] shape_admits(spec_shape_model(m, ctx), v) && conv(v, typed)),
{
    match crate::token::spec_tokenize::<F>(text) {
        Ok(tm) => {
            let toks = choose|toks: Seq<Token<F>>| #[trigger] tokens_model(toks) == tm && match spec_parse(toks) {
                Err(e) => r matches Err(x) && x@ == e && true,
                Ok(m) => shape_admits(spec_shape_model(m, ctx), result_model(r)),
            };
            assert(tokens_model(toks) == tm);
            match spec_parse(toks) {
                Err(e) => {
                    assert(conv(Err(e), typed));
                },
                Ok(m) => {
                    assert(shape_admits(spec_shape_model(m, ctx), result_model(r)) && conv(result_model(r), typed));
                },
            }
        },
        Err(e) => {
            assert(conv(Err(e), typed));
        },
    }
}

/// Evaluating a text into a type and evaluating it into a value with a mutable context can be
/// used interchangeably too: with `vars_after` the variables that the context holds afterwards,
/// the conversion of a result that evaluating into a value may give, with those variables, is a
/// result that evaluating into the type may give.
pub proof fn law_typed_evaluation_converts_mut<F: EvalexprFloat, C: ContextWithMutableVariables<F>, T>(text: Seq<char>,
    vars: Map<Seq<char>, VModel<F>>, builtins_disabled: bool, has_functions: bool, vars_after: Map<Seq<char>, VModel<F>>,
    r: EvalexprResult<Value<F>, F>, typed: EvalexprResult<T, F>, conv: spec_fn(RModel<F>, EvalexprResult<T, F>) -> bool)
    requires
        text_outcome_or(text, r, |m: NodeModel<F>| spec_eval_model_mut::<F, C>(m, vars, builtins_disabled, has_functions)
            matches Some((v, w)) ==> result_model(r) == v && vars_after == w, vars_after == vars),
        conv(result_model(r), typed),
        forall|e: EModel<F>| #[trigger] conv(Err(e), typed) ==> (typed matches Err(x) && x@ == e),
    ensures
        text_outcome_or(text, typed, |m: NodeModel<F>| spec_eval_model_mut::<F, C>(m, vars, builtins_disabled, has_functions)
            matches Some((v, w)) ==> conv(v, typed) && vars_after == w, vars_after == vars),
{
    match crate::token::spec_tokenize::<F>(text) {
        Ok(tm) => {
            let toks = choose|toks: Seq<Token<F>>| #[trigger] tokens_model(toks) == tm && match spec_parse(toks) {
                Err(e) => r matches Err(x) && x@ == e && vars_after == vars,
                Ok(m) => spec_eval_model_mut::<F, C>(m, vars, builtins_disabled, has_functions)
                    matches Some((v, w)) ==> result_model(r) == v && vars_after == w,
            };
            assert(tokens_model(toks) == tm);
            match spec_parse(toks) {
                Err(e) => {
                    assert(conv(Err(e), typed));
                },
                Ok(m) => {},
            }
        },
        Err(e) => {
            assert(conv(Err(e), typed));
        },
    }
}

/// Order comparisons of two numbers or two strings are mirror images: `a > b` evaluates as
/// `b < a` and `a >= b` as `b <= a`, floats included, and each of them is a boolean.
pub proof fn law_comparisons_mirror<F: EvalexprFloat>(a: VModel<F>, b: VModel<F>)
    requires
        (is_number(a) && is_number(b)) || (a is Str && b is Str),
    ensures
        spec_compare(Operator::<F>::Gt, seq![a, b]) == spec_compare(Operator::<F>::Lt, seq![b, a]),
        spec_compare(Operator::<F>::Geq, seq![a, b]) == spec_compare(Operator::<F>::Leq, seq![b, a]),
        spec_compare(Operator::<F>::Gt, seq![a, b]) matches Some(Ok(VModel::Boolean(_))),
        spec_compare(Operator::<F>::Geq, seq![a, b]) matches Some(Ok(VModel::Boolean(_))),
{
}

/// Converting a result for the foreign interface directly, and as the outcome of a call that did
/// not panic, agree: the same code and message, the same value where the result is `Ok`, and
/// where it is an error, a value that `T::default()` gives in both.
pub proof fn law_nested_ffi_result_agrees<T: Default, E: ToErrorType>(result: Result<T, E>, direct: FfiResult<T>, nested: FfiResult<T>)
    requires
        is_ffi_result_of(result, direct),
        is_ffi_result_of(result, nested),
    ensures
        direct.error_code == nested.error_code,
        direct.error_message@ == nested.error_message@,
        result is Ok ==> direct.value == nested.value,
        result is Err ==> call_ensures(T::default, (), direct.value) && call_ensures(T::default, (), nested.value),
{
}


/// The precedence table of the binary and unary operators: `^` binds tighter than the unary `-`
/// and `!`, these tighter than `*`, `/` and `%`, these tighter than `+` and `-`, these tighter than
/// the comparisons, these tighter than `&&`, `&&` tighter than `||`, `||` tighter than the
/// assignments, these tighter than `,`, and `,` tighter than `;`. The operators of one step bind
/// equally.
pub proof fn law_precedence_order<F>()
    ensures
        spec_precedence(Operator::<F>::Exp) > spec_precedence(Operator::<F>::Neg),
        spec_precedence(Operator::<F>::Neg) == spec_precedence(Operator::<F>::Not),
        spec_precedence(Operator::<F>::Neg) > spec_precedence(Operator::<F>::Mul),
        spec_precedence(Operator::<F>::Mul) == spec_precedence(Operator::<F>::Div),
        spec_precedence(Operator::<F>::Mul) == spec_precedence(Operator::<F>::Mod),
        spec_precedence(Operator::<F>::Mul) > spec_precedence(Operator::<F>::Add),
        spec_precedence(Operator::<F>::Add) == spec_precedence(Operator::<F>::Sub),
        spec_precedence(Operator::<F>::Add) > spec_precedence(Operator::<F>::Eq),
        spec_precedence(Operator::<F>::Eq) == spec_precedence(Operator::<F>::Neq),
        spec_precedence(Operator::<F>::Eq) == spec_precedence(Operator::<F>::Gt),
        spec_precedence(Operator::<F>::Eq) == spec_precedence(Operator::<F>::Lt),
        spec_precedence(Operator::<F>::Eq) == spec_precedence(Operator::<F>::Geq),
        spec_precedence(Operator::<F>::Eq) == spec_precedence(Operator::<F>::Leq),
        spec_precedence(Operator::<F>::Eq) > spec_precedence(Operator::<F>::And),
        spec_precedence(Operator::<F>::And) > spec_precedence(Operator::<F>::Or),
        spec_precedence(Operator::<F>::Or) > spec_precedence(Operator::<F>::Assign),
        spec_precedence(Operator::<F>::Assign) == spec_precedence(Operator::<F>::AddAssign),
        spec_precedence(Operator::<F>::Assign) == spec_precedence(Operator::<F>::SubAssign),
        spec_precedence(Operator::<F>::Assign) == spec_precedence(Operator::<F>::MulAssign),
        spec_precedence(Operator::<F>::Assign) == spec_precedence(Operator::<F>::DivAssign),
        spec_precedence(Operator::<F>::Assign) == spec_precedence(Operator::<F>::ModAssign),
        spec_precedence(Operator::<F>::Assign) == spec_precedence(Operator::<F>::ExpAssign),
        spec_precedence(Operator::<F>::Assign) == spec_precedence(Operator::<F>::AndAssign),
        spec_precedence(Operator::<F>::Assign) == spec_precedence(Operator::<F>::OrAssign),
        spec_precedence(Operator::<F>::Assign) > spec_precedence(Operator::<F>::Tuple),
        spec_precedence(Operator::<F>::Tuple) > spec_precedence(Operator::<F>::Chain),
{
}

/// Evaluating into a number converts an integer into a float with `from_int` and keeps a float;
/// only a value that is not a number is refused, with `ExpectedNumber`; an error is handed on.
pub proof fn law_number_result_converts_integers<F: EvalexprFloat>(m: RModel<F>, r: EvalexprResult<F, F>)
    requires
        number_result(m, r),
    ensures
        m matches Ok(VModel::Int(i)) ==> r == Ok::<F, EvalexprError<F>>(F::spec_from_int(i as i64)),
        m matches Ok(VModel::Float(f)) ==> r == Ok::<F, EvalexprError<F>>(f),
        (m is Ok && r is Err) ==> !is_number(m->Ok_0),
        m matches Err(e) ==> (r matches Err(x) && x@ == e),
{
}

/// Evaluating into a type gives the value where it has that type: an integer into an integer, a
/// float into a float, a string into a string, a boolean into a boolean.
pub proof fn law_typed_results_keep_values<F: EvalexprFloat>(m: RModel<F>, ri: EvalexprResult<IntType, F>,
    rf: EvalexprResult<F, F>, rs: EvalexprResult<String, F>, rb: EvalexprResult<bool, F>)
    requires
        int_result(m, ri),
        float_result(m, rf),
        string_result(m, rs),
        boolean_result(m, rb),
    ensures
        m matches Ok(VModel::Int(i)) ==> ri == Ok::<IntType, EvalexprError<F>>(i as i64),
        m matches Ok(VModel::Float(f)) ==> rf == Ok::<F, EvalexprError<F>>(f),
        m matches Ok(VModel::Str(s)) ==> (rs matches Ok(x) && x@ == s),
        m matches Ok(VModel::Boolean(b)) ==> rb == Ok::<bool, EvalexprError<F>>(b),
{
}


/// Over a common prefix, the lexicographic comparison moves on to the first place after it.
proof fn lemma_lex_less_skips_prefix(a: Seq<char>, b: Seq<char>, i: int, k: int)
    requires
        0 <= i <= k,
        k <= a.len(),
        k <= b.len(),
        forall|j: int| i <= j < k ==> a[j] == b[j],
    ensures
        lex_less_from(a, b, i) == lex_less_from(a, b, k),
    decreases k - i,
{
    if i < k {
        lemma_lex_less_skips_prefix(a, b, i + 1, k);
    }
}

/// Two strings compare by their characters from the first on: where `a` is a proper prefix of
/// `b`, `a < b` and not `a > b`; where they first differ at a place `k`, `a < b` exactly when
/// `a[k] < b[k]`, and `a > b` exactly when `a[k] > b[k]`. Equal strings are neither. `a >= b` is
/// `!(a < b)` and `a <= b` is `!(a > b)`.
#[verifier::spinoff_prover]
pub proof fn law_string_order<F: EvalexprFloat>(a: Seq<char>, b: Seq<char>, k: int)
    requires
        0 <= k <= a.len(),
        k <= b.len(),
        forall|j: int| 0 <= j < k ==> a[j] == b[j],
    ensures
        ({
            let args = seq![VModel::<F>::Str(a), VModel::<F>::Str(b)];
            &&& k == a.len() && k < b.len() ==> spec_compare(Operator::<F>::Lt, args) == Some(Ok::<VModel<F>, EModel<F>>(VModel::Boolean(true)))
                && spec_compare(Operator::<F>::Gt, args) == Some(Ok::<VModel<F>, EModel<F>>(VModel::Boolean(false)))
            &&& k < a.len() && k < b.len() && a[k] != b[k] ==>
                spec_compare(Operator::<F>::Lt, args) == Some(Ok::<VModel<F>, EModel<F>>(VModel::Boolean(a[k] < b[k])))
                && spec_compare(Operator::<F>::Gt, args) == Some(Ok::<VModel<F>, EModel<F>>(VModel::Boolean(a[k] > b[k])))
            &&& a == b ==> spec_compare(Operator::<F>::Lt, args) == Some(Ok::<VModel<F>, EModel<F>>(VModel::Boolean(false)))
                && spec_compare(Operator::<F>::Gt, args) == Some(Ok::<VModel<F>, EModel<F>>(VModel::Boolean(false)))
            &&& spec_compare(Operator::<F>::Geq, args) matches Some(Ok(VModel::Boolean(x)))
                && spec_compare(Operator::<F>::Lt, args) matches Some(Ok(VModel::Boolean(y))) && x == !y
            &&& spec_compare(Operator::<F>::Leq, args) matches Some(Ok(VModel::Boolean(x)))
                && spec_compare(Operator::<F>::Gt, args) matches Some(Ok(VModel::Boolean(y))) && x == !y
        }),
{
    lemma_lex_less_skips_prefix(a, b, 0, k);
    lemma_lex_less_skips_prefix(b, a, 0, k);
    if a == b {
        lemma_lex_less_skips_prefix(a, b, 0, a.len() as int);
        lemma_lex_less_skips_prefix(b, a, 0, a.len() as int);
    }
}


/// The body of a string literal that stands for the text `t`: each `"` of it written `\"`, each
/// `\` written `\\`, any other character as it is.
pub open spec fn escaped(t: Seq<char>) -> Seq<char>
    decreases t.len(),
{
    if t.len() == 0 {
        Seq::empty()
    } else {
        let c = t[0];
        (if c == '"' || c == '\\' { seq!['\\', c] } else { seq![c] }) + escaped(t.drop_first())
    }
}

/// Reading the body of a string literal over the escaped text `t` adds `t` to what was read.
proof fn lemma_string_literal_reads_escaped<F>(s: Seq<char>, i: int, t: Seq<char>, buf: Seq<char>)
    requires
        0 <= i,
        i + escaped(t).len() <= s.len(),
        s.subrange(i, i + escaped(t).len()) == escaped(t),
    ensures
        spec_string_literal::<F>(s, i, buf) == spec_string_literal::<F>(s, i + escaped(t).len(), buf + t),
    decreases t.len(),
{
    let e = escaped(t);
    if t.len() == 0 {
        assert(buf + t =~= buf);
    } else {
        let c = t[0];
        let rest = t.drop_first();
        let head: Seq<char> = if c == '"' || c == '\\' { seq!['\\', c] } else { seq![c] };
        let er = escaped(rest);
        assert(e == head + er);
        let h = head.len() as int;
        assert(s[i] == e[0]) by {
            assert(s.subrange(i, i + e.len())[0] == s[i]);
        }
        if h == 2 {
            assert(s[i + 1] == e[1]) by {
                assert(s.subrange(i, i + e.len())[1] == s[i + 1]);
            }
        }
        assert(e.len() == h + er.len());
        assert(s.subrange(i + h, i + h + er.len()) =~= er) by {
            let whole = s.subrange(i, i + e.len());
            assert forall|j: int| 0 <= j < er.len() implies s.subrange(i + h, i + h + er.len())[j] == er[j] by {
                assert(whole[h + j] == s[i + h + j]);
                assert(e[h + j] == er[j]);
                assert(whole[h + j] == e[h + j]);
            }
        }
        lemma_string_literal_reads_escaped::<F>(s, i + h, rest, buf.push(c));
        assert(buf.push(c) + rest =~= buf + t);
    }
}

/// A string literal reads back the text it was written from: the literal made of a quote, the
/// text with each `"` and `\` escaped by a backslash, and a quote is one string token holding
/// exactly that text.
#[verifier::spinoff_prover]
pub proof fn law_string_literal_round_trip<F: EvalexprFloat>(t: Seq<char>)
    ensures
        spec_tokenize::<F>(seq!['"'] + escaped(t) + seq!['"']) == Ok::<Seq<TModel<F>>, EModel<F>>(seq![TModel::Str(t)]),
{
    let e = escaped(t);
    let n: int = e.len() as int;
    let s = seq!['"'] + e + seq!['"'];
    assert(s.subrange(1, 1 + n) =~= e);
    assert(s[1 + n] == '"');
    lemma_string_literal_reads_escaped::<F>(s, 1, t, Seq::empty());
    assert(Seq::<char>::empty() + t =~= t);
    assert(spec_string_literal::<F>(s, 1 + n, t) == Ok::<(Seq<char>, int), EModel<F>>((t, 2 + n)));
    assert(s[0] == '"');
    let tok: PModel<F> = PModel::Token(TModel::Str(t));
    let p: Seq<PModel<F>> = seq![tok];
    assert(Seq::<PModel<F>>::empty().push(tok) =~= p);
    assert(spec_partial_tokens::<F>(s, s.len() as int, p) == Ok::<Seq<PModel<F>>, EModel<F>>(p));
    assert(spec_partial_tokens::<F>(s, 0, Seq::empty()) == Ok::<Seq<PModel<F>>, EModel<F>>(p));
    assert(spec_resolve_step::<F>(p, 0) == Ok::<(Option<TModel<F>>, int), EModel<F>>((Some(TModel::Str(t)), 1)));
    let st: TModel<F> = TModel::Str(t);
    let out: Seq<TModel<F>> = seq![st];
    assert(Seq::<TModel<F>>::empty().push(st) =~= out);
    assert(spec_resolve::<F>(p, 1, out) == Ok::<Seq<TModel<F>>, EModel<F>>(out));
}

/// The arguments of an operator applied to two integers.
pub open spec fn int_pair<F>(x: i64, y: i64) -> Seq<VModel<F>> {
    seq![VModel::Int(x as int), VModel::Int(y as int)]
}

/// The arguments of an operator applied to two booleans.
pub open spec fn bool_pair<F>(p: bool, q: bool) -> Seq<VModel<F>> {
    seq![VModel::Boolean(p), VModel::Boolean(q)]
}

/// The arithmetic operators on integers, whatever the context: `+`, `-` and `*` give the sum,
/// difference and product of two integers where it is an integer (`i64`), and otherwise refuse with
/// the error of that operator; `/` and `%` give the quotient and remainder of a non-negative integer
/// by a positive one, and refuse a divisor of zero; the unary `-` negates.
#[verifier::spinoff_prover]
pub proof fn law_integer_operators<F: EvalexprFloat>(x: i64, y: i64,
    vars: Map<Seq<char>, VModel<F>>, builtins_disabled: bool, has_functions: bool)
    ensures
        (i64::MIN <= x + y <= i64::MAX ==> spec_eval_op(Operator::Add, int_pair::<F>(x, y), vars, builtins_disabled, has_functions) == Some(Ok::<VModel<F>, EModel<F>>(VModel::Int(x + y)))),
        (!(i64::MIN <= x + y <= i64::MAX) ==> spec_eval_op(Operator::Add, int_pair::<F>(x, y), vars, builtins_disabled, has_functions) == Some(Err::<VModel<F>, EModel<F>>(EModel::AdditionError { augend: VModel::Int(x as int), addend: VModel::Int(y as int) }))),
        (i64::MIN <= x - y <= i64::MAX ==> spec_eval_op(Operator::Sub, int_pair::<F>(x, y), vars, builtins_disabled, has_functions) == Some(Ok::<VModel<F>, EModel<F>>(VModel::Int(x - y)))),
        (!(i64::MIN <= x - y <= i64::MAX) ==> spec_eval_op(Operator::Sub, int_pair::<F>(x, y), vars, builtins_disabled, has_functions) == Some(Err::<VModel<F>, EModel<F>>(EModel::SubtractionError { minuend: VModel::Int(x as int), subtrahend: VModel::Int(y as int) }))),
        (i64::MIN <= x * y <= i64::MAX ==> spec_eval_op(Operator::Mul, int_pair::<F>(x, y), vars, builtins_disabled, has_functions) == Some(Ok::<VModel<F>, EModel<F>>(VModel::Int(x * y)))),
        (!(i64::MIN <= x * y <= i64::MAX) ==> spec_eval_op(Operator::Mul, int_pair::<F>(x, y), vars, builtins_disabled, has_functions) == Some(Err::<VModel<F>, EModel<F>>(EModel::MultiplicationError { multiplicand: VModel::Int(x as int), multiplier: VModel::Int(y as int) }))),
        (x >= 0 && y > 0 ==> spec_eval_op(Operator::Div, int_pair::<F>(x, y), vars, builtins_disabled, has_functions) == Some(Ok::<VModel<F>, EModel<F>>(VModel::Int((x as int) / (y as int))))),
        (x >= 0 && y > 0 ==> spec_eval_op(Operator::Mod, int_pair::<F>(x, y), vars, builtins_disabled, has_functions) == Some(Ok::<VModel<F>, EModel<F>>(VModel::Int((x as int) % (y as int))))),
        (y == 0 ==> spec_eval_op(Operator::Div, int_pair::<F>(x, y), vars, builtins_disabled, has_functions) == Some(Err::<VModel<F>, EModel<F>>(EModel::DivisionError { dividend: VModel::Int(x as int), divisor: VModel::Int(0) }))),
        (y == 0 ==> spec_eval_op(Operator::Mod, int_pair::<F>(x, y), vars, builtins_disabled, has_functions) == Some(Err::<VModel<F>, EModel<F>>(EModel::ModulationError { dividend: VModel::Int(x as int), divisor: VModel::Int(0) }))),
        (x != i64::MIN ==> spec_eval_op(Operator::Neg, seq![VModel::<F>::Int(x as int)], vars, builtins_disabled, has_functions) == Some(Ok::<VModel<F>, EModel<F>>(VModel::Int(-x)))),
{
    if x >= 0 && y > 0 {
        let q: int = (x as int) / (y as int);
        let r: int = (x as int) % (y as int);
        assert(0 <= q <= x && 0 <= r < y && (x == 0 ==> q == 0 && r == 0)) by (nonlinear_arith)
            requires x >= 0, y > 0, q == (x as int) / (y as int), r == (x as int) % (y as int);
        assert(x.checked_div(y) == Some(q as i64));
        assert(x.checked_rem(y) == Some(r as i64));
        assert(checked_int_op(Operator::<F>::Div, x, y) == Some(q as i64));
        assert(checked_int_op(Operator::<F>::Mod, x, y) == Some(r as i64));
    }
}

/// The comparisons of integers and the logical operators, whatever the context: `<`, `>`, `<=` and
/// `>=` order integers as numbers; `&&`, `||` and `!` are the operations of logic on booleans.
#[verifier::spinoff_prover]
pub proof fn law_order_and_logic_operators<F: EvalexprFloat>(x: i64, y: i64, p: bool, q: bool,
    vars: Map<Seq<char>, VModel<F>>, builtins_disabled: bool, has_functions: bool)
    ensures
        spec_eval_op(Operator::Lt, int_pair::<F>(x, y), vars, builtins_disabled, has_functions) == Some(Ok::<VModel<F>, EModel<F>>(VModel::Boolean(x < y))),
        spec_eval_op(Operator::Gt, int_pair::<F>(x, y), vars, builtins_disabled, has_functions) == Some(Ok::<VModel<F>, EModel<F>>(VModel::Boolean(x > y))),
        spec_eval_op(Operator::Leq, int_pair::<F>(x, y), vars, builtins_disabled, has_functions) == Some(Ok::<VModel<F>, EModel<F>>(VModel::Boolean(x <= y))),
        spec_eval_op(Operator::Geq, int_pair::<F>(x, y), vars, builtins_disabled, has_functions) == Some(Ok::<VModel<F>, EModel<F>>(VModel::Boolean(x >= y))),
        spec_eval_op(Operator::And, bool_pair::<F>(p, q), vars, builtins_disabled, has_functions) == Some(Ok::<VModel<F>, EModel<F>>(VModel::Boolean(p && q))),
        spec_eval_op(Operator::Or, bool_pair::<F>(p, q), vars, builtins_disabled, has_functions) == Some(Ok::<VModel<F>, EModel<F>>(VModel::Boolean(p || q))),
        spec_eval_op(Operator::Not, seq![VModel::<F>::Boolean(p)], vars, builtins_disabled, has_functions) == Some(Ok::<VModel<F>, EModel<F>>(VModel::Boolean(!p))),
{
}

/// The operators on floats, on strings and on any values without floats, whatever the context:
/// `+`, `-`, `*`, `/` and `%` of two numbers of which one is a float compute with the float type's
/// operations, an integer taken as the float `from_int` gives; `<` and `>` of such numbers are the
/// float type's `<` (with the arguments swapped for `>`), `<=` and `>=` its `<=`; `^` of any two
/// numbers is the float type's power; the unary `-` of a float its negation; `+` of two strings
/// their concatenation; `==` and `!=` of values that hold no float are equality and inequality.
#[verifier::spinoff_prover]
pub proof fn law_float_string_and_equality_operators<F: EvalexprFloat>(a: VModel<F>, b: VModel<F>,
    vars: Map<Seq<char>, VModel<F>>, builtins_disabled: bool, has_functions: bool)
    ensures
        ({
            let args = seq![a, b];
            let x = float_of(a);
            let y = float_of(b);
            &&& (is_number(a) && is_number(b) && (a is Float || b is Float)) ==> {
                &&& spec_eval_op(Operator::Add, args, vars, builtins_disabled, has_functions) == Some(Ok::<VModel<F>, EModel<F>>(VModel::Float(x.spec_add(y))))
                &&& spec_eval_op(Operator::Sub, args, vars, builtins_disabled, has_functions) == Some(Ok::<VModel<F>, EModel<F>>(VModel::Float(x.spec_sub(y))))
                &&& spec_eval_op(Operator::Mul, args, vars, builtins_disabled, has_functions) == Some(Ok::<VModel<F>, EModel<F>>(VModel::Float(x.spec_mul(y))))
                &&& spec_eval_op(Operator::Div, args, vars, builtins_disabled, has_functions) == Some(Ok::<VModel<F>, EModel<F>>(VModel::Float(x.spec_div(y))))
                &&& spec_eval_op(Operator::Mod, args, vars, builtins_disabled, has_functions) == Some(Ok::<VModel<F>, EModel<F>>(VModel::Float(x.spec_rem(y))))
                &&& spec_eval_op(Operator::Lt, args, vars, builtins_disabled, has_functions) == Some(Ok::<VModel<F>, EModel<F>>(VModel::Boolean(x.spec_float_lt(y))))
                &&& spec_eval_op(Operator::Gt, args, vars, builtins_disabled, has_functions) == Some(Ok::<VModel<F>, EModel<F>>(VModel::Boolean(y.spec_float_lt(x))))
                &&& spec_eval_op(Operator::Leq, args, vars, builtins_disabled, has_functions) == Some(Ok::<VModel<F>, EModel<F>>(VModel::Boolean(x.spec_float_le(y))))
                &&& spec_eval_op(Operator::Geq, args, vars, builtins_disabled, has_functions) == Some(Ok::<VModel<F>, EModel<F>>(VModel::Boolean(y.spec_float_le(x))))
            }
            &&& (is_number(a) && is_number(b)) ==>
                spec_eval_op(Operator::Exp, args, vars, builtins_disabled, has_functions) == Some(Ok::<VModel<F>, EModel<F>>(VModel::Float(x.spec_pow(y))))
            &&& a is Float ==>
                spec_eval_op(Operator::Neg, seq![a], vars, builtins_disabled, has_functions) == Some(Ok::<VModel<F>, EModel<F>>(VModel::Float(x.spec_neg())))
            &&& (a is Str && b is Str) ==>
                spec_eval_op(Operator::Add, args, vars, builtins_disabled, has_functions) == Some(Ok::<VModel<F>, EModel<F>>(VModel::Str(a->Str_0 + b->Str_0)))
            &&& (!has_float(a) && !has_float(b)) ==> {
                &&& spec_eval_op(Operator::Eq, args, vars, builtins_disabled, has_functions) == Some(Ok::<VModel<F>, EModel<F>>(VModel::Boolean(a == b)))
                &&& spec_eval_op(Operator::Neq, args, vars, builtins_disabled, has_functions) == Some(Ok::<VModel<F>, EModel<F>>(VModel::Boolean(a != b)))
            }
        }),
{
}

/// Operators of one precedence group to the left (`a - b - c` is `(a - b) - c`, and so for every
/// binary operator, the compound assignments included), except the plain assignment `=`, which
/// groups to the right.
pub proof fn law_operators_group_left<F>()
    ensures
        spec_is_left_to_right(Operator::<F>::Add),
        spec_is_left_to_right(Operator::<F>::Sub),
        spec_is_left_to_right(Operator::<F>::Mul),
        spec_is_left_to_right(Operator::<F>::Div),
        spec_is_left_to_right(Operator::<F>::Mod),
        spec_is_left_to_right(Operator::<F>::Exp),
        spec_is_left_to_right(Operator::<F>::Eq),
        spec_is_left_to_right(Operator::<F>::Neq),
        spec_is_left_to_right(Operator::<F>::Gt),
        spec_is_left_to_right(Operator::<F>::Lt),
        spec_is_left_to_right(Operator::<F>::Geq),
        spec_is_left_to_right(Operator::<F>::Leq),
        spec_is_left_to_right(Operator::<F>::And),
        spec_is_left_to_right(Operator::<F>::Or),
        spec_is_left_to_right(Operator::<F>::Tuple),
        spec_is_left_to_right(Operator::<F>::Chain),
        spec_is_left_to_right(Operator::<F>::AddAssign),
        spec_is_left_to_right(Operator::<F>::SubAssign),
        spec_is_left_to_right(Operator::<F>::MulAssign),
        spec_is_left_to_right(Operator::<F>::DivAssign),
        spec_is_left_to_right(Operator::<F>::ModAssign),
        spec_is_left_to_right(Operator::<F>::ExpAssign),
        spec_is_left_to_right(Operator::<F>::AndAssign),
        spec_is_left_to_right(Operator::<F>::OrAssign),
        !spec_is_left_to_right(Operator::<F>::Assign),
{
}

/// From stop `i` on, among integer stops: some stop is greater than the next exactly when one is;
/// the bucket of an integer is the first stop from `i` on that it does not exceed.
proof fn lemma_integer_buckets_from<F: EvalexprFloat>(v: int, stops: Seq<Value<F>>, i: int)
    requires
        0 <= i <= stops.len(),
        forall|j: int| 0 <= j < stops.len() ==> (#[trigger] stops[j])@ is Int,
    ensures
        stops_descend(stops, i) == Some(exists|j: int| i <= j && j + 1 < stops.len()
            && (#[trigger] stops[j])@->Int_0 > stops[j + 1]@->Int_0),
        bucket_from(VModel::<F>::Int(v), stops, i) matches Some(k) && i <= k <= stops.len()
            && (forall|j: int| i <= j < k ==> (#[trigger] stops[j])@->Int_0 < v)
            && (k < stops.len() ==> v <= stops[k]@->Int_0),
    decreases stops.len() - i,
{
    if i < stops.len() {
        lemma_integer_buckets_from(v, stops, i + 1);
        assert(stops[i]@ is Int);
        if i + 1 < stops.len() {
            assert(stops[i + 1]@ is Int);
        }
    }
}

/// Buckets of integers among integer stops: the stops count as out of order exactly when some stop
/// is greater than the next; the bucket of an integer `v` is the number `k` of the first stop that
/// `v` does not exceed (every stop before it is less than `v`), or the number of stops where `v`
/// exceeds them all.
#[verifier::spinoff_prover]
pub proof fn law_integer_buckets<F: EvalexprFloat>(v: int, stops: Seq<Value<F>>)
    requires
        forall|j: int| 0 <= j < stops.len() ==> (#[trigger] stops[j])@ is Int,
    ensures
        stops_descend(stops, 0) == Some(exists|j: int| 0 <= j && j + 1 < stops.len()
            && (#[trigger] stops[j])@->Int_0 > stops[j + 1]@->Int_0),
        bucket_from(VModel::<F>::Int(v), stops, 0) matches Some(k) && 0 <= k <= stops.len()
            && (forall|j: int| 0 <= j < k ==> (#[trigger] stops[j])@->Int_0 < v)
            && (k < stops.len() ==> v <= stops[k]@->Int_0),
{
    lemma_integer_buckets_from(v, stops, 0);
}

/// What a compound assignment does once the operation it stands for has given `result`: assign
/// the value, or hand on the error with the variables unchanged.
pub open spec fn compound_outcome<F: EvalexprFloat, C: ContextWithMutableVariables<F>>(result: Option<RModel<F>>,
    vars: Map<Seq<char>, VModel<F>>, x: Seq<char>) -> Option<(RModel<F>, Map<Seq<char>, VModel<F>>)> {
    match result {
        Some(Ok(w)) => Some(spec_assign::<F, C>(vars, x, w)),
        Some(Err(e)) => Some((Err(e), vars)),
        None => None,
    }
}

/// Assignments in a mutable context: `x = v` sets `x` to `v`; `x += v` sets `x` to what `x + v`
/// gives on the value `x` holds, and likewise `-=` with `-`, `*=` with `*`, `/=` with `/`, `%=`
/// with `%`, `^=` with `^`, `&&=` with `&&` and `||=` with `||`; a compound assignment to a variable
/// that is not bound is refused with `VariableIdentifierNotFound`.
#[verifier::spinoff_prover]
pub proof fn law_assignments<F: EvalexprFloat, C: ContextWithMutableVariables<F>>(x: Seq<char>, v: VModel<F>,
    vars: Map<Seq<char>, VModel<F>>, builtins_disabled: bool, has_functions: bool)
    ensures
        ({
            let args = seq![VModel::<F>::Str(x), v];
            &&& spec_eval_op_mut::<F, C>(Operator::Assign, args, vars, builtins_disabled, has_functions)
                == Some(spec_assign::<F, C>(vars, x, v))
            &&& (vars.contains_key(x) ==> spec_eval_op_mut::<F, C>(Operator::AddAssign, args, vars, builtins_disabled, has_functions)
                == compound_outcome::<F, C>(spec_eval_op(Operator::Add, seq![vars[x], v], vars, builtins_disabled, has_functions), vars, x))
            &&& (!vars.contains_key(x) ==> spec_eval_op_mut::<F, C>(Operator::AddAssign, args, vars, builtins_disabled, has_functions)
                == Some((Err::<VModel<F>, EModel<F>>(EModel::VariableIdentifierNotFound(x)), vars)))
            &&& (vars.contains_key(x) ==> spec_eval_op_mut::<F, C>(Operator::SubAssign, args, vars, builtins_disabled, has_functions)
                == compound_outcome::<F, C>(spec_eval_op(Operator::Sub, seq![vars[x], v], vars, builtins_disabled, has_functions), vars, x))
            &&& (!vars.contains_key(x) ==> spec_eval_op_mut::<F, C>(Operator::SubAssign, args, vars, builtins_disabled, has_functions)
                == Some((Err::<VModel<F>, EModel<F>>(EModel::VariableIdentifierNotFound(x)), vars)))
            &&& (vars.contains_key(x) ==> spec_eval_op_mut::<F, C>(Operator::MulAssign, args, vars, builtins_disabled, has_functions)
                == compound_outcome::<F, C>(spec_eval_op(Operator::Mul, seq![vars[x], v], vars, builtins_disabled, has_functions), vars, x))
            &&& (!vars.contains_key(x) ==> spec_eval_op_mut::<F, C>(Operator::MulAssign, args, vars, builtins_disabled, has_functions)
                == Some((Err::<VModel<F>, EModel<F>>(EModel::VariableIdentifierNotFound(x)), vars)))
            &&& (vars.contains_key(x) ==> spec_eval_op_mut::<F, C>(Operator::DivAssign, args, vars, builtins_disabled, has_functions)
                == compound_outcome::<F, C>(spec_eval_op(Operator::Div, seq![vars[x], v], vars, builtins_disabled, has_functions), vars, x))
            &&& (!vars.contains_key(x) ==> spec_eval_op_mut::<F, C>(Operator::DivAssign, args, vars, builtins_disabled, has_functions)
                == Some((Err::<VModel<F>, EModel<F>>(EModel::VariableIdentifierNotFound(x)), vars)))
            &&& (vars.contains_key(x) ==> spec_eval_op_mut::<F, C>(Operator::ModAssign, args, vars, builtins_disabled, has_functions)
                == compound_outcome::<F, C>(spec_eval_op(Operator::Mod, seq![vars[x], v], vars, builtins_disabled, has_functions), vars, x))
            &&& (!vars.contains_key(x) ==> spec_eval_op_mut::<F, C>(Operator::ModAssign, args, vars, builtins_disabled, has_functions)
                == Some((Err::<VModel<F>, EModel<F>>(EModel::VariableIdentifierNotFound(x)), vars)))
            &&& (vars.contains_key(x) ==> spec_eval_op_mut::<F, C>(Operator::ExpAssign, args, vars, builtins_disabled, has_functions)
                == compound_outcome::<F, C>(spec_eval_op(Operator::Exp, seq![vars[x], v], vars, builtins_disabled, has_functions), vars, x))
            &&& (!vars.contains_key(x) ==> spec_eval_op_mut::<F, C>(Operator::ExpAssign, args, vars, builtins_disabled, has_functions)
                == Some((Err::<VModel<F>, EModel<F>>(EModel::VariableIdentifierNotFound(x)), vars)))
            &&& (vars.contains_key(x) ==> spec_eval_op_mut::<F, C>(Operator::AndAssign, args, vars, builtins_disabled, has_functions)
                == compound_outcome::<F, C>(spec_eval_op(Operator::And, seq![vars[x], v], vars, builtins_disabled, has_functions), vars, x))
            &&& (!vars.contains_key(x) ==> spec_eval_op_mut::<F, C>(Operator::AndAssign, args, vars, builtins_disabled, has_functions)
                == Some((Err::<VModel<F>, EModel<F>>(EModel::VariableIdentifierNotFound(x)), vars)))
            &&& (vars.contains_key(x) ==> spec_eval_op_mut::<F, C>(Operator::OrAssign, args, vars, builtins_disabled, has_functions)
                == compound_outcome::<F, C>(spec_eval_op(Operator::Or, seq![vars[x], v], vars, builtins_disabled, has_functions), vars, x))
            &&& (!vars.contains_key(x) ==> spec_eval_op_mut::<F, C>(Operator::OrAssign, args, vars, builtins_disabled, has_functions)
                == Some((Err::<VModel<F>, EModel<F>>(EModel::VariableIdentifierNotFound(x)), vars)))
        }),
{
}

/// The operators that build and sequence, whatever the context: `,` gathers its arguments into a
/// tuple in their order; `;` gives the value of its last argument; reading a variable gives the
/// value it is bound to, or `VariableIdentifierNotFound` where it is not bound; a constant gives
/// its value; the root of a tree gives the value of its first child, or the empty value without one;
/// outside a mutable context every assignment is refused with `ContextNotMutable`.
#[verifier::spinoff_prover]
pub proof fn law_structural_operators<F: EvalexprFloat>(a: Seq<VModel<F>>, identifier: String, value: Value<F>,
    vars: Map<Seq<char>, VModel<F>>, builtins_disabled: bool, has_functions: bool)
    ensures
        spec_eval_op(Operator::Tuple, a, vars, builtins_disabled, has_functions) == Some(Ok::<VModel<F>, EModel<F>>(VModel::Tuple(a))),
        a.len() > 0 ==> spec_eval_op(Operator::Chain, a, vars, builtins_disabled, has_functions) == Some(Ok::<VModel<F>, EModel<F>>(a[a.len() - 1])),
        vars.contains_key(identifier@) ==> spec_eval_op(Operator::VariableIdentifierRead { identifier }, a, vars, builtins_disabled, has_functions)
            == Some(Ok::<VModel<F>, EModel<F>>(vars[identifier@])),
        !vars.contains_key(identifier@) ==> spec_eval_op(Operator::VariableIdentifierRead { identifier }, a, vars, builtins_disabled, has_functions)
            == Some(Err::<VModel<F>, EModel<F>>(EModel::VariableIdentifierNotFound(identifier@))),
        a.len() == 0 ==> spec_eval_op(Operator::Const { value }, a, vars, builtins_disabled, has_functions) == Some(Ok::<VModel<F>, EModel<F>>(value@)),
        a.len() > 0 ==> spec_eval_op(Operator::RootNode, a, vars, builtins_disabled, has_functions) == Some(Ok::<VModel<F>, EModel<F>>(a[0])),
        a.len() == 0 ==> spec_eval_op(Operator::RootNode, a, vars, builtins_disabled, has_functions) == Some(Ok::<VModel<F>, EModel<F>>(VModel::Empty)),
        spec_eval_op(Operator::Assign, a, vars, builtins_disabled, has_functions) == Some(Err::<VModel<F>, EModel<F>>(EModel::ContextNotMutable)),
        spec_eval_op(Operator::AddAssign, a, vars, builtins_disabled, has_functions) == Some(Err::<VModel<F>, EModel<F>>(EModel::ContextNotMutable)),
{
}

/// Two numbers that differ by a multiple of 7 fall on the same day of the week.
proof fn lemma_same_weekday(n: int, a: int, b: int)
    requires
        (a - b) % 7 == 0,
    ensures
        (n + a) % 7 == (n + b) % 7,
{
    assert((n + a) % 7 == (n + b) % 7) by (nonlinear_arith)
        requires (a - b) % 7 == 0;
}

/// The day of the week after the one of count `c`.
proof fn lemma_next_weekday(c: int)
    ensures
        (c + 1) % 7 == (c % 7 + 1) % 7,
{
    assert((c + 1) % 7 == (c % 7 + 1) % 7) by (nonlinear_arith);
}

/// The count that the day of the week is taken from, before the remainder by 7.
spec fn weekday_count(y: int, m: int, d: int) -> int {
    let yy: int = if m < 3 { y - 1 } else { y };
    yy + yy / 4 - yy / 100 + yy / 400 + month_offset(m) + d
}

/// Going from `y - 1` to `y`, the count of multiples of `k` up to it grows by one exactly where `y`
/// is one.
#[verifier::spinoff_prover]
proof fn lemma_multiples_step(y: int, k: int)
    requires
        k > 0,
    ensures
        y / k - (y - 1) / k == (if y % k == 0 { 1int } else { 0int }),
{
    vstd::arithmetic::div_mod::lemma_fundamental_div_mod(y, k);
    vstd::arithmetic::div_mod::lemma_fundamental_div_mod(y - 1, k);
    vstd::arithmetic::div_mod::lemma_mod_bound(y, k);
    vstd::arithmetic::div_mod::lemma_mod_bound(y - 1, k);
    let q = y / k;
    let p = (y - 1) / k;
    assert(q - p == (if y % k == 0 { 1int } else { 0int })) by (nonlinear_arith)
        requires
            k > 0,
            y == k * q + y % k,
            y - 1 == k * p + (y - 1) % k,
            0 <= y % k < k,
            0 <= (y - 1) % k < k;
}

/// The day after a day of the month is counted one further.
proof fn lemma_weekday_count_next_day(y: int, m: int, d: int)
    ensures
        weekday_count(y, m, d + 1) == weekday_count(y, m, d) + 1,
{
}

/// The first of the next month after the last of a month is counted one further, up to multiples
/// of 7; and so is the first of January after the last of December.
#[verifier::spinoff_prover]
proof fn lemma_weekday_count_next_month(y: int, m: int)
    requires
        1 <= m <= 12,
    ensures
        m < 12 ==> (weekday_count(y, m + 1, 1) - (weekday_count(y, m, days_in_month(y, m)) + 1)) % 7 == 0,
        m == 12 ==> (weekday_count(y + 1, 1, 1) - (weekday_count(y, m, days_in_month(y, m)) + 1)) % 7 == 0,
{
    if m == 2 {
        lemma_february_to_march(y);
    } else if m == 12 {
        assert(weekday_count(y + 1, 1, 1) - (weekday_count(y, 12, 31) + 1) == -35);
    } else {
        let yy: int = if m < 3 { y - 1 } else { y };
        let base = yy + yy / 4 - yy / 100 + yy / 400;
        assert(weekday_count(y, m + 1, 1) == base + month_offset(m + 1) + 1);
        assert(weekday_count(y, m, days_in_month(y, m)) == base + month_offset(m) + days_in_month(y, m));
        assert((month_offset(m + 1) - month_offset(m) - days_in_month(y, m)) % 7 == 0);
    }
}

/// The first of March is counted one further than the last of February, up to multiples of 7: the
/// leap day, where there is one, is made up by the count of leap years.
#[verifier::spinoff_prover]
proof fn lemma_february_to_march(y: int)
    ensures
        (weekday_count(y, 3, 1) - (weekday_count(y, 2, days_in_month(y, 2)) + 1)) % 7 == 0,
{
    lemma_multiples_step(y, 4);
    lemma_multiples_step(y, 100);
    lemma_multiples_step(y, 400);
    let a = y - 1;
    let grow = (y / 4 - a / 4) - (y / 100 - a / 100) + (y / 400 - a / 400);
    assert(grow == (if is_leap_year(y) { 1int } else { 0int }));
    assert(weekday_count(y, 3, 1) - weekday_count(y, 2, days_in_month(y, 2)) - 1 == 1 + grow + 2 - 3 - days_in_month(y, 2));
}

/// The days of the week run on through the calendar: the day after a day of the month, the first of
/// the next month after the last of a month, and the first of January after the last of December,
/// each fall on the next day of the week; and the first of January 2000 was a Saturday. Together
/// these fix the day of the week of every date.
#[verifier::spinoff_prover]
pub proof fn law_weekdays_run_on(y: i32, m: u32, d: u32)
    ensures
        valid_date(y as int, m as int, d as int) && (d as int) < days_in_month(y as int, m as int) ==>
            weekday_from_sunday(y, m, (d + 1) as u32) == (weekday_from_sunday(y, m, d) + 1) % 7,
        valid_date(y as int, m as int, d as int) && d as int == days_in_month(y as int, m as int) && m < 12 ==>
            weekday_from_sunday(y, (m + 1) as u32, 1) == (weekday_from_sunday(y, m, d) + 1) % 7,
        valid_date(y as int, 12, 31) && y < 262142 ==>
            weekday_from_sunday((y + 1) as i32, 1, 1) == (weekday_from_sunday(y, 12, 31) + 1) % 7,
        weekday_from_sunday(2000, 1, 1) == 6,
{
    if valid_date(y as int, m as int, d as int) {
        lemma_weekday_count_next_day(y as int, m as int, d as int);
        lemma_weekday_count_next_month(y as int, m as int);
        let c = weekday_count(y as int, m as int, d as int);
        assert(weekday_from_sunday(y, m, d) == c % 7);
        if (d as int) < days_in_month(y as int, m as int) {
            assert(weekday_from_sunday(y, m, (d + 1) as u32) == (c + 1) % 7);
            lemma_next_weekday(c);
        } else if m < 12 {
            let c2 = weekday_count(y as int, m as int + 1, 1);
            assert(weekday_from_sunday(y, (m + 1) as u32, 1) == c2 % 7);
            lemma_same_weekday(0, c2, c + 1);
            lemma_next_weekday(c);
        }
    }
    if valid_date(y as int, 12, 31) && y < 262142 {
        lemma_weekday_count_next_month(y as int, 12);
        let c = weekday_count(y as int, 12, 31);
        let c2 = weekday_count(y as int + 1, 1, 1);
        assert(weekday_from_sunday((y + 1) as i32, 1, 1) == c2 % 7);
        assert(weekday_from_sunday(y, 12, 31) == c % 7);
        lemma_same_weekday(0, c2, c + 1);
        lemma_next_weekday(c);
    }
}

/// Collapsing pairs keeps every character that is no `ch`, keeps a text without a pair of `ch` as it
/// is, and adds no character.
proof fn lemma_collapse_pairs(s: Seq<char>, ch: char)
    ensures
        collapse_pairs(s, ch).len() <= s.len(),
        forall|i: int| 0 <= i < collapse_pairs(s, ch).len() ==> s.contains(#[trigger] collapse_pairs(s, ch)[i]),
        (forall|i: int| 0 <= i < s.len() ==> #[trigger] s[i] != ch) ==> collapse_pairs(s, ch) == s,
    decreases s.len(),
{
    if s.len() > 0 {
        let k: int = if s.len() >= 2 && s[0] == ch && s[1] == ch { 2 } else { 1 };
        let rest = s.skip(k);
        lemma_collapse_pairs(rest, ch);
        let r = collapse_pairs(s, ch);
        let rr = collapse_pairs(rest, ch);
        assert(r == seq![s[0]] + rr);
        assert forall|i: int| 0 <= i < r.len() implies s.contains(#[trigger] r[i]) by {
            if i == 0 {
                assert(s[0] == r[0]);
            } else {
                assert(r[i] == rr[i - 1]);
                let j = choose|j: int| 0 <= j < rest.len() && rest[j] == rr[i - 1];
                assert(s[j + k] == rest[j]);
            }
        }
        if forall|i: int| 0 <= i < s.len() ==> #[trigger] s[i] != ch {
            assert(forall|i: int| 0 <= i < rest.len() ==> #[trigger] rest[i] != ch) by {
                assert forall|i: int| 0 <= i < rest.len() implies #[trigger] rest[i] != ch by {
                    assert(rest[i] == s[i + k]);
                }
            }
            assert(seq![s[0]] + rest =~= s);
        }
    }
}

/// Sanitizing a text for a column name with a character `ch` that is no ASCII letter or digit
/// leaves a text of ASCII letters and digits as it is; every character of what it gives is an ASCII
/// letter or digit or `ch`, and it is no longer than the text.
#[verifier::spinoff_prover]
pub proof fn law_sanitized_names(s: Seq<char>, ch: char)
    requires
        !spec_is_ascii_alphanumeric(ch),
    ensures
        (forall|i: int| 0 <= i < s.len() ==> spec_is_ascii_alphanumeric(#[trigger] s[i])) ==> sanitized(s, ch) == s,
        forall|i: int| 0 <= i < sanitized(s, ch).len() ==>
            spec_is_ascii_alphanumeric(#[trigger] sanitized(s, ch)[i]) || sanitized(s, ch)[i] == ch,
        sanitized(s, ch).len() <= s.len(),
{
    let m = s.map_values(|c: char| sanitized_char(c, ch));
    lemma_collapse_pairs(m, ch);
    assert forall|i: int| 0 <= i < sanitized(s, ch).len() implies
        spec_is_ascii_alphanumeric(#[trigger] sanitized(s, ch)[i]) || sanitized(s, ch)[i] == ch by {
        let j = choose|j: int| 0 <= j < m.len() && m[j] == sanitized(s, ch)[i];
        assert(m[j] == sanitized_char(s[j], ch));
    }
    if forall|i: int| 0 <= i < s.len() ==> spec_is_ascii_alphanumeric(#[trigger] s[i]) {
        assert forall|i: int| 0 <= i < m.len() implies #[trigger] m[i] != ch by {
            assert(m[i] == s[i]);
        }
        assert(m =~= s);
    }
}

/// The value functions on integers: `safe_divide` of a non-negative integer by a positive one is
/// their quotient, and by zero the empty value; integers are greater or less than one another as
/// numbers, so `max` and `min` of two integers pick the greater and the lesser.
#[verifier::spinoff_prover]
pub proof fn law_value_functions_on_integers<F: EvalexprFloat>(x: i64, y: i64)
    ensures
        x >= 0 && y > 0 ==> safe_divide_outcome(VModel::<F>::Int(x as int), VModel::Int(y as int))
            == Outcome::<F>::Exact(VModel::Int((x as int) / (y as int))),
        safe_divide_outcome(VModel::<F>::Int(x as int), VModel::Int(0)) == Outcome::<F>::Exact(VModel::Empty),
        spec_greater(VModel::<F>::Int(x as int), VModel::Int(y as int)) == Some(x > y),
        spec_less(VModel::<F>::Int(x as int), VModel::Int(y as int)) == Some(x < y),
{
    if x >= 0 && y > 0 {
        let q: int = (x as int) / (y as int);
        assert(0 <= q <= x && (x == 0 ==> q == 0)) by (nonlinear_arith)
            requires x >= 0, y > 0, q == (x as int) / (y as int);
        assert(x.checked_div(y) == Some(q as i64));
    }
}

/// A string literal that is not closed, or that holds a backslash before anything but a quote or a
/// backslash, is refused: after the escaped text `t`, the end of the text is an `UnmatchedDoubleQuote`, a
/// backslash at the end an `IllegalEscapeSequence` of the backslash, and a backslash before any
/// other character `c` an `IllegalEscapeSequence` of both.
#[verifier::spinoff_prover]
pub proof fn law_string_literal_errors<F: EvalexprFloat>(t: Seq<char>, c: char)
    ensures
        spec_tokenize::<F>(seq!['"'] + escaped(t)) == Err::<Seq<TModel<F>>, EModel<F>>(EModel::UnmatchedDoubleQuote),
        spec_tokenize::<F>(seq!['"'] + escaped(t) + seq!['\\'])
            == Err::<Seq<TModel<F>>, EModel<F>>(EModel::IllegalEscapeSequence(seq!['\\'])),
        !(c == '"' || c == '\\') ==> spec_tokenize::<F>(seq!['"'] + escaped(t) + seq!['\\', c])
            == Err::<Seq<TModel<F>>, EModel<F>>(EModel::IllegalEscapeSequence(seq!['\\', c])),
{
    let e = escaped(t);
    let n: int = e.len() as int;
    let s1 = seq!['"'] + e;
    assert(s1.subrange(1, 1 + n) =~= e);
    lemma_string_literal_reads_escaped::<F>(s1, 1, t, Seq::empty());
    assert(s1[0] == '"');
    let s2 = seq!['"'] + e + seq!['\\'];
    assert(s2.subrange(1, 1 + n) =~= e);
    lemma_string_literal_reads_escaped::<F>(s2, 1, t, Seq::empty());
    assert(s2[0] == '"');
    assert(s2[1 + n] == '\\');
    let s3 = seq!['"'] + e + seq!['\\', c];
    assert(s3.subrange(1, 1 + n) =~= e);
    lemma_string_literal_reads_escaped::<F>(s3, 1, t, Seq::empty());
    assert(s3[0] == '"');
    assert(s3[1 + n] == '\\');
    assert(s3[2 + n] == c);
}

} // verus!
