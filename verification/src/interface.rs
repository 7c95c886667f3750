//! The functions that evaluate expression strings.
use vstd::prelude::*;
use crate::numeric::EvalexprFloat;
use crate::value::{Value, IntType};
use crate::error::{EvalexprResult, EModel, RModel, result_model};
use crate::laws::{law_typed_evaluation_converts, law_typed_evaluation_converts_mut};
use crate::context::{Context, ContextWithMutableVariables, EmptyContext};
use crate::token::{Token, tokenize, spec_tokenize, tokens_model};
use crate::tree::{
    Node, NodeModel, CtxView, ctx_view, shape_admits, spec_shape_model, tokens_to_operator_tree, spec_parse, spec_eval_model, lemma_eval_model,
    spec_eval_model_mut, lemma_eval_model_mut,
    into_string, into_int, into_float, into_number, into_boolean, into_tuple, into_empty,
    string_result, int_result, float_result, number_result, boolean_result, tuple_result, empty_result,
};

verus! {

/// Whether `r` is what becomes of the text `text` when it is split into tokens, the tokens are
/// built into a tree and `outcome` holds of the tree: the tokenizer's error, the parser's error,
/// or what `outcome` says. The tokens are known by their models (a float literal by the float that
/// the float type's `from_float_literal` makes of its text).
pub open spec fn text_outcome<F: EvalexprFloat, T>(text: Seq<char>, r: EvalexprResult<T, F>, outcome: spec_fn(NodeModel<F>) -> bool) -> bool {
    text_outcome_or(text, r, outcome, true)
}

/// As `text_outcome`, where `on_error` holds too when the text cannot be split into tokens or
/// built into a tree.
pub open spec fn text_outcome_or<F: EvalexprFloat, T>(text: Seq<char>, r: EvalexprResult<T, F>, outcome: spec_fn(NodeModel<F>) -> bool, on_error: bool) -> bool {
    match spec_tokenize::<F>(text) {
        Err(e) => r matches Err(x) && x@ == e && on_error,
        Ok(tm) => exists|toks: Seq<Token<F>>| #[trigger] tokens_model(toks) == tm && match spec_parse(toks) {
            Err(e) => r matches Err(x) && x@ == e && on_error,
            Ok(m) => outcome(m),
        },
    }
}

/// Whether `r` is what evaluating the text `text` in a context that `ctx` describes gives: the
/// tokenizer's or the parser's error, or the value or error of the tree (where that does not rest
/// on a function of the context).
pub open spec fn evaluates_to<F: EvalexprFloat>(text: Seq<char>, ctx: CtxView<F>, r: EvalexprResult<Value<F>, F>) -> bool {
    text_outcome(text, r, |m: NodeModel<F>| shape_admits(spec_shape_model(m, ctx), result_model(r)))
}

/// Splits the text into tokens and builds their tree; also hands out the tokens.
fn parse_text<F: EvalexprFloat>(string: &str) -> (r: (EvalexprResult<Node<F>, F>, Ghost<Seq<Token<F>>>))
    ensures
        match spec_tokenize::<F>(string@) {
            Err(e) => r.0 matches Err(x) && x@ == e,
            Ok(tm) => tokens_model(r.1@) == tm && match spec_parse(r.1@) {
                Ok(m) => r.0 matches Ok(n) && n.model() == m,
                Err(e) => r.0 matches Err(x) && x@ == e,
            },
        },
{
    match tokenize(string) {
        Ok(tokens) => {
            let ghost toks = tokens@;
            (tokens_to_operator_tree(tokens), Ghost(toks))
        },
        Err(e) => (Err(e), Ghost(Seq::empty())),
    }
}

/// Build the operator tree for the given expression string.
///
/// The operator tree can later on be evaluated directly.
/// This saves runtime if a single expression should be evaluated multiple times, for example with differing configurations.
pub fn build_operator_tree<F: EvalexprFloat>(string: &str) -> (r: EvalexprResult<Node<F>, F>)
    ensures
        text_outcome(string@, r, |m: NodeModel<F>| r matches Ok(n) && n.model() == m),
{
    let (tree, Ghost(toks)) = parse_text(string);
    tree
}

/// Evaluate the given expression string with the given configuration.
pub fn eval_with_configuration<F: EvalexprFloat, C: Context<F>>(string: &str, configuration: &C) -> (r: EvalexprResult<Value<F>, F>)
    ensures
        evaluates_to(string@, ctx_view(*configuration), r),
{
    let (tree, Ghost(toks)) = parse_text(string);
    match tree {
        Ok(tree) => {
            proof { lemma_eval_model(tree, ctx_view(*configuration)); }
            tree.eval_with_context(configuration)
        },
        Err(e) => Err(e),
    }
}

/// Evaluate the given expression string, in a context without variables and functions in which
/// the builtin functions are disabled.
pub fn eval<F: EvalexprFloat>(string: &str) -> (r: EvalexprResult<Value<F>, F>)
    ensures
        evaluates_to(string@, ctx_view::<F, EmptyContext>(EmptyContext), r),
{
    eval_with_configuration(string, &EmptyContext)
}

/// Evaluate the given expression string into a string with the given configuration.
pub fn eval_string_with_configuration<F: EvalexprFloat, C: Context<F>>(string: &str, configuration: &C) -> (r: EvalexprResult<String, F>)
    ensures
        text_outcome(string@, r, |m: NodeModel<F>| exists|v: RModel<F>| #[trigger] shape_admits(spec_shape_model(m, ctx_view(*configuration)), v) && string_result(v, r)),
{
    let value = eval_with_configuration(string, configuration);
    let ghost evaluated = value;
    let r = into_string(value);
    proof {
        let conv = |m: RModel<F>, t: EvalexprResult<String, F>| string_result(m, t);
        law_typed_evaluation_converts(string@, ctx_view(*configuration), evaluated, r, conv);
        assert((|m: NodeModel<F>| exists|v: RModel<F>| #[trigger] shape_admits(spec_shape_model(m, ctx_view(*configuration)), v) && conv(v, r))
            =~= (|m: NodeModel<F>| exists|v: RModel<F>| #[trigger] shape_admits(spec_shape_model(m, ctx_view(*configuration)), v) && string_result(v, r)));
    }
    r
}

/// Evaluate the given expression string into an integer with the given configuration.
pub fn eval_int_with_configuration<F: EvalexprFloat, C: Context<F>>(string: &str, configuration: &C) -> (r: EvalexprResult<IntType, F>)
    ensures
        text_outcome(string@, r, |m: NodeModel<F>| exists|v: RModel<F>| #[trigger] shape_admits(spec_shape_model(m, ctx_view(*configuration)), v) && int_result(v, r)),
{
    let value = eval_with_configuration(string, configuration);
    let ghost evaluated = value;
    let r = into_int(value);
    proof {
        let conv = |m: RModel<F>, t: EvalexprResult<IntType, F>| int_result(m, t);
        law_typed_evaluation_converts(string@, ctx_view(*configuration), evaluated, r, conv);
        assert((|m: NodeModel<F>| exists|v: RModel<F>| #[trigger] shape_admits(spec_shape_model(m, ctx_view(*configuration)), v) && conv(v, r))
            =~= (|m: NodeModel<F>| exists|v: RModel<F>| #[trigger] shape_admits(spec_shape_model(m, ctx_view(*configuration)), v) && int_result(v, r)));
    }
    r
}

/// Evaluate the given expression string into a float with the given configuration.
pub fn eval_float_with_configuration<F: EvalexprFloat, C: Context<F>>(string: &str, configuration: &C) -> (r: EvalexprResult<F, F>)
    ensures
        text_outcome(string@, r, |m: NodeModel<F>| exists|v: RModel<F>| #[trigger] shape_admits(spec_shape_model(m, ctx_view(*configuration)), v) && float_result(v, r)),
{
    let value = eval_with_configuration(string, configuration);
    let ghost evaluated = value;
    let r = into_float(value);
    proof {
        let conv = |m: RModel<F>, t: EvalexprResult<F, F>| float_result(m, t);
        law_typed_evaluation_converts(string@, ctx_view(*configuration), evaluated, r, conv);
        assert((|m: NodeModel<F>| exists|v: RModel<F>| #[trigger] shape_admits(spec_shape_model(m, ctx_view(*configuration)), v) && conv(v, r))
            =~= (|m: NodeModel<F>| exists|v: RModel<F>| #[trigger] shape_admits(spec_shape_model(m, ctx_view(*configuration)), v) && float_result(v, r)));
    }
    r
}

/// Evaluate the given expression string into a boolean with the given configuration.
pub fn eval_boolean_with_configuration<F: EvalexprFloat, C: Context<F>>(string: &str, configuration: &C) -> (r: EvalexprResult<bool, F>)
    ensures
        text_outcome(string@, r, |m: NodeModel<F>| exists|v: RModel<F>| #[trigger] shape_admits(spec_shape_model(m, ctx_view(*configuration)), v) && boolean_result(v, r)),
{
    let value = eval_with_configuration(string, configuration);
    let ghost evaluated = value;
    let r = into_boolean(value);
    proof {
        let conv = |m: RModel<F>, t: EvalexprResult<bool, F>| boolean_result(m, t);
        law_typed_evaluation_converts(string@, ctx_view(*configuration), evaluated, r, conv);
        assert((|m: NodeModel<F>| exists|v: RModel<F>| #[trigger] shape_admits(spec_shape_model(m, ctx_view(*configuration)), v) && conv(v, r))
            =~= (|m: NodeModel<F>| exists|v: RModel<F>| #[trigger] shape_admits(spec_shape_model(m, ctx_view(*configuration)), v) && boolean_result(v, r)));
    }
    r
}

/// Evaluate the given expression string into a tuple with the given configuration.
pub fn eval_tuple_with_configuration<F: EvalexprFloat, C: Context<F>>(string: &str, configuration: &C) -> (r: EvalexprResult<Vec<Value<F>>, F>)
    ensures
        text_outcome(string@, r, |m: NodeModel<F>| exists|v: RModel<F>| #[trigger] shape_admits(spec_shape_model(m, ctx_view(*configuration)), v) && tuple_result(v, r)),
{
    let value = eval_with_configuration(string, configuration);
    let ghost evaluated = value;
    let r = into_tuple(value);
    proof {
        let conv = |m: RModel<F>, t: EvalexprResult<Vec<Value<F>>, F>| tuple_result(m, t);
        law_typed_evaluation_converts(string@, ctx_view(*configuration), evaluated, r, conv);
        assert((|m: NodeModel<F>| exists|v: RModel<F>| #[trigger] shape_admits(spec_shape_model(m, ctx_view(*configuration)), v) && conv(v, r))
            =~= (|m: NodeModel<F>| exists|v: RModel<F>| #[trigger] shape_admits(spec_shape_model(m, ctx_view(*configuration)), v) && tuple_result(v, r)));
    }
    r
}

/// Evaluate the given expression string into a string.
pub fn eval_string<F: EvalexprFloat>(string: &str) -> (r: EvalexprResult<String, F>)
    ensures
        text_outcome(string@, r, |m: NodeModel<F>| exists|v: RModel<F>| #[trigger] shape_admits(spec_shape_model(m, ctx_view::<F, EmptyContext>(EmptyContext)), v) && string_result(v, r)),
{
    eval_string_with_configuration(string, &EmptyContext)
}

/// Evaluate the given expression string into an integer.
pub fn eval_int<F: EvalexprFloat>(string: &str) -> (r: EvalexprResult<IntType, F>)
    ensures
        text_outcome(string@, r, |m: NodeModel<F>| exists|v: RModel<F>| #[trigger] shape_admits(spec_shape_model(m, ctx_view::<F, EmptyContext>(EmptyContext)), v) && int_result(v, r)),
{
    eval_int_with_configuration(string, &EmptyContext)
}

/// Evaluate the given expression string into a float.
pub fn eval_float<F: EvalexprFloat>(string: &str) -> (r: EvalexprResult<F, F>)
    ensures
        text_outcome(string@, r, |m: NodeModel<F>| exists|v: RModel<F>| #[trigger] shape_admits(spec_shape_model(m, ctx_view::<F, EmptyContext>(EmptyContext)), v) && float_result(v, r)),
{
    eval_float_with_configuration(string, &EmptyContext)
}

/// Evaluate the given expression string into a boolean.
pub fn eval_boolean<F: EvalexprFloat>(string: &str) -> (r: EvalexprResult<bool, F>)
    ensures
        text_outcome(string@, r, |m: NodeModel<F>| exists|v: RModel<F>| #[trigger] shape_admits(spec_shape_model(m, ctx_view::<F, EmptyContext>(EmptyContext)), v) && boolean_result(v, r)),
{
    eval_boolean_with_configuration(string, &EmptyContext)
}

/// Evaluate the given expression string into a tuple.
pub fn eval_tuple<F: EvalexprFloat>(string: &str) -> (r: EvalexprResult<Vec<Value<F>>, F>)
    ensures
        text_outcome(string@, r, |m: NodeModel<F>| exists|v: RModel<F>| #[trigger] shape_admits(spec_shape_model(m, ctx_view::<F, EmptyContext>(EmptyContext)), v) && tuple_result(v, r)),
{
    eval_tuple_with_configuration(string, &EmptyContext)
}

/// Evaluate the given expression string with the given context.
pub fn eval_with_context<F: EvalexprFloat, C: Context<F>>(string: &str, context: &C) -> (r: EvalexprResult<Value<F>, F>)
    ensures
        text_outcome(string@, r, |m: NodeModel<F>| shape_admits(spec_shape_model(m, ctx_view(*context)), result_model(r))),
{
    let (tree, Ghost(toks)) = parse_text(string);
    match tree {
        Ok(tree) => {
            proof { lemma_eval_model(tree, ctx_view(*context)); }
            tree.eval_with_context(context)
        },
        Err(e) => Err(e),
    }
}

/// Evaluate the given expression string with the given mutable context: assignments change
/// its variables in the order of evaluation; a text that cannot be parsed leaves it unchanged.
pub fn eval_with_context_mut<F: EvalexprFloat, C: ContextWithMutableVariables<F>>(string: &str, context: &mut C) -> (r: EvalexprResult<Value<F>, F>)
    ensures
        text_outcome_or(string@, r, |m: NodeModel<F>| spec_eval_model_mut::<F, C>(m, old(context).spec_variables(),
            old(context).spec_builtins_disabled(), old(context).spec_has_functions()) matches Some((v, vars))
            ==> result_model(r) == v && final(context).spec_variables() == vars,
            final(context).spec_variables() == old(context).spec_variables()),
        final(context).spec_builtins_disabled() == old(context).spec_builtins_disabled(),
        final(context).spec_has_functions() == old(context).spec_has_functions(),
{
    let (tree, Ghost(toks)) = parse_text(string);
    match tree {
        Ok(tree) => {
            proof {
                lemma_eval_model_mut::<F, C>(tree, context.spec_variables(), context.spec_builtins_disabled(), context.spec_has_functions());
            }
            tree.eval_with_context_mut(context)
        },
        Err(e) => Err(e),
    }
}

/// Evaluate the given expression string into a string with the given context.
pub fn eval_string_with_context<F: EvalexprFloat, C: Context<F>>(string: &str, context: &C) -> (r: EvalexprResult<String, F>)
    ensures
        text_outcome(string@, r, |m: NodeModel<F>| exists|v: RModel<F>| #[trigger] shape_admits(spec_shape_model(m, ctx_view(*context)), v) && string_result(v, r)),
{
    let value = eval_with_context(string, context);
    let ghost evaluated = value;
    let r = into_string(value);
    proof {
        let conv = |m: RModel<F>, t: EvalexprResult<String, F>| string_result(m, t);
        law_typed_evaluation_converts(string@, ctx_view(*context), evaluated, r, conv);
        assert((|m: NodeModel<F>| exists|v: RModel<F>| #[trigger] shape_admits(spec_shape_model(m, ctx_view(*context)), v) && conv(v, r))
            =~= (|m: NodeModel<F>| exists|v: RModel<F>| #[trigger] shape_admits(spec_shape_model(m, ctx_view(*context)), v) && string_result(v, r)));
    }
    r
}

/// Evaluate the given expression string into a string with the given mutable context: assignments change
/// its variables in the order of evaluation; a text that cannot be parsed leaves it unchanged.
pub fn eval_string_with_context_mut<F: EvalexprFloat, C: ContextWithMutableVariables<F>>(string: &str, context: &mut C) -> (r: EvalexprResult<String, F>)
    ensures
        text_outcome_or(string@, r, |m: NodeModel<F>| spec_eval_model_mut::<F, C>(m, old(context).spec_variables(),
            old(context).spec_builtins_disabled(), old(context).spec_has_functions()) matches Some((v, vars))
            ==> string_result(v, r) && final(context).spec_variables() == vars,
            final(context).spec_variables() == old(context).spec_variables()),
        final(context).spec_builtins_disabled() == old(context).spec_builtins_disabled(),
        final(context).spec_has_functions() == old(context).spec_has_functions(),
{
    let ghost vars = context.spec_variables();
    let ghost builtins_disabled = context.spec_builtins_disabled();
    let ghost has_functions = context.spec_has_functions();
    let value = eval_with_context_mut(string, context);
    let ghost evaluated = value;
    let r = into_string(value);
    proof {
        let conv = |m: RModel<F>, t: EvalexprResult<String, F>| string_result(m, t);
        law_typed_evaluation_converts_mut::<F, C, String>(string@, vars, builtins_disabled, has_functions,
            context.spec_variables(), evaluated, r, conv);
        assert((|m: NodeModel<F>| spec_eval_model_mut::<F, C>(m, vars, builtins_disabled, has_functions)
            matches Some((v, w)) ==> conv(v, r) && context.spec_variables() == w)
            =~= (|m: NodeModel<F>| spec_eval_model_mut::<F, C>(m, vars, builtins_disabled, has_functions)
            matches Some((v, w)) ==> string_result(v, r) && context.spec_variables() == w));
    }
    r
}

/// Evaluate the given expression string into an integer with the given context.
pub fn eval_int_with_context<F: EvalexprFloat, C: Context<F>>(string: &str, context: &C) -> (r: EvalexprResult<IntType, F>)
    ensures
        text_outcome(string@, r, |m: NodeModel<F>| exists|v: RModel<F>| #[trigger] shape_admits(spec_shape_model(m, ctx_view(*context)), v) && int_result(v, r)),
{
    let value = eval_with_context(string, context);
    let ghost evaluated = value;
    let r = into_int(value);
    proof {
        let conv = |m: RModel<F>, t: EvalexprResult<IntType, F>| int_result(m, t);
        law_typed_evaluation_converts(string@, ctx_view(*context), evaluated, r, conv);
        assert((|m: NodeModel<F>| exists|v: RModel<F>| #[trigger] shape_admits(spec_shape_model(m, ctx_view(*context)), v) && conv(v, r))
            =~= (|m: NodeModel<F>| exists|v: RModel<F>| #[trigger] shape_admits(spec_shape_model(m, ctx_view(*context)), v) && int_result(v, r)));
    }
    r
}

/// Evaluate the given expression string into an integer with the given mutable context: assignments change
/// its variables in the order of evaluation; a text that cannot be parsed leaves it unchanged.
pub fn eval_int_with_context_mut<F: EvalexprFloat, C: ContextWithMutableVariables<F>>(string: &str, context: &mut C) -> (r: EvalexprResult<IntType, F>)
    ensures
        text_outcome_or(string@, r, |m: NodeModel<F>| spec_eval_model_mut::<F, C>(m, old(context).spec_variables(),
            old(context).spec_builtins_disabled(), old(context).spec_has_functions()) matches Some((v, vars))
            ==> int_result(v, r) && final(context).spec_variables() == vars,
            final(context).spec_variables() == old(context).spec_variables()),
        final(context).spec_builtins_disabled() == old(context).spec_builtins_disabled(),
        final(context).spec_has_functions() == old(context).spec_has_functions(),
{
    let ghost vars = context.spec_variables();
    let ghost builtins_disabled = context.spec_builtins_disabled();
    let ghost has_functions = context.spec_has_functions();
    let value = eval_with_context_mut(string, context);
    let ghost evaluated = value;
    let r = into_int(value);
    proof {
        let conv = |m: RModel<F>, t: EvalexprResult<IntType, F>| int_result(m, t);
        law_typed_evaluation_converts_mut::<F, C, IntType>(string@, vars, builtins_disabled, has_functions,
            context.spec_variables(), evaluated, r, conv);
        assert((|m: NodeModel<F>| spec_eval_model_mut::<F, C>(m, vars, builtins_disabled, has_functions)
            matches Some((v, w)) ==> conv(v, r) && context.spec_variables() == w)
            =~= (|m: NodeModel<F>| spec_eval_model_mut::<F, C>(m, vars, builtins_disabled, has_functions)
            matches Some((v, w)) ==> int_result(v, r) && context.spec_variables() == w));
    }
    r
}

/// Evaluate the given expression string into a float with the given context.
pub fn eval_float_with_context<F: EvalexprFloat, C: Context<F>>(string: &str, context: &C) -> (r: EvalexprResult<F, F>)
    ensures
        text_outcome(string@, r, |m: NodeModel<F>| exists|v: RModel<F>| #[trigger] shape_admits(spec_shape_model(m, ctx_view(*context)), v) && float_result(v, r)),
{
    let value = eval_with_context(string, context);
    let ghost evaluated = value;
    let r = into_float(value);
    proof {
        let conv = |m: RModel<F>, t: EvalexprResult<F, F>| float_result(m, t);
        law_typed_evaluation_converts(string@, ctx_view(*context), evaluated, r, conv);
        assert((|m: NodeModel<F>| exists|v: RModel<F>| #[trigger] shape_admits(spec_shape_model(m, ctx_view(*context)), v) && conv(v, r))
            =~= (|m: NodeModel<F>| exists|v: RModel<F>| #[trigger] shape_admits(spec_shape_model(m, ctx_view(*context)), v) && float_result(v, r)));
    }
    r
}

/// Evaluate the given expression string into a float with the given mutable context: assignments change
/// its variables in the order of evaluation; a text that cannot be parsed leaves it unchanged.
pub fn eval_float_with_context_mut<F: EvalexprFloat, C: ContextWithMutableVariables<F>>(string: &str, context: &mut C) -> (r: EvalexprResult<F, F>)
    ensures
        text_outcome_or(string@, r, |m: NodeModel<F>| spec_eval_model_mut::<F, C>(m, old(context).spec_variables(),
            old(context).spec_builtins_disabled(), old(context).spec_has_functions()) matches Some((v, vars))
            ==> float_result(v, r) && final(context).spec_variables() == vars,
            final(context).spec_variables() == old(context).spec_variables()),
        final(context).spec_builtins_disabled() == old(context).spec_builtins_disabled(),
        final(context).spec_has_functions() == old(context).spec_has_functions(),
{
    let ghost vars = context.spec_variables();
    let ghost builtins_disabled = context.spec_builtins_disabled();
    let ghost has_functions = context.spec_has_functions();
    let value = eval_with_context_mut(string, context);
    let ghost evaluated = value;
    let r = into_float(value);
    proof {
        let conv = |m: RModel<F>, t: EvalexprResult<F, F>| float_result(m, t);
        law_typed_evaluation_converts_mut::<F, C, F>(string@, vars, builtins_disabled, has_functions,
            context.spec_variables(), evaluated, r, conv);
        assert((|m: NodeModel<F>| spec_eval_model_mut::<F, C>(m, vars, builtins_disabled, has_functions)
            matches Some((v, w)) ==> conv(v, r) && context.spec_variables() == w)
            =~= (|m: NodeModel<F>| spec_eval_model_mut::<F, C>(m, vars, builtins_disabled, has_functions)
            matches Some((v, w)) ==> float_result(v, r) && context.spec_variables() == w));
    }
    r
}

/// Evaluate the given expression string into a number with the given context.
pub fn eval_number_with_context<F: EvalexprFloat, C: Context<F>>(string: &str, context: &C) -> (r: EvalexprResult<F, F>)
    ensures
        text_outcome(string@, r, |m: NodeModel<F>| exists|v: RModel<F>| #[trigger] shape_admits(spec_shape_model(m, ctx_view(*context)), v) && number_result(v, r)),
{
    let value = eval_with_context(string, context);
    let ghost evaluated = value;
    let r = into_number(value);
    proof {
        let conv = |m: RModel<F>, t: EvalexprResult<F, F>| number_result(m, t);
        law_typed_evaluation_converts(string@, ctx_view(*context), evaluated, r, conv);
        assert((|m: NodeModel<F>| exists|v: RModel<F>| #[trigger] shape_admits(spec_shape_model(m, ctx_view(*context)), v) && conv(v, r))
            =~= (|m: NodeModel<F>| exists|v: RModel<F>| #[trigger] shape_admits(spec_shape_model(m, ctx_view(*context)), v) && number_result(v, r)));
    }
    r
}

/// Evaluate the given expression string into a number with the given mutable context: assignments change
/// its variables in the order of evaluation; a text that cannot be parsed leaves it unchanged.
pub fn eval_number_with_context_mut<F: EvalexprFloat, C: ContextWithMutableVariables<F>>(string: &str, context: &mut C) -> (r: EvalexprResult<F, F>)
    ensures
        text_outcome_or(string@, r, |m: NodeModel<F>| spec_eval_model_mut::<F, C>(m, old(context).spec_variables(),
            old(context).spec_builtins_disabled(), old(context).spec_has_functions()) matches Some((v, vars))
            ==> number_result(v, r) && final(context).spec_variables() == vars,
            final(context).spec_variables() == old(context).spec_variables()),
        final(context).spec_builtins_disabled() == old(context).spec_builtins_disabled(),
        final(context).spec_has_functions() == old(context).spec_has_functions(),
{
    let ghost vars = context.spec_variables();
    let ghost builtins_disabled = context.spec_builtins_disabled();
    let ghost has_functions = context.spec_has_functions();
    let value = eval_with_context_mut(string, context);
    let ghost evaluated = value;
    let r = into_number(value);
    proof {
        let conv = |m: RModel<F>, t: EvalexprResult<F, F>| number_result(m, t);
        law_typed_evaluation_converts_mut::<F, C, F>(string@, vars, builtins_disabled, has_functions,
            context.spec_variables(), evaluated, r, conv);
        assert((|m: NodeModel<F>| spec_eval_model_mut::<F, C>(m, vars, builtins_disabled, has_functions)
            matches Some((v, w)) ==> conv(v, r) && context.spec_variables() == w)
            =~= (|m: NodeModel<F>| spec_eval_model_mut::<F, C>(m, vars, builtins_disabled, has_functions)
            matches Some((v, w)) ==> number_result(v, r) && context.spec_variables() == w));
    }
    r
}

/// Evaluate the given expression string into a boolean with the given context.
pub fn eval_boolean_with_context<F: EvalexprFloat, C: Context<F>>(string: &str, context: &C) -> (r: EvalexprResult<bool, F>)
    ensures
        text_outcome(string@, r, |m: NodeModel<F>| exists|v: RModel<F>| #[trigger] shape_admits(spec_shape_model(m, ctx_view(*context)), v) && boolean_result(v, r)),
{
    let value = eval_with_context(string, context);
    let ghost evaluated = value;
    let r = into_boolean(value);
    proof {
        let conv = |m: RModel<F>, t: EvalexprResult<bool, F>| boolean_result(m, t);
        law_typed_evaluation_converts(string@, ctx_view(*context), evaluated, r, conv);
        assert((|m: NodeModel<F>| exists|v: RModel<F>| #[trigger] shape_admits(spec_shape_model(m, ctx_view(*context)), v) && conv(v, r))
            =~= (|m: NodeModel<F>| exists|v: RModel<F>| #[trigger] shape_admits(spec_shape_model(m, ctx_view(*context)), v) && boolean_result(v, r)));
    }
    r
}

/// Evaluate the given expression string into a boolean with the given mutable context: assignments change
/// its variables in the order of evaluation; a text that cannot be parsed leaves it unchanged.
pub fn eval_boolean_with_context_mut<F: EvalexprFloat, C: ContextWithMutableVariables<F>>(string: &str, context: &mut C) -> (r: EvalexprResult<bool, F>)
    ensures
        text_outcome_or(string@, r, |m: NodeModel<F>| spec_eval_model_mut::<F, C>(m, old(context).spec_variables(),
            old(context).spec_builtins_disabled(), old(context).spec_has_functions()) matches Some((v, vars))
            ==> boolean_result(v, r) && final(context).spec_variables() == vars,
            final(context).spec_variables() == old(context).spec_variables()),
        final(context).spec_builtins_disabled() == old(context).spec_builtins_disabled(),
        final(context).spec_has_functions() == old(context).spec_has_functions(),
{
    let ghost vars = context.spec_variables();
    let ghost builtins_disabled = context.spec_builtins_disabled();
    let ghost has_functions = context.spec_has_functions();
    let value = eval_with_context_mut(string, context);
    let ghost evaluated = value;
    let r = into_boolean(value);
    proof {
        let conv = |m: RModel<F>, t: EvalexprResult<bool, F>| boolean_result(m, t);
        law_typed_evaluation_converts_mut::<F, C, bool>(string@, vars, builtins_disabled, has_functions,
            context.spec_variables(), evaluated, r, conv);
        assert((|m: NodeModel<F>| spec_eval_model_mut::<F, C>(m, vars, builtins_disabled, has_functions)
            matches Some((v, w)) ==> conv(v, r) && context.spec_variables() == w)
            =~= (|m: NodeModel<F>| spec_eval_model_mut::<F, C>(m, vars, builtins_disabled, has_functions)
            matches Some((v, w)) ==> boolean_result(v, r) && context.spec_variables() == w));
    }
    r
}

/// Evaluate the given expression string into a tuple with the given context.
pub fn eval_tuple_with_context<F: EvalexprFloat, C: Context<F>>(string: &str, context: &C) -> (r: EvalexprResult<Vec<Value<F>>, F>)
    ensures
        text_outcome(string@, r, |m: NodeModel<F>| exists|v: RModel<F>| #[trigger] shape_admits(spec_shape_model(m, ctx_view(*context)), v) && tuple_result(v, r)),
{
    let value = eval_with_context(string, context);
    let ghost evaluated = value;
    let r = into_tuple(value);
    proof {
        let conv = |m: RModel<F>, t: EvalexprResult<Vec<Value<F>>, F>| tuple_result(m, t);
        law_typed_evaluation_converts(string@, ctx_view(*context), evaluated, r, conv);
        assert((|m: NodeModel<F>| exists|v: RModel<F>| #[trigger] shape_admits(spec_shape_model(m, ctx_view(*context)), v) && conv(v, r))
            =~= (|m: NodeModel<F>| exists|v: RModel<F>| #[trigger] shape_admits(spec_shape_model(m, ctx_view(*context)), v) && tuple_result(v, r)));
    }
    r
}

/// Evaluate the given expression string into a tuple with the given mutable context: assignments change
/// its variables in the order of evaluation; a text that cannot be parsed leaves it unchanged.
pub fn eval_tuple_with_context_mut<F: EvalexprFloat, C: ContextWithMutableVariables<F>>(string: &str, context: &mut C) -> (r: EvalexprResult<Vec<Value<F>>, F>)
    ensures
        text_outcome_or(string@, r, |m: NodeModel<F>| spec_eval_model_mut::<F, C>(m, old(context).spec_variables(),
            old(context).spec_builtins_disabled(), old(context).spec_has_functions()) matches Some((v, vars))
            ==> tuple_result(v, r) && final(context).spec_variables() == vars,
            final(context).spec_variables() == old(context).spec_variables()),
        final(context).spec_builtins_disabled() == old(context).spec_builtins_disabled(),
        final(context).spec_has_functions() == old(context).spec_has_functions(),
{
    let ghost vars = context.spec_variables();
    let ghost builtins_disabled = context.spec_builtins_disabled();
    let ghost has_functions = context.spec_has_functions();
    let value = eval_with_context_mut(string, context);
    let ghost evaluated = value;
    let r = into_tuple(value);
    proof {
        let conv = |m: RModel<F>, t: EvalexprResult<Vec<Value<F>>, F>| tuple_result(m, t);
        law_typed_evaluation_converts_mut::<F, C, Vec<Value<F>>>(string@, vars, builtins_disabled, has_functions,
            context.spec_variables(), evaluated, r, conv);
        assert((|m: NodeModel<F>| spec_eval_model_mut::<F, C>(m, vars, builtins_disabled, has_functions)
            matches Some((v, w)) ==> conv(v, r) && context.spec_variables() == w)
            =~= (|m: NodeModel<F>| spec_eval_model_mut::<F, C>(m, vars, builtins_disabled, has_functions)
            matches Some((v, w)) ==> tuple_result(v, r) && context.spec_variables() == w));
    }
    r
}

/// Evaluate the given expression string into the empty value with the given context.
pub fn eval_empty_with_context<F: EvalexprFloat, C: Context<F>>(string: &str, context: &C) -> (r: EvalexprResult<(), F>)
    ensures
        text_outcome(string@, r, |m: NodeModel<F>| exists|v: RModel<F>| #[trigger] shape_admits(spec_shape_model(m, ctx_view(*context)), v) && empty_result(v, r)),
{
    let value = eval_with_context(string, context);
    let ghost evaluated = value;
    let r = into_empty(value);
    proof {
        let conv = |m: RModel<F>, t: EvalexprResult<(), F>| empty_result(m, t);
        law_typed_evaluation_converts(string@, ctx_view(*context), evaluated, r, conv);
        assert((|m: NodeModel<F>| exists|v: RModel<F>| #[trigger] shape_admits(spec_shape_model(m, ctx_view(*context)), v) && conv(v, r))
            =~= (|m: NodeModel<F>| exists|v: RModel<F>| #[trigger] shape_admits(spec_shape_model(m, ctx_view(*context)), v) && empty_result(v, r)));
    }
    r
}

/// Evaluate the given expression string into the empty value with the given mutable context: assignments change
/// its variables in the order of evaluation; a text that cannot be parsed leaves it unchanged.
pub fn eval_empty_with_context_mut<F: EvalexprFloat, C: ContextWithMutableVariables<F>>(string: &str, context: &mut C) -> (r: EvalexprResult<(), F>)
    ensures
        text_outcome_or(string@, r, |m: NodeModel<F>| spec_eval_model_mut::<F, C>(m, old(context).spec_variables(),
            old(context).spec_builtins_disabled(), old(context).spec_has_functions()) matches Some((v, vars))
            ==> empty_result(v, r) && final(context).spec_variables() == vars,
            final(context).spec_variables() == old(context).spec_variables()),
        final(context).spec_builtins_disabled() == old(context).spec_builtins_disabled(),
        final(context).spec_has_functions() == old(context).spec_has_functions(),
{
    let ghost vars = context.spec_variables();
    let ghost builtins_disabled = context.spec_builtins_disabled();
    let ghost has_functions = context.spec_has_functions();
    let value = eval_with_context_mut(string, context);
    let ghost evaluated = value;
    let r = into_empty(value);
    proof {
        let conv = |m: RModel<F>, t: EvalexprResult<(), F>| empty_result(m, t);
        law_typed_evaluation_converts_mut::<F, C, ()>(string@, vars, builtins_disabled, has_functions,
            context.spec_variables(), evaluated, r, conv);
        assert((|m: NodeModel<F>| spec_eval_model_mut::<F, C>(m, vars, builtins_disabled, has_functions)
            matches Some((v, w)) ==> conv(v, r) && context.spec_variables() == w)
            =~= (|m: NodeModel<F>| spec_eval_model_mut::<F, C>(m, vars, builtins_disabled, has_functions)
            matches Some((v, w)) ==> empty_result(v, r) && context.spec_variables() == w));
    }
    r
}

} // verus!
