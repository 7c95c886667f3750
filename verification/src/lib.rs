use vstd::prelude::*;


pub mod numeric;
pub mod arithmetic;
pub mod bucket_functions;
pub mod builtin;
pub mod builtin_laws;
pub mod context;
pub mod columns;
pub mod comparison;
pub mod cow;
pub mod dates;
pub mod date_utils;
pub mod operator;
pub mod parse_laws;
pub mod error;
pub mod error_display;
pub mod expression;
pub mod expression_functions;
pub mod ffi;
pub mod interface;
pub mod is_null;
pub mod laws;
pub mod literal;
pub mod math_functions;
pub mod report;
pub mod row_functions;
pub mod templates;
pub mod text;
pub mod token;
pub mod token_laws;
pub mod tree;
pub mod tree_display;
pub mod tree_iter;
pub mod value;

pub use interface::{build_operator_tree, eval_with_configuration};

verus! {

/// Evaluate the given expression string, in a configuration without variables and functions of
/// its own, in which the builtin functions are available.
pub fn eval<F: numeric::EvalexprFloat>(string: &str) -> (r: error::EvalexprResult<value::Value<F>, F>)
    ensures
        interface::evaluates_to(string@, tree::ctx_view::<F, context::EmptyConfiguration>(context::EmptyConfiguration), r),
{
    interface::eval_with_configuration(string, &context::EmptyConfiguration)
}

} // verus!
