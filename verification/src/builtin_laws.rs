//! Laws of the builtin functions: what each of them gives, stated over the float type's own
//! operations and over the integer operators.
use vstd::prelude::*;
use crate::numeric::EvalexprFloat;
use crate::value::{VModel, float_of};
use crate::error::EModel;
use crate::builtin::{spec_builtin, BuiltinOutcome, is_num, is_primitive, first_non_primitive, first_non_number, int_extreme, trimmed,
    trim_start_index, trim_end_index, byte_offset, starts_at_byte, lemma_byte_offset_injective};
use crate::text::spec_is_whitespace;
use crate::value::{has_float, seq_has_float};

verus! {

/// The rounding builtins of a number `x` (an integer taken as the float `from_int` gives): `floor`
/// gives the float type's floor of `x`, `round` its rounding, `ceil` its ceiling, each as a float;
/// on a value that is not a number each answers `ExpectedNumber`.
#[verifier::spinoff_prover]
pub proof fn law_rounding_builtins<F: EvalexprFloat>(x: VModel<F>)
    ensures
        is_num(x) ==> spec_builtin("floor"@, x) == BuiltinOutcome::Returns(Ok::<VModel<F>, EModel<F>>(VModel::Float(float_of(x).spec_floor()))),
        is_num(x) ==> spec_builtin("round"@, x) == BuiltinOutcome::Returns(Ok::<VModel<F>, EModel<F>>(VModel::Float(float_of(x).spec_round()))),
        is_num(x) ==> spec_builtin("ceil"@, x) == BuiltinOutcome::Returns(Ok::<VModel<F>, EModel<F>>(VModel::Float(float_of(x).spec_ceil()))),
        !is_num(x) ==> spec_builtin("floor"@, x) == BuiltinOutcome::Returns(Err::<VModel<F>, EModel<F>>(EModel::ExpectedNumber { actual: x })),
        !is_num(x) ==> spec_builtin("round"@, x) == BuiltinOutcome::Returns(Err::<VModel<F>, EModel<F>>(EModel::ExpectedNumber { actual: x })),
        !is_num(x) ==> spec_builtin("ceil"@, x) == BuiltinOutcome::Returns(Err::<VModel<F>, EModel<F>>(EModel::ExpectedNumber { actual: x })),
{
    reveal_strlit("ceil");
    reveal_strlit("floor");
    reveal_strlit("math::acos");
    reveal_strlit("math::acosh");
    reveal_strlit("math::asin");
    reveal_strlit("math::asinh");
    reveal_strlit("math::atan");
    reveal_strlit("math::atanh");
    reveal_strlit("math::cbrt");
    reveal_strlit("math::cos");
    reveal_strlit("math::cosh");
    reveal_strlit("math::exp");
    reveal_strlit("math::exp2");
    reveal_strlit("math::ln");
    reveal_strlit("math::log10");
    reveal_strlit("math::log2");
    reveal_strlit("math::sin");
    reveal_strlit("math::sinh");
    reveal_strlit("math::sqrt");
    reveal_strlit("math::tan");
    reveal_strlit("math::tanh");
    reveal_strlit("round");
    assert("math::log10"@.len() == 11);
    assert("math::log2"@.len() == 10);
    assert("math::exp2"@.len() == 10);
    assert("round"@.len() == 5);
    assert("math::tanh"@.len() == 10);
    assert("math::atanh"@.len() == 11);
    assert("math::sinh"@.len() == 10);
    assert("math::asinh"@.len() == 11);
    assert("math::cosh"@.len() == 10);
    assert("math::acosh"@.len() == 11);
    assert("ceil"@.len() == 4);
    assert("math::tan"@.len() == 9);
    assert("math::atan"@.len() == 10);
    assert("math::sin"@.len() == 9);
    assert("math::asin"@.len() == 10);
    assert("math::ln"@.len() == 8);
    assert("math::exp"@.len() == 9);
    assert("floor"@.len() == 5);
    assert("math::cos"@.len() == 9);
    assert("math::acos"@.len() == 10);
    assert("math::cbrt"@.len() == 10);
    assert("math::sqrt"@.len() == 10);
    assert("floor"@[0] != "round"@[0]);
}

/// `math::ln`, `math::log2`, `math::log10`, `math::exp` and `math::exp2` of a number `x` give the
/// float type's function of that name on `x` (an integer taken as the float `from_int` gives).
#[verifier::spinoff_prover]
pub proof fn law_exponential_builtins<F: EvalexprFloat>(x: VModel<F>)
    ensures
        is_num(x) ==> spec_builtin("math::ln"@, x) == BuiltinOutcome::Returns(Ok::<VModel<F>, EModel<F>>(VModel::Float(float_of(x).spec_ln()))),
        is_num(x) ==> spec_builtin("math::log2"@, x) == BuiltinOutcome::Returns(Ok::<VModel<F>, EModel<F>>(VModel::Float(float_of(x).spec_log2()))),
        is_num(x) ==> spec_builtin("math::log10"@, x) == BuiltinOutcome::Returns(Ok::<VModel<F>, EModel<F>>(VModel::Float(float_of(x).spec_log10()))),
        is_num(x) ==> spec_builtin("math::exp"@, x) == BuiltinOutcome::Returns(Ok::<VModel<F>, EModel<F>>(VModel::Float(float_of(x).spec_exp()))),
        is_num(x) ==> spec_builtin("math::exp2"@, x) == BuiltinOutcome::Returns(Ok::<VModel<F>, EModel<F>>(VModel::Float(float_of(x).spec_exp2()))),
{
    reveal_strlit("math::exp");
    reveal_strlit("math::exp2");
    reveal_strlit("math::ln");
    reveal_strlit("math::log10");
    reveal_strlit("math::log2");
    assert("math::log10"@.len() == 11);
    assert("math::log2"@.len() == 10);
    assert("math::exp2"@.len() == 10);
    assert("math::ln"@.len() == 8);
    assert("math::exp"@.len() == 9);
    assert("math::log2"@[6] != "math::exp2"@[6]);
}

/// The trigonometric and hyperbolic builtins (`math::cos`, `math::acos`, `math::cosh`,
/// `math::acosh`, `math::sin`, `math::asin`, `math::sinh`, `math::asinh`, `math::tan`,
/// `math::atan`, `math::tanh`, `math::atanh`) of a number `x` give the float type's function of
/// that name on `x`.
#[verifier::spinoff_prover]
pub proof fn law_trigonometric_builtins<F: EvalexprFloat>(x: VModel<F>)
    ensures
        is_num(x) ==> spec_builtin("math::cos"@, x) == BuiltinOutcome::Returns(Ok::<VModel<F>, EModel<F>>(VModel::Float(float_of(x).spec_cos()))),
        is_num(x) ==> spec_builtin("math::acos"@, x) == BuiltinOutcome::Returns(Ok::<VModel<F>, EModel<F>>(VModel::Float(float_of(x).spec_acos()))),
        is_num(x) ==> spec_builtin("math::cosh"@, x) == BuiltinOutcome::Returns(Ok::<VModel<F>, EModel<F>>(VModel::Float(float_of(x).spec_cosh()))),
        is_num(x) ==> spec_builtin("math::acosh"@, x) == BuiltinOutcome::Returns(Ok::<VModel<F>, EModel<F>>(VModel::Float(float_of(x).spec_acosh()))),
        is_num(x) ==> spec_builtin("math::sin"@, x) == BuiltinOutcome::Returns(Ok::<VModel<F>, EModel<F>>(VModel::Float(float_of(x).spec_sin()))),
        is_num(x) ==> spec_builtin("math::asin"@, x) == BuiltinOutcome::Returns(Ok::<VModel<F>, EModel<F>>(VModel::Float(float_of(x).spec_asin()))),
        is_num(x) ==> spec_builtin("math::sinh"@, x) == BuiltinOutcome::Returns(Ok::<VModel<F>, EModel<F>>(VModel::Float(float_of(x).spec_sinh()))),
        is_num(x) ==> spec_builtin("math::asinh"@, x) == BuiltinOutcome::Returns(Ok::<VModel<F>, EModel<F>>(VModel::Float(float_of(x).spec_asinh()))),
        is_num(x) ==> spec_builtin("math::tan"@, x) == BuiltinOutcome::Returns(Ok::<VModel<F>, EModel<F>>(VModel::Float(float_of(x).spec_tan()))),
        is_num(x) ==> spec_builtin("math::atan"@, x) == BuiltinOutcome::Returns(Ok::<VModel<F>, EModel<F>>(VModel::Float(float_of(x).spec_atan()))),
        is_num(x) ==> spec_builtin("math::tanh"@, x) == BuiltinOutcome::Returns(Ok::<VModel<F>, EModel<F>>(VModel::Float(float_of(x).spec_tanh()))),
        is_num(x) ==> spec_builtin("math::atanh"@, x) == BuiltinOutcome::Returns(Ok::<VModel<F>, EModel<F>>(VModel::Float(float_of(x).spec_atanh()))),
{
    reveal_strlit("math::acos");
    reveal_strlit("math::acosh");
    reveal_strlit("math::asin");
    reveal_strlit("math::asinh");
    reveal_strlit("math::atan");
    reveal_strlit("math::atanh");
    reveal_strlit("math::cos");
    reveal_strlit("math::cosh");
    reveal_strlit("math::exp");
    reveal_strlit("math::exp2");
    reveal_strlit("math::ln");
    reveal_strlit("math::log10");
    reveal_strlit("math::log2");
    reveal_strlit("math::sin");
    reveal_strlit("math::sinh");
    reveal_strlit("math::tan");
    reveal_strlit("math::tanh");
    assert("math::log10"@.len() == 11);
    assert("math::log2"@.len() == 10);
    assert("math::exp2"@.len() == 10);
    assert("math::tanh"@.len() == 10);
    assert("math::atanh"@.len() == 11);
    assert("math::sinh"@.len() == 10);
    assert("math::asinh"@.len() == 11);
    assert("math::cosh"@.len() == 10);
    assert("math::acosh"@.len() == 11);
    assert("math::tan"@.len() == 9);
    assert("math::atan"@.len() == 10);
    assert("math::sin"@.len() == 9);
    assert("math::asin"@.len() == 10);
    assert("math::ln"@.len() == 8);
    assert("math::exp"@.len() == 9);
    assert("math::cos"@.len() == 9);
    assert("math::acos"@.len() == 10);
    assert("math::exp"@[6] != "math::cos"@[6]);
    assert("math::log2"@[6] != "math::acos"@[6]);
    assert("math::exp2"@[6] != "math::acos"@[6]);
    assert("math::log2"@[6] != "math::cosh"@[6]);
    assert("math::exp2"@[6] != "math::cosh"@[6]);
    assert("math::acos"@[6] != "math::cosh"@[6]);
    assert("math::log10"@[6] != "math::acosh"@[6]);
    assert("math::exp"@[6] != "math::sin"@[6]);
    assert("math::cos"@[6] != "math::sin"@[6]);
    assert("math::log2"@[6] != "math::asin"@[6]);
    assert("math::exp2"@[6] != "math::asin"@[6]);
    assert("math::cosh"@[6] != "math::asin"@[6]);
    assert("math::acos"@[7] != "math::asin"@[7]);
    assert("math::log2"@[6] != "math::sinh"@[6]);
    assert("math::exp2"@[6] != "math::sinh"@[6]);
    assert("math::cosh"@[6] != "math::sinh"@[6]);
    assert("math::asin"@[6] != "math::sinh"@[6]);
    assert("math::acos"@[6] != "math::sinh"@[6]);
    assert("math::log10"@[6] != "math::asinh"@[6]);
    assert("math::acosh"@[7] != "math::asinh"@[7]);
    assert("math::sin"@[6] != "math::tan"@[6]);
    assert("math::exp"@[6] != "math::tan"@[6]);
    assert("math::cos"@[6] != "math::tan"@[6]);
    assert("math::log2"@[6] != "math::atan"@[6]);
    assert("math::exp2"@[6] != "math::atan"@[6]);
    assert("math::sinh"@[6] != "math::atan"@[6]);
    assert("math::cosh"@[6] != "math::atan"@[6]);
    assert("math::asin"@[7] != "math::atan"@[7]);
    assert("math::acos"@[7] != "math::atan"@[7]);
    assert("math::log2"@[6] != "math::tanh"@[6]);
    assert("math::exp2"@[6] != "math::tanh"@[6]);
    assert("math::sinh"@[6] != "math::tanh"@[6]);
    assert("math::cosh"@[6] != "math::tanh"@[6]);
    assert("math::atan"@[6] != "math::tanh"@[6]);
    assert("math::asin"@[6] != "math::tanh"@[6]);
    assert("math::acos"@[6] != "math::tanh"@[6]);
    assert("math::log10"@[6] != "math::atanh"@[6]);
    assert("math::asinh"@[7] != "math::atanh"@[7]);
    assert("math::acosh"@[7] != "math::atanh"@[7]);
}

/// `math::sqrt` and `math::cbrt` of a number `x` give the float type's roots of `x`;
/// `math::is_nan`, `math::is_finite`, `math::is_infinite` and `math::is_normal` give the float
/// type's answer to that question about `x`, as a boolean.
#[verifier::spinoff_prover]
pub proof fn law_root_and_class_builtins<F: EvalexprFloat>(x: VModel<F>)
    ensures
        is_num(x) ==> spec_builtin("math::sqrt"@, x) == BuiltinOutcome::Returns(Ok::<VModel<F>, EModel<F>>(VModel::Float(float_of(x).spec_sqrt()))),
        is_num(x) ==> spec_builtin("math::cbrt"@, x) == BuiltinOutcome::Returns(Ok::<VModel<F>, EModel<F>>(VModel::Float(float_of(x).spec_cbrt()))),
        is_num(x) ==> spec_builtin("math::is_nan"@, x) == BuiltinOutcome::Returns(Ok::<VModel<F>, EModel<F>>(VModel::Boolean(float_of(x).spec_is_nan()))),
        is_num(x) ==> spec_builtin("math::is_finite"@, x) == BuiltinOutcome::Returns(Ok::<VModel<F>, EModel<F>>(VModel::Boolean(float_of(x).spec_is_finite()))),
        is_num(x) ==> spec_builtin("math::is_infinite"@, x) == BuiltinOutcome::Returns(Ok::<VModel<F>, EModel<F>>(VModel::Boolean(float_of(x).spec_is_infinite()))),
        is_num(x) ==> spec_builtin("math::is_normal"@, x) == BuiltinOutcome::Returns(Ok::<VModel<F>, EModel<F>>(VModel::Boolean(float_of(x).spec_is_normal()))),
{
    reveal_strlit("ceil");
    reveal_strlit("floor");
    reveal_strlit("math::acos");
    reveal_strlit("math::acosh");
    reveal_strlit("math::asin");
    reveal_strlit("math::asinh");
    reveal_strlit("math::atan");
    reveal_strlit("math::atanh");
    reveal_strlit("math::cbrt");
    reveal_strlit("math::cos");
    reveal_strlit("math::cosh");
    reveal_strlit("math::exp");
    reveal_strlit("math::exp2");
    reveal_strlit("math::is_finite");
    reveal_strlit("math::is_infinite");
    reveal_strlit("math::is_nan");
    reveal_strlit("math::is_normal");
    reveal_strlit("math::ln");
    reveal_strlit("math::log10");
    reveal_strlit("math::log2");
    reveal_strlit("math::sin");
    reveal_strlit("math::sinh");
    reveal_strlit("math::sqrt");
    reveal_strlit("math::tan");
    reveal_strlit("math::tanh");
    reveal_strlit("round");
    assert("math::log10"@.len() == 11);
    assert("math::log2"@.len() == 10);
    assert("math::exp2"@.len() == 10);
    assert("round"@.len() == 5);
    assert("math::is_finite"@.len() == 15);
    assert("math::is_infinite"@.len() == 17);
    assert("math::tanh"@.len() == 10);
    assert("math::atanh"@.len() == 11);
    assert("math::sinh"@.len() == 10);
    assert("math::asinh"@.len() == 11);
    assert("math::cosh"@.len() == 10);
    assert("math::acosh"@.len() == 11);
    assert("math::is_normal"@.len() == 15);
    assert("ceil"@.len() == 4);
    assert("math::is_nan"@.len() == 12);
    assert("math::tan"@.len() == 9);
    assert("math::atan"@.len() == 10);
    assert("math::sin"@.len() == 9);
    assert("math::asin"@.len() == 10);
    assert("math::ln"@.len() == 8);
    assert("math::exp"@.len() == 9);
    assert("floor"@.len() == 5);
    assert("math::cos"@.len() == 9);
    assert("math::acos"@.len() == 10);
    assert("math::cbrt"@.len() == 10);
    assert("math::sqrt"@.len() == 10);
    assert("math::log2"@[6] != "math::sqrt"@[6]);
    assert("math::exp2"@[6] != "math::sqrt"@[6]);
    assert("math::tanh"@[6] != "math::sqrt"@[6]);
    assert("math::sinh"@[7] != "math::sqrt"@[7]);
    assert("math::cosh"@[6] != "math::sqrt"@[6]);
    assert("math::atan"@[6] != "math::sqrt"@[6]);
    assert("math::asin"@[6] != "math::sqrt"@[6]);
    assert("math::acos"@[6] != "math::sqrt"@[6]);
    assert("math::log2"@[6] != "math::cbrt"@[6]);
    assert("math::exp2"@[6] != "math::cbrt"@[6]);
    assert("math::tanh"@[6] != "math::cbrt"@[6]);
    assert("math::sinh"@[6] != "math::cbrt"@[6]);
    assert("math::cosh"@[7] != "math::cbrt"@[7]);
    assert("math::atan"@[6] != "math::cbrt"@[6]);
    assert("math::asin"@[6] != "math::cbrt"@[6]);
    assert("math::acos"@[6] != "math::cbrt"@[6]);
    assert("math::sqrt"@[6] != "math::cbrt"@[6]);
    assert("math::is_finite"@[9] != "math::is_normal"@[9]);
}

/// The builtins of two numbers: `math::log(a, b)` is the logarithm of `a` to the base `b`,
/// `math::pow(a, b)` is `a` to the power `b`, `math::atan2(a, b)` and `math::hypot(a, b)` the float
/// type's functions of those names, each on the numbers taken as floats.
#[verifier::spinoff_prover]
pub proof fn law_two_number_builtins<F: EvalexprFloat>(a: VModel<F>, b: VModel<F>)
    ensures
        is_num(a) && is_num(b) ==> spec_builtin("math::log"@, VModel::Tuple(seq![a, b])) == BuiltinOutcome::Returns(Ok::<VModel<F>, EModel<F>>(VModel::Float(float_of(a).spec_log(float_of(b))))),
        is_num(a) && is_num(b) ==> spec_builtin("math::pow"@, VModel::Tuple(seq![a, b])) == BuiltinOutcome::Returns(Ok::<VModel<F>, EModel<F>>(VModel::Float(float_of(a).spec_pow(float_of(b))))),
        is_num(a) && is_num(b) ==> spec_builtin("math::atan2"@, VModel::Tuple(seq![a, b])) == BuiltinOutcome::Returns(Ok::<VModel<F>, EModel<F>>(VModel::Float(float_of(a).spec_atan2(float_of(b))))),
        is_num(a) && is_num(b) ==> spec_builtin("math::hypot"@, VModel::Tuple(seq![a, b])) == BuiltinOutcome::Returns(Ok::<VModel<F>, EModel<F>>(VModel::Float(float_of(a).spec_hypot(float_of(b))))),
{
    reveal_strlit("ceil");
    reveal_strlit("floor");
    reveal_strlit("math::acos");
    reveal_strlit("math::acosh");
    reveal_strlit("math::asin");
    reveal_strlit("math::asinh");
    reveal_strlit("math::atan");
    reveal_strlit("math::atan2");
    reveal_strlit("math::atanh");
    reveal_strlit("math::cbrt");
    reveal_strlit("math::cos");
    reveal_strlit("math::cosh");
    reveal_strlit("math::exp");
    reveal_strlit("math::exp2");
    reveal_strlit("math::hypot");
    reveal_strlit("math::is_finite");
    reveal_strlit("math::is_infinite");
    reveal_strlit("math::is_nan");
    reveal_strlit("math::is_normal");
    reveal_strlit("math::ln");
    reveal_strlit("math::log");
    reveal_strlit("math::log10");
    reveal_strlit("math::log2");
    reveal_strlit("math::pow");
    reveal_strlit("math::sin");
    reveal_strlit("math::sinh");
    reveal_strlit("math::sqrt");
    reveal_strlit("math::tan");
    reveal_strlit("math::tanh");
    reveal_strlit("round");
    assert("math::log10"@.len() == 11);
    assert("math::log2"@.len() == 10);
    assert("math::atan2"@.len() == 11);
    assert("math::exp2"@.len() == 10);
    assert("round"@.len() == 5);
    assert("math::is_finite"@.len() == 15);
    assert("math::is_infinite"@.len() == 17);
    assert("math::log"@.len() == 9);
    assert("math::tanh"@.len() == 10);
    assert("math::atanh"@.len() == 11);
    assert("math::sinh"@.len() == 10);
    assert("math::asinh"@.len() == 11);
    assert("math::cosh"@.len() == 10);
    assert("math::acosh"@.len() == 11);
    assert("math::is_normal"@.len() == 15);
    assert("ceil"@.len() == 4);
    assert("math::is_nan"@.len() == 12);
    assert("math::tan"@.len() == 9);
    assert("math::atan"@.len() == 10);
    assert("math::sin"@.len() == 9);
    assert("math::asin"@.len() == 10);
    assert("math::ln"@.len() == 8);
    assert("math::exp"@.len() == 9);
    assert("floor"@.len() == 5);
    assert("math::cos"@.len() == 9);
    assert("math::acos"@.len() == 10);
    assert("math::hypot"@.len() == 11);
    assert("math::cbrt"@.len() == 10);
    assert("math::sqrt"@.len() == 10);
    assert("math::pow"@.len() == 9);
    assert("math::tan"@[6] != "math::log"@[6]);
    assert("math::sin"@[6] != "math::log"@[6]);
    assert("math::exp"@[6] != "math::log"@[6]);
    assert("math::cos"@[6] != "math::log"@[6]);
    assert("math::log"@[6] != "math::pow"@[6]);
    assert("math::tan"@[6] != "math::pow"@[6]);
    assert("math::sin"@[6] != "math::pow"@[6]);
    assert("math::exp"@[6] != "math::pow"@[6]);
    assert("math::cos"@[6] != "math::pow"@[6]);
    assert("math::log10"@[6] != "math::atan2"@[6]);
    assert("math::atanh"@[10] != "math::atan2"@[10]);
    assert("math::asinh"@[7] != "math::atan2"@[7]);
    assert("math::acosh"@[7] != "math::atan2"@[7]);
    assert("math::log10"@[6] != "math::hypot"@[6]);
    assert("math::atan2"@[6] != "math::hypot"@[6]);
    assert("math::atanh"@[6] != "math::hypot"@[6]);
    assert("math::asinh"@[6] != "math::hypot"@[6]);
    assert("math::acosh"@[6] != "math::hypot"@[6]);
    assert(seq![a, b].len() == 2);
}

/// `math::abs` of an integer is its absolute value (refused for the least integer, whose absolute
/// value has no integer), and of a float the float type's absolute value.
#[verifier::spinoff_prover]
pub proof fn law_abs_builtin<F: EvalexprFloat>(x: VModel<F>)
    ensures
        (x is Int && x->Int_0 != i64::MIN) ==> spec_builtin("math::abs"@, x) == BuiltinOutcome::Returns(Ok::<VModel<F>, EModel<F>>(VModel::Int(if x->Int_0 < 0 { -x->Int_0 } else { x->Int_0 }))),
        (x is Int && x->Int_0 == i64::MIN) ==> spec_builtin("math::abs"@, x) == BuiltinOutcome::Returns(Err::<VModel<F>, EModel<F>>(EModel::NegationError { argument: x })),
        x is Float ==> spec_builtin("math::abs"@, x) == BuiltinOutcome::Returns(Ok::<VModel<F>, EModel<F>>(VModel::Float(x->Float_0.spec_abs()))),
{
    reveal_strlit("ceil");
    reveal_strlit("floor");
    reveal_strlit("math::abs");
    reveal_strlit("math::acos");
    reveal_strlit("math::acosh");
    reveal_strlit("math::asin");
    reveal_strlit("math::asinh");
    reveal_strlit("math::atan");
    reveal_strlit("math::atan2");
    reveal_strlit("math::atanh");
    reveal_strlit("math::cbrt");
    reveal_strlit("math::cos");
    reveal_strlit("math::cosh");
    reveal_strlit("math::exp");
    reveal_strlit("math::exp2");
    reveal_strlit("math::hypot");
    reveal_strlit("math::is_finite");
    reveal_strlit("math::is_infinite");
    reveal_strlit("math::is_nan");
    reveal_strlit("math::is_normal");
    reveal_strlit("math::ln");
    reveal_strlit("math::log");
    reveal_strlit("math::log10");
    reveal_strlit("math::log2");
    reveal_strlit("math::pow");
    reveal_strlit("math::sin");
    reveal_strlit("math::sinh");
    reveal_strlit("math::sqrt");
    reveal_strlit("math::tan");
    reveal_strlit("math::tanh");
    reveal_strlit("round");
    assert("math::log10"@.len() == 11);
    assert("math::log2"@.len() == 10);
    assert("math::atan2"@.len() == 11);
    assert("math::exp2"@.len() == 10);
    assert("round"@.len() == 5);
    assert("math::is_finite"@.len() == 15);
    assert("math::is_infinite"@.len() == 17);
    assert("math::log"@.len() == 9);
    assert("math::tanh"@.len() == 10);
    assert("math::atanh"@.len() == 11);
    assert("math::sinh"@.len() == 10);
    assert("math::asinh"@.len() == 11);
    assert("math::cosh"@.len() == 10);
    assert("math::acosh"@.len() == 11);
    assert("math::is_normal"@.len() == 15);
    assert("ceil"@.len() == 4);
    assert("math::is_nan"@.len() == 12);
    assert("math::tan"@.len() == 9);
    assert("math::atan"@.len() == 10);
    assert("math::sin"@.len() == 9);
    assert("math::asin"@.len() == 10);
    assert("math::ln"@.len() == 8);
    assert("math::exp"@.len() == 9);
    assert("floor"@.len() == 5);
    assert("math::abs"@.len() == 9);
    assert("math::cos"@.len() == 9);
    assert("math::acos"@.len() == 10);
    assert("math::hypot"@.len() == 11);
    assert("math::cbrt"@.len() == 10);
    assert("math::sqrt"@.len() == 10);
    assert("math::pow"@.len() == 9);
    assert("math::log"@[6] != "math::abs"@[6]);
    assert("math::tan"@[6] != "math::abs"@[6]);
    assert("math::sin"@[6] != "math::abs"@[6]);
    assert("math::exp"@[6] != "math::abs"@[6]);
    assert("math::cos"@[6] != "math::abs"@[6]);
    assert("math::pow"@[6] != "math::abs"@[6]);
}

/// The bitwise builtins on integers: `bitand`, `bitor` and `bitxor` of two integers are their
/// bitwise and, or and exclusive or, `bitnot` of an integer its bitwise complement, and `shl(a, b)`
/// and `shr(a, b)`, for a shift `b` from 0 to 63, `a` shifted left by `b` places and `a` shifted
/// right by `b` places with its sign kept.
#[verifier::spinoff_prover]
pub proof fn law_bitwise_builtins<F: EvalexprFloat>(a: i64, b: i64)
    ensures
        spec_builtin("bitand"@, VModel::<F>::Tuple(seq![VModel::Int(a as int), VModel::Int(b as int)])) == BuiltinOutcome::Returns(Ok::<VModel<F>, EModel<F>>(VModel::Int((a & b) as int))),
        spec_builtin("bitor"@, VModel::<F>::Tuple(seq![VModel::Int(a as int), VModel::Int(b as int)])) == BuiltinOutcome::Returns(Ok::<VModel<F>, EModel<F>>(VModel::Int((a | b) as int))),
        spec_builtin("bitxor"@, VModel::<F>::Tuple(seq![VModel::Int(a as int), VModel::Int(b as int)])) == BuiltinOutcome::Returns(Ok::<VModel<F>, EModel<F>>(VModel::Int((a ^ b) as int))),
        spec_builtin("bitnot"@, VModel::<F>::Int(a as int)) == BuiltinOutcome::Returns(Ok::<VModel<F>, EModel<F>>(VModel::Int((!a) as int))),
        0 <= b < 64 ==> spec_builtin("shl"@, VModel::<F>::Tuple(seq![VModel::Int(a as int), VModel::Int(b as int)])) == BuiltinOutcome::Returns(Ok::<VModel<F>, EModel<F>>(VModel::Int((a << (b as u32)) as int))),
        0 <= b < 64 ==> spec_builtin("shr"@, VModel::<F>::Tuple(seq![VModel::Int(a as int), VModel::Int(b as int)])) == BuiltinOutcome::Returns(Ok::<VModel<F>, EModel<F>>(VModel::Int((a >> (b as u32)) as int))),
{
    reveal_strlit("bitand");
    reveal_strlit("bitnot");
    reveal_strlit("bitor");
    reveal_strlit("bitxor");
    reveal_strlit("ceil");
    reveal_strlit("contains");
    reveal_strlit("contains_any");
    reveal_strlit("floor");
    reveal_strlit("if");
    reveal_strlit("len");
    reveal_strlit("math::abs");
    reveal_strlit("math::acos");
    reveal_strlit("math::acosh");
    reveal_strlit("math::asin");
    reveal_strlit("math::asinh");
    reveal_strlit("math::atan");
    reveal_strlit("math::atan2");
    reveal_strlit("math::atanh");
    reveal_strlit("math::cbrt");
    reveal_strlit("math::cos");
    reveal_strlit("math::cosh");
    reveal_strlit("math::exp");
    reveal_strlit("math::exp2");
    reveal_strlit("math::hypot");
    reveal_strlit("math::is_finite");
    reveal_strlit("math::is_infinite");
    reveal_strlit("math::is_nan");
    reveal_strlit("math::is_normal");
    reveal_strlit("math::ln");
    reveal_strlit("math::log");
    reveal_strlit("math::log10");
    reveal_strlit("math::log2");
    reveal_strlit("math::pow");
    reveal_strlit("math::sin");
    reveal_strlit("math::sinh");
    reveal_strlit("math::sqrt");
    reveal_strlit("math::tan");
    reveal_strlit("math::tanh");
    reveal_strlit("max");
    reveal_strlit("min");
    reveal_strlit("round");
    reveal_strlit("shl");
    reveal_strlit("shr");
    reveal_strlit("str::from");
    reveal_strlit("str::regex_matches");
    reveal_strlit("str::regex_replace");
    reveal_strlit("str::substring");
    reveal_strlit("str::to_lowercase");
    reveal_strlit("str::to_uppercase");
    reveal_strlit("str::trim");
    reveal_strlit("typeof");
    assert("math::log10"@.len() == 11);
    assert("math::log2"@.len() == 10);
    assert("math::atan2"@.len() == 11);
    assert("math::exp2"@.len() == 10);
    assert("bitand"@.len() == 6);
    assert("round"@.len() == 5);
    assert("str::regex_replace"@.len() == 18);
    assert("str::to_uppercase"@.len() == 17);
    assert("str::to_lowercase"@.len() == 17);
    assert("math::is_finite"@.len() == 15);
    assert("math::is_infinite"@.len() == 17);
    assert("if"@.len() == 2);
    assert("typeof"@.len() == 6);
    assert("str::substring"@.len() == 14);
    assert("math::log"@.len() == 9);
    assert("math::tanh"@.len() == 10);
    assert("math::atanh"@.len() == 11);
    assert("math::sinh"@.len() == 10);
    assert("math::asinh"@.len() == 11);
    assert("math::cosh"@.len() == 10);
    assert("math::acosh"@.len() == 11);
    assert("math::is_normal"@.len() == 15);
    assert("shl"@.len() == 3);
    assert("ceil"@.len() == 4);
    assert("str::trim"@.len() == 9);
    assert("str::from"@.len() == 9);
    assert("math::is_nan"@.len() == 12);
    assert("math::tan"@.len() == 9);
    assert("math::atan"@.len() == 10);
    assert("len"@.len() == 3);
    assert("min"@.len() == 3);
    assert("math::sin"@.len() == 9);
    assert("math::asin"@.len() == 10);
    assert("math::ln"@.len() == 8);
    assert("math::exp"@.len() == 9);
    assert("shr"@.len() == 3);
    assert("floor"@.len() == 5);
    assert("bitor"@.len() == 5);
    assert("bitxor"@.len() == 6);
    assert("math::abs"@.len() == 9);
    assert("str::regex_matches"@.len() == 18);
    assert("contains"@.len() == 8);
    assert("math::cos"@.len() == 9);
    assert("math::acos"@.len() == 10);
    assert("bitnot"@.len() == 6);
    assert("math::hypot"@.len() == 11);
    assert("math::cbrt"@.len() == 10);
    assert("math::sqrt"@.len() == 10);
    assert("math::pow"@.len() == 9);
    assert("max"@.len() == 3);
    assert("contains_any"@.len() == 12);
    assert("typeof"@[0] != "bitand"@[0]);
    assert("round"@[0] != "bitor"@[0]);
    assert("floor"@[0] != "bitor"@[0]);
    assert("bitand"@[3] != "bitxor"@[3]);
    assert("typeof"@[0] != "bitxor"@[0]);
    assert("bitand"@[3] != "bitnot"@[3]);
    assert("typeof"@[0] != "bitnot"@[0]);
    assert("bitxor"@[3] != "bitnot"@[3]);
    assert("len"@[0] != "shl"@[0]);
    assert("min"@[0] != "shl"@[0]);
    assert("max"@[0] != "shl"@[0]);
    assert("shl"@[2] != "shr"@[2]);
    assert("len"@[0] != "shr"@[0]);
    assert("min"@[0] != "shr"@[0]);
    assert("max"@[0] != "shr"@[0]);
    assert(seq![VModel::<F>::Int(a as int), VModel::Int(b as int)].len() == 2);
    assert(!a == -a - 1) by (bit_vector);
}

/// The builtins that choose or inspect: `if(c, a, b)` is `a` where `c` is true and `b` where it is
/// false; `typeof` names the kind of its argument (`"string"`, `"float"`, `"int"`, `"boolean"`,
/// `"tuple"`, `"empty"`); `len` of a string is its number of characters and of a tuple its number
/// of items.
#[verifier::spinoff_prover]
pub proof fn law_choice_and_inspection_builtins<F: EvalexprFloat>(x: VModel<F>, a: VModel<F>, b: VModel<F>, c: bool)
    ensures
        spec_builtin("if"@, VModel::Tuple(seq![VModel::Boolean(c), a, b])) == BuiltinOutcome::Returns(Ok::<VModel<F>, EModel<F>>(if c { a } else { b })),
        x is Str ==> spec_builtin("typeof"@, x) == BuiltinOutcome::Returns(Ok::<VModel<F>, EModel<F>>(VModel::Str("string"@))),
        x is Float ==> spec_builtin("typeof"@, x) == BuiltinOutcome::Returns(Ok::<VModel<F>, EModel<F>>(VModel::Str("float"@))),
        x is Int ==> spec_builtin("typeof"@, x) == BuiltinOutcome::Returns(Ok::<VModel<F>, EModel<F>>(VModel::Str("int"@))),
        x is Boolean ==> spec_builtin("typeof"@, x) == BuiltinOutcome::Returns(Ok::<VModel<F>, EModel<F>>(VModel::Str("boolean"@))),
        x is Tuple ==> spec_builtin("typeof"@, x) == BuiltinOutcome::Returns(Ok::<VModel<F>, EModel<F>>(VModel::Str("tuple"@))),
        x is Empty ==> spec_builtin("typeof"@, x) == BuiltinOutcome::Returns(Ok::<VModel<F>, EModel<F>>(VModel::Str("empty"@))),
        (x is Str && x->Str_0.len() <= i64::MAX) ==> spec_builtin("len"@, x) == BuiltinOutcome::Returns(Ok::<VModel<F>, EModel<F>>(VModel::Int(x->Str_0.len() as int))),
        (x is Tuple && x->Tuple_0.len() <= i64::MAX) ==> spec_builtin("len"@, x) == BuiltinOutcome::Returns(Ok::<VModel<F>, EModel<F>>(VModel::Int(x->Tuple_0.len() as int))),
{
    reveal_strlit("ceil");
    reveal_strlit("contains");
    reveal_strlit("contains_any");
    reveal_strlit("floor");
    reveal_strlit("if");
    reveal_strlit("len");
    reveal_strlit("math::abs");
    reveal_strlit("math::acos");
    reveal_strlit("math::acosh");
    reveal_strlit("math::asin");
    reveal_strlit("math::asinh");
    reveal_strlit("math::atan");
    reveal_strlit("math::atan2");
    reveal_strlit("math::atanh");
    reveal_strlit("math::cbrt");
    reveal_strlit("math::cos");
    reveal_strlit("math::cosh");
    reveal_strlit("math::exp");
    reveal_strlit("math::exp2");
    reveal_strlit("math::hypot");
    reveal_strlit("math::is_finite");
    reveal_strlit("math::is_infinite");
    reveal_strlit("math::is_nan");
    reveal_strlit("math::is_normal");
    reveal_strlit("math::ln");
    reveal_strlit("math::log");
    reveal_strlit("math::log10");
    reveal_strlit("math::log2");
    reveal_strlit("math::pow");
    reveal_strlit("math::sin");
    reveal_strlit("math::sinh");
    reveal_strlit("math::sqrt");
    reveal_strlit("math::tan");
    reveal_strlit("math::tanh");
    reveal_strlit("max");
    reveal_strlit("min");
    reveal_strlit("round");
    reveal_strlit("typeof");
    assert("math::log10"@.len() == 11);
    assert("math::log2"@.len() == 10);
    assert("math::atan2"@.len() == 11);
    assert("math::exp2"@.len() == 10);
    assert("round"@.len() == 5);
    assert("math::is_finite"@.len() == 15);
    assert("math::is_infinite"@.len() == 17);
    assert("if"@.len() == 2);
    assert("typeof"@.len() == 6);
    assert("math::log"@.len() == 9);
    assert("math::tanh"@.len() == 10);
    assert("math::atanh"@.len() == 11);
    assert("math::sinh"@.len() == 10);
    assert("math::asinh"@.len() == 11);
    assert("math::cosh"@.len() == 10);
    assert("math::acosh"@.len() == 11);
    assert("math::is_normal"@.len() == 15);
    assert("ceil"@.len() == 4);
    assert("math::is_nan"@.len() == 12);
    assert("math::tan"@.len() == 9);
    assert("math::atan"@.len() == 10);
    assert("len"@.len() == 3);
    assert("min"@.len() == 3);
    assert("math::sin"@.len() == 9);
    assert("math::asin"@.len() == 10);
    assert("math::ln"@.len() == 8);
    assert("math::exp"@.len() == 9);
    assert("floor"@.len() == 5);
    assert("math::abs"@.len() == 9);
    assert("contains"@.len() == 8);
    assert("math::cos"@.len() == 9);
    assert("math::acos"@.len() == 10);
    assert("math::hypot"@.len() == 11);
    assert("math::cbrt"@.len() == 10);
    assert("math::sqrt"@.len() == 10);
    assert("math::pow"@.len() == 9);
    assert("max"@.len() == 3);
    assert("contains_any"@.len() == 12);
    assert("min"@[0] != "len"@[0]);
    assert("max"@[0] != "len"@[0]);
    reveal_strlit("string");
    reveal_strlit("float");
    reveal_strlit("int");
    reveal_strlit("boolean");
    reveal_strlit("tuple");
    reveal_strlit("empty");
    assert("string"@ =~= seq!['s', 't', 'r', 'i', 'n', 'g']);
    assert("float"@ =~= seq!['f', 'l', 'o', 'a', 't']);
    assert("int"@ =~= seq!['i', 'n', 't']);
    assert("boolean"@ =~= seq!['b', 'o', 'o', 'l', 'e', 'a', 'n']);
    assert("tuple"@ =~= seq!['t', 'u', 'p', 'l', 'e']);
    assert("empty"@ =~= seq!['e', 'm', 'p', 't', 'y']);
    assert(seq![VModel::<F>::Boolean(c), a, b].len() == 3);
}

/// `contains(t, v)` of a tuple `t` and a string, integer or boolean `v`, neither holding a float,
/// is whether some item of `t` equals `v`; `contains_any(t, u)` of two tuples without floats,
/// all of whose items in `u` are strings, numbers or booleans, is whether some item of `u` is an
/// item of `t`.
#[verifier::spinoff_prover]
pub proof fn law_membership_builtins<F: EvalexprFloat>(t: Seq<VModel<F>>, u: Seq<VModel<F>>, v: VModel<F>)
    ensures
        (is_primitive(v) && !seq_has_float(t) && !has_float(v)) ==>
            spec_builtin("contains"@, VModel::Tuple(seq![VModel::Tuple(t), v])) == BuiltinOutcome::Returns(Ok::<VModel<F>, EModel<F>>(VModel::Boolean(exists|j: int| 0 <= j < t.len() && t[j] == v))),
        (!seq_has_float(t) && !seq_has_float(u) && forall|j: int| 0 <= j < u.len() ==> is_primitive(#[trigger] u[j])) ==>
            spec_builtin("contains_any"@, VModel::Tuple(seq![VModel::Tuple(t), VModel::Tuple(u)])) == BuiltinOutcome::Returns(Ok::<VModel<F>, EModel<F>>(VModel::Boolean(exists|j: int, k: int| 0 <= j < u.len() && 0 <= k < t.len() && t[k] == u[j]))),
{
    reveal_strlit("ceil");
    reveal_strlit("contains");
    reveal_strlit("contains_any");
    reveal_strlit("floor");
    reveal_strlit("if");
    reveal_strlit("math::abs");
    reveal_strlit("math::acos");
    reveal_strlit("math::acosh");
    reveal_strlit("math::asin");
    reveal_strlit("math::asinh");
    reveal_strlit("math::atan");
    reveal_strlit("math::atan2");
    reveal_strlit("math::atanh");
    reveal_strlit("math::cbrt");
    reveal_strlit("math::cos");
    reveal_strlit("math::cosh");
    reveal_strlit("math::exp");
    reveal_strlit("math::exp2");
    reveal_strlit("math::hypot");
    reveal_strlit("math::is_finite");
    reveal_strlit("math::is_infinite");
    reveal_strlit("math::is_nan");
    reveal_strlit("math::is_normal");
    reveal_strlit("math::ln");
    reveal_strlit("math::log");
    reveal_strlit("math::log10");
    reveal_strlit("math::log2");
    reveal_strlit("math::pow");
    reveal_strlit("math::sin");
    reveal_strlit("math::sinh");
    reveal_strlit("math::sqrt");
    reveal_strlit("math::tan");
    reveal_strlit("math::tanh");
    reveal_strlit("max");
    reveal_strlit("min");
    reveal_strlit("round");
    reveal_strlit("typeof");
    assert("math::log10"@.len() == 11);
    assert("math::log2"@.len() == 10);
    assert("math::atan2"@.len() == 11);
    assert("math::exp2"@.len() == 10);
    assert("round"@.len() == 5);
    assert("math::is_finite"@.len() == 15);
    assert("math::is_infinite"@.len() == 17);
    assert("if"@.len() == 2);
    assert("typeof"@.len() == 6);
    assert("math::log"@.len() == 9);
    assert("math::tanh"@.len() == 10);
    assert("math::atanh"@.len() == 11);
    assert("math::sinh"@.len() == 10);
    assert("math::asinh"@.len() == 11);
    assert("math::cosh"@.len() == 10);
    assert("math::acosh"@.len() == 11);
    assert("math::is_normal"@.len() == 15);
    assert("ceil"@.len() == 4);
    assert("math::is_nan"@.len() == 12);
    assert("math::tan"@.len() == 9);
    assert("math::atan"@.len() == 10);
    assert("min"@.len() == 3);
    assert("math::sin"@.len() == 9);
    assert("math::asin"@.len() == 10);
    assert("math::ln"@.len() == 8);
    assert("math::exp"@.len() == 9);
    assert("floor"@.len() == 5);
    assert("math::abs"@.len() == 9);
    assert("contains"@.len() == 8);
    assert("math::cos"@.len() == 9);
    assert("math::acos"@.len() == 10);
    assert("math::hypot"@.len() == 11);
    assert("math::cbrt"@.len() == 10);
    assert("math::sqrt"@.len() == 10);
    assert("math::pow"@.len() == 9);
    assert("max"@.len() == 3);
    assert("contains_any"@.len() == 12);
    assert("math::ln"@[0] != "contains"@[0]);
    assert("math::is_nan"@[0] != "contains_any"@[0]);
    assert(seq![VModel::<F>::Tuple(t), v].len() == 2);
    assert(seq![VModel::<F>::Tuple(t), VModel::Tuple(u)].len() == 2);
    if !seq_has_float(t) && !seq_has_float(u) && forall|j: int| 0 <= j < u.len() ==> is_primitive(#[trigger] u[j]) {
        lemma_all_primitive(u);
    }
}

/// A sequence whose items are all strings, numbers or booleans has no first item that is not.
proof fn lemma_all_primitive<F>(u: Seq<VModel<F>>)
    requires
        forall|j: int| 0 <= j < u.len() ==> is_primitive(#[trigger] u[j]),
    ensures
        first_non_primitive(u) is None,
    decreases u.len(),
{
    if u.len() > 0 {
        let r = u.drop_first();
        assert forall|j: int| 0 <= j < r.len() implies is_primitive(#[trigger] r[j]) by {
            assert(r[j] == u[j + 1]);
        }
        lemma_all_primitive(r);
    }
}

/// The least (greatest) integer that `min` (`max`) folds out of a tuple is at most (at least) each
/// integer item; where the tuple holds an integer item and all of them are `i64`, it is one of them.
#[verifier::spinoff_prover]
proof fn lemma_int_extreme_bounds<F>(t: Seq<VModel<F>>, is_min: bool)
    ensures
        forall|j: int| 0 <= j < t.len() && #[trigger] t[j] is Int ==>
            if is_min { int_extreme(t, is_min) <= t[j]->Int_0 } else { int_extreme(t, is_min) >= t[j]->Int_0 },
        ((exists|j: int| 0 <= j < t.len() && #[trigger] t[j] is Int)
            && forall|j: int| 0 <= j < t.len() && #[trigger] t[j] is Int ==> i64::MIN <= t[j]->Int_0 <= i64::MAX) ==>
            exists|j: int| 0 <= j < t.len() && #[trigger] t[j] == VModel::<F>::Int(int_extreme(t, is_min)),
    decreases t.len(),
{
    if t.len() > 0 {
        let r = t.drop_last();
        lemma_int_extreme_bounds(r, is_min);
        assert forall|j: int| 0 <= j < t.len() && #[trigger] t[j] is Int implies
            (if is_min { int_extreme(t, is_min) <= t[j]->Int_0 } else { int_extreme(t, is_min) >= t[j]->Int_0 }) by {
            if j < t.len() - 1 {
                assert(r[j] == t[j]);
            }
        }
        if (exists|j: int| 0 <= j < t.len() && #[trigger] t[j] is Int)
            && forall|j: int| 0 <= j < t.len() && #[trigger] t[j] is Int ==> i64::MIN <= t[j]->Int_0 <= i64::MAX {
            if t.last() is Int {
                let n = t.last()->Int_0;
                if int_extreme(t, is_min) == n {
                    assert(t[t.len() - 1] == VModel::<F>::Int(int_extreme(t, is_min)));
                } else {
                    if exists|j: int| 0 <= j < r.len() && #[trigger] r[j] is Int {
                        let k = choose|j: int| 0 <= j < r.len() && #[trigger] r[j] is Int;
                        assert(t[k] is Int);
                        assert forall|j: int| 0 <= j < r.len() && #[trigger] r[j] is Int implies i64::MIN <= r[j]->Int_0 <= i64::MAX by {
                            assert(t[j] is Int);
                        }
                        let m = choose|j: int| 0 <= j < r.len() && #[trigger] r[j] == VModel::<F>::Int(int_extreme(r, is_min));
                        assert(t[m] == VModel::<F>::Int(int_extreme(t, is_min)));
                    } else {
                        assert(int_extreme(r, is_min) == if is_min { i64::MAX as int } else { i64::MIN as int }) by {
                            lemma_int_extreme_without_ints(r, is_min);
                        }
                    }
                }
            } else {
                let w = choose|j: int| 0 <= j < t.len() && #[trigger] t[j] is Int;
                assert(w < t.len() - 1);
                assert(r[w] is Int);
                assert forall|j: int| 0 <= j < r.len() && #[trigger] r[j] is Int implies i64::MIN <= r[j]->Int_0 <= i64::MAX by {
                    assert(t[j] is Int);
                }
                let m = choose|j: int| 0 <= j < r.len() && #[trigger] r[j] == VModel::<F>::Int(int_extreme(r, is_min));
                assert(t[m] == VModel::<F>::Int(int_extreme(t, is_min)));
            }
        }
    }
}

/// Without integer items, the fold keeps its starting value.
proof fn lemma_int_extreme_without_ints<F>(t: Seq<VModel<F>>, is_min: bool)
    requires
        forall|j: int| 0 <= j < t.len() ==> !(#[trigger] t[j] is Int),
    ensures
        int_extreme(t, is_min) == if is_min { i64::MAX as int } else { i64::MIN as int },
    decreases t.len(),
{
    if t.len() > 0 {
        let r = t.drop_last();
        assert forall|j: int| 0 <= j < r.len() implies !(#[trigger] r[j] is Int) by {
            assert(r[j] == t[j]);
        }
        lemma_int_extreme_without_ints(r, is_min);
    }
}

/// `min` (`max`) of a tuple of numbers gives either an integer or a float; the integer it gives is
/// at most (at least) every integer item, and where the tuple holds integer items, all `i64`, it is
/// one of them.
#[verifier::spinoff_prover]
pub proof fn law_min_max_builtins<F: EvalexprFloat>(t: Seq<VModel<F>>)
    ensures
        (forall|j: int| 0 <= j < t.len() ==> is_num(#[trigger] t[j])) ==> {
            &&& spec_builtin("min"@, VModel::Tuple(t)) matches BuiltinOutcome::Returns(Ok(v))
                && (v is Float || (v is Int && forall|j: int| 0 <= j < t.len() && #[trigger] t[j] is Int ==> v->Int_0 <= t[j]->Int_0))
            &&& spec_builtin("max"@, VModel::Tuple(t)) matches BuiltinOutcome::Returns(Ok(v))
                && (v is Float || (v is Int && forall|j: int| 0 <= j < t.len() && #[trigger] t[j] is Int ==> v->Int_0 >= t[j]->Int_0))
        },
        ((forall|j: int| 0 <= j < t.len() ==> is_num(#[trigger] t[j]))
            && (exists|j: int| 0 <= j < t.len() && #[trigger] t[j] is Int)
            && forall|j: int| 0 <= j < t.len() && #[trigger] t[j] is Int ==> i64::MIN <= t[j]->Int_0 <= i64::MAX) ==> {
            &&& spec_builtin("min"@, VModel::Tuple(t)) matches BuiltinOutcome::Returns(Ok(v))
                && (v is Int ==> t.contains(v))
            &&& spec_builtin("max"@, VModel::Tuple(t)) matches BuiltinOutcome::Returns(Ok(v))
                && (v is Int ==> t.contains(v))
        },
{
    reveal_strlit("ceil");
    reveal_strlit("floor");
    reveal_strlit("math::abs");
    reveal_strlit("math::acos");
    reveal_strlit("math::acosh");
    reveal_strlit("math::asin");
    reveal_strlit("math::asinh");
    reveal_strlit("math::atan");
    reveal_strlit("math::atan2");
    reveal_strlit("math::atanh");
    reveal_strlit("math::cbrt");
    reveal_strlit("math::cos");
    reveal_strlit("math::cosh");
    reveal_strlit("math::exp");
    reveal_strlit("math::exp2");
    reveal_strlit("math::hypot");
    reveal_strlit("math::is_finite");
    reveal_strlit("math::is_infinite");
    reveal_strlit("math::is_nan");
    reveal_strlit("math::is_normal");
    reveal_strlit("math::ln");
    reveal_strlit("math::log");
    reveal_strlit("math::log10");
    reveal_strlit("math::log2");
    reveal_strlit("math::pow");
    reveal_strlit("math::sin");
    reveal_strlit("math::sinh");
    reveal_strlit("math::sqrt");
    reveal_strlit("math::tan");
    reveal_strlit("math::tanh");
    reveal_strlit("max");
    reveal_strlit("min");
    reveal_strlit("round");
    reveal_strlit("typeof");
    assert("math::log10"@.len() == 11);
    assert("math::log2"@.len() == 10);
    assert("math::atan2"@.len() == 11);
    assert("math::exp2"@.len() == 10);
    assert("round"@.len() == 5);
    assert("math::is_finite"@.len() == 15);
    assert("math::is_infinite"@.len() == 17);
    assert("typeof"@.len() == 6);
    assert("math::log"@.len() == 9);
    assert("math::tanh"@.len() == 10);
    assert("math::atanh"@.len() == 11);
    assert("math::sinh"@.len() == 10);
    assert("math::asinh"@.len() == 11);
    assert("math::cosh"@.len() == 10);
    assert("math::acosh"@.len() == 11);
    assert("math::is_normal"@.len() == 15);
    assert("ceil"@.len() == 4);
    assert("math::is_nan"@.len() == 12);
    assert("math::tan"@.len() == 9);
    assert("math::atan"@.len() == 10);
    assert("min"@.len() == 3);
    assert("math::sin"@.len() == 9);
    assert("math::asin"@.len() == 10);
    assert("math::ln"@.len() == 8);
    assert("math::exp"@.len() == 9);
    assert("floor"@.len() == 5);
    assert("math::abs"@.len() == 9);
    assert("math::cos"@.len() == 9);
    assert("math::acos"@.len() == 10);
    assert("math::hypot"@.len() == 11);
    assert("math::cbrt"@.len() == 10);
    assert("math::sqrt"@.len() == 10);
    assert("math::pow"@.len() == 9);
    assert("max"@.len() == 3);
    assert("min"@[1] != "max"@[1]);
    lemma_int_extreme_bounds(t, true);
    lemma_int_extreme_bounds(t, false);
    if forall|j: int| 0 <= j < t.len() ==> is_num(#[trigger] t[j]) {
        lemma_all_numbers(t);
        if !(exists|j: int| 0 <= j < t.len() && #[trigger] t[j] is Int) {
            lemma_int_extreme_without_ints(t, true);
            lemma_int_extreme_without_ints(t, false);
        }
    }
}

/// A sequence whose items are all numbers has no first item that is not.
proof fn lemma_all_numbers<F>(u: Seq<VModel<F>>)
    requires
        forall|j: int| 0 <= j < u.len() ==> is_num(#[trigger] u[j]),
    ensures
        first_non_number(u) is None,
    decreases u.len(),
{
    if u.len() > 0 {
        let r = u.drop_first();
        assert forall|j: int| 0 <= j < r.len() implies is_num(#[trigger] r[j]) by {
            assert(r[j] == u[j + 1]);
        }
        lemma_all_numbers(r);
    }
}

/// Skipping whitespace from `i` on stops at the first character that is not whitespace.
proof fn lemma_trim_start(s: Seq<char>, i: int)
    requires
        0 <= i <= s.len(),
    ensures
        i <= trim_start_index(s, i) <= s.len(),
        forall|k: int| i <= k < trim_start_index(s, i) ==> spec_is_whitespace(#[trigger] s[k]),
        trim_start_index(s, i) < s.len() ==> !spec_is_whitespace(s[trim_start_index(s, i)]),
    decreases s.len() - i,
{
    if i < s.len() && spec_is_whitespace(s[i]) {
        lemma_trim_start(s, i + 1);
    }
}

/// Skipping whitespace back from `j` stops after the last character that is not whitespace.
proof fn lemma_trim_end(s: Seq<char>, j: int)
    requires
        0 <= j <= s.len(),
    ensures
        0 <= trim_end_index(s, j) <= j,
        forall|k: int| trim_end_index(s, j) <= k < j ==> spec_is_whitespace(#[trigger] s[k]),
        trim_end_index(s, j) > 0 ==> !spec_is_whitespace(s[trim_end_index(s, j) - 1]),
    decreases j,
{
    if j > 0 && spec_is_whitespace(s[j - 1]) {
        lemma_trim_end(s, j - 1);
    }
}

/// Whether `t` stands in `s` from index `a` on with only whitespace before and after it.
pub open spec fn stands_in_whitespace(s: Seq<char>, t: Seq<char>, a: int) -> bool {
    &&& 0 <= a && a + t.len() <= s.len()
    &&& s.subrange(a, a + t.len()) == t
    &&& forall|k: int| 0 <= k < a ==> spec_is_whitespace(#[trigger] s[k])
    &&& forall|k: int| a + t.len() <= k < s.len() ==> spec_is_whitespace(#[trigger] s[k])
}

/// `str::trim` of a string `s` is the part of `s` left between the whitespace at its start and the
/// whitespace at its end: it starts and ends with a character that is not whitespace, and around
/// it `s` holds only whitespace; it is empty exactly where `s` is all whitespace.
#[verifier::spinoff_prover]
pub proof fn law_trim_builtin<F: EvalexprFloat>(s: Seq<char>)
    ensures
        spec_builtin("str::trim"@, VModel::<F>::Str(s)) == BuiltinOutcome::Returns(Ok::<VModel<F>, EModel<F>>(VModel::Str(trimmed(s)))),
        trimmed(s).len() == 0 <==> forall|k: int| 0 <= k < s.len() ==> spec_is_whitespace(#[trigger] s[k]),
        trimmed(s).len() > 0 ==> !spec_is_whitespace(trimmed(s)[0]) && !spec_is_whitespace(trimmed(s).last()),
        exists|a: int| #[trigger] stands_in_whitespace(s, trimmed(s), a),
{
    reveal_strlit("ceil");
    reveal_strlit("contains");
    reveal_strlit("contains_any");
    reveal_strlit("floor");
    reveal_strlit("if");
    reveal_strlit("len");
    reveal_strlit("math::abs");
    reveal_strlit("math::acos");
    reveal_strlit("math::acosh");
    reveal_strlit("math::asin");
    reveal_strlit("math::asinh");
    reveal_strlit("math::atan");
    reveal_strlit("math::atan2");
    reveal_strlit("math::atanh");
    reveal_strlit("math::cbrt");
    reveal_strlit("math::cos");
    reveal_strlit("math::cosh");
    reveal_strlit("math::exp");
    reveal_strlit("math::exp2");
    reveal_strlit("math::hypot");
    reveal_strlit("math::is_finite");
    reveal_strlit("math::is_infinite");
    reveal_strlit("math::is_nan");
    reveal_strlit("math::is_normal");
    reveal_strlit("math::ln");
    reveal_strlit("math::log");
    reveal_strlit("math::log10");
    reveal_strlit("math::log2");
    reveal_strlit("math::pow");
    reveal_strlit("math::sin");
    reveal_strlit("math::sinh");
    reveal_strlit("math::sqrt");
    reveal_strlit("math::tan");
    reveal_strlit("math::tanh");
    reveal_strlit("max");
    reveal_strlit("min");
    reveal_strlit("round");
    reveal_strlit("str::regex_matches");
    reveal_strlit("str::regex_replace");
    reveal_strlit("str::to_lowercase");
    reveal_strlit("str::to_uppercase");
    reveal_strlit("str::trim");
    reveal_strlit("typeof");
    assert("math::log10"@.len() == 11);
    assert("math::log2"@.len() == 10);
    assert("math::atan2"@.len() == 11);
    assert("math::exp2"@.len() == 10);
    assert("round"@.len() == 5);
    assert("str::regex_replace"@.len() == 18);
    assert("str::to_uppercase"@.len() == 17);
    assert("str::to_lowercase"@.len() == 17);
    assert("math::is_finite"@.len() == 15);
    assert("math::is_infinite"@.len() == 17);
    assert("if"@.len() == 2);
    assert("typeof"@.len() == 6);
    assert("math::log"@.len() == 9);
    assert("math::tanh"@.len() == 10);
    assert("math::atanh"@.len() == 11);
    assert("math::sinh"@.len() == 10);
    assert("math::asinh"@.len() == 11);
    assert("math::cosh"@.len() == 10);
    assert("math::acosh"@.len() == 11);
    assert("math::is_normal"@.len() == 15);
    assert("ceil"@.len() == 4);
    assert("str::trim"@.len() == 9);
    assert("math::is_nan"@.len() == 12);
    assert("math::tan"@.len() == 9);
    assert("math::atan"@.len() == 10);
    assert("len"@.len() == 3);
    assert("min"@.len() == 3);
    assert("math::sin"@.len() == 9);
    assert("math::asin"@.len() == 10);
    assert("math::ln"@.len() == 8);
    assert("math::exp"@.len() == 9);
    assert("floor"@.len() == 5);
    assert("math::abs"@.len() == 9);
    assert("str::regex_matches"@.len() == 18);
    assert("contains"@.len() == 8);
    assert("math::cos"@.len() == 9);
    assert("math::acos"@.len() == 10);
    assert("math::hypot"@.len() == 11);
    assert("math::cbrt"@.len() == 10);
    assert("math::sqrt"@.len() == 10);
    assert("math::pow"@.len() == 9);
    assert("max"@.len() == 3);
    assert("contains_any"@.len() == 12);
    assert("math::log"@[0] != "str::trim"@[0]);
    assert("math::tan"@[0] != "str::trim"@[0]);
    assert("math::sin"@[0] != "str::trim"@[0]);
    assert("math::exp"@[0] != "str::trim"@[0]);
    assert("math::abs"@[0] != "str::trim"@[0]);
    assert("math::cos"@[0] != "str::trim"@[0]);
    assert("math::pow"@[0] != "str::trim"@[0]);
    let a = trim_start_index(s, 0);
    let b = trim_end_index(s, s.len() as int);
    lemma_trim_start(s, 0);
    lemma_trim_end(s, s.len() as int);
    let t = trimmed(s);
    if a < b {
        assert(t == s.subrange(a, b));
        assert(s.subrange(a, a + t.len()) == t);
        assert(t[0] == s[a]);
        assert(t.last() == s[b - 1]);
        assert(forall|k: int| 0 <= k < a ==> spec_is_whitespace(#[trigger] s[k]));
        assert(forall|k: int| a + t.len() <= k < s.len() ==> spec_is_whitespace(#[trigger] s[k]));
        assert(stands_in_whitespace(s, t, a));
    } else {
        assert(t.len() == 0);
        assert forall|k: int| 0 <= k < s.len() implies spec_is_whitespace(#[trigger] s[k]) by {
            if k >= a {
                assert(b <= k);
            }
        }
        assert(s.subrange(0, 0) =~= t);
        assert(stands_in_whitespace(s, t, 0));
    }
}

/// In a string of ASCII characters each character takes one byte, so the byte offset of a place is
/// its index.
proof fn lemma_ascii_byte_offsets(s: Seq<char>, k: int)
    requires
        0 <= k <= s.len(),
        forall|i: int| 0 <= i < s.len() ==> (#[trigger] s[i] as u32) < 0x80,
    ensures
        byte_offset(s, k) == k,
    decreases k,
{
    if k > 0 {
        lemma_ascii_byte_offsets(s, k - 1);
        assert((s[k - 1] as u32) < 0x80);
    }
}

/// `str::substring` of an ASCII string `s` from `a` to `b` is the characters of `s` from index `a`
/// up to `b`, and without an end the characters from `a` to the end; a start after the end is
/// refused with `OutOfBoundsAccess`.
#[verifier::spinoff_prover]
pub proof fn law_substring_of_ascii<F: EvalexprFloat>(s: Seq<char>, a: int, b: int)
    requires
        forall|i: int| 0 <= i < s.len() ==> (#[trigger] s[i] as u32) < 0x80,
        s.len() <= usize::MAX,
        0 <= a <= s.len(),
        0 <= b <= s.len(),
    ensures
        a <= b ==> spec_builtin("str::substring"@, VModel::<F>::Tuple(seq![VModel::Str(s), VModel::Int(a), VModel::Int(b)]))
            == BuiltinOutcome::Returns(Ok::<VModel<F>, EModel<F>>(VModel::Str(s.subrange(a, b)))),
        spec_builtin("str::substring"@, VModel::<F>::Tuple(seq![VModel::Str(s), VModel::Int(a)]))
            == BuiltinOutcome::Returns(Ok::<VModel<F>, EModel<F>>(VModel::Str(s.subrange(a, s.len() as int)))),
        b < a ==> spec_builtin("str::substring"@, VModel::<F>::Tuple(seq![VModel::Str(s), VModel::Int(a), VModel::Int(b)]))
            == BuiltinOutcome::Returns(Err::<VModel<F>, EModel<F>>(EModel::OutOfBoundsAccess)),
{
    reveal_strlit("ceil");
    reveal_strlit("contains");
    reveal_strlit("contains_any");
    reveal_strlit("floor");
    reveal_strlit("if");
    reveal_strlit("len");
    reveal_strlit("math::abs");
    reveal_strlit("math::acos");
    reveal_strlit("math::acosh");
    reveal_strlit("math::asin");
    reveal_strlit("math::asinh");
    reveal_strlit("math::atan");
    reveal_strlit("math::atan2");
    reveal_strlit("math::atanh");
    reveal_strlit("math::cbrt");
    reveal_strlit("math::cos");
    reveal_strlit("math::cosh");
    reveal_strlit("math::exp");
    reveal_strlit("math::exp2");
    reveal_strlit("math::hypot");
    reveal_strlit("math::is_finite");
    reveal_strlit("math::is_infinite");
    reveal_strlit("math::is_nan");
    reveal_strlit("math::is_normal");
    reveal_strlit("math::ln");
    reveal_strlit("math::log");
    reveal_strlit("math::log10");
    reveal_strlit("math::log2");
    reveal_strlit("math::pow");
    reveal_strlit("math::sin");
    reveal_strlit("math::sinh");
    reveal_strlit("math::sqrt");
    reveal_strlit("math::tan");
    reveal_strlit("math::tanh");
    reveal_strlit("max");
    reveal_strlit("min");
    reveal_strlit("round");
    reveal_strlit("str::from");
    reveal_strlit("str::regex_matches");
    reveal_strlit("str::regex_replace");
    reveal_strlit("str::substring");
    reveal_strlit("str::to_lowercase");
    reveal_strlit("str::to_uppercase");
    reveal_strlit("str::trim");
    reveal_strlit("typeof");
    assert("math::log10"@.len() == 11);
    assert("math::log2"@.len() == 10);
    assert("math::atan2"@.len() == 11);
    assert("math::exp2"@.len() == 10);
    assert("round"@.len() == 5);
    assert("str::regex_replace"@.len() == 18);
    assert("str::to_uppercase"@.len() == 17);
    assert("str::to_lowercase"@.len() == 17);
    assert("math::is_finite"@.len() == 15);
    assert("math::is_infinite"@.len() == 17);
    assert("if"@.len() == 2);
    assert("typeof"@.len() == 6);
    assert("str::substring"@.len() == 14);
    assert("math::log"@.len() == 9);
    assert("math::tanh"@.len() == 10);
    assert("math::atanh"@.len() == 11);
    assert("math::sinh"@.len() == 10);
    assert("math::asinh"@.len() == 11);
    assert("math::cosh"@.len() == 10);
    assert("math::acosh"@.len() == 11);
    assert("math::is_normal"@.len() == 15);
    assert("ceil"@.len() == 4);
    assert("str::trim"@.len() == 9);
    assert("str::from"@.len() == 9);
    assert("math::is_nan"@.len() == 12);
    assert("math::tan"@.len() == 9);
    assert("math::atan"@.len() == 10);
    assert("len"@.len() == 3);
    assert("min"@.len() == 3);
    assert("math::sin"@.len() == 9);
    assert("math::asin"@.len() == 10);
    assert("math::ln"@.len() == 8);
    assert("math::exp"@.len() == 9);
    assert("floor"@.len() == 5);
    assert("math::abs"@.len() == 9);
    assert("str::regex_matches"@.len() == 18);
    assert("contains"@.len() == 8);
    assert("math::cos"@.len() == 9);
    assert("math::acos"@.len() == 10);
    assert("math::hypot"@.len() == 11);
    assert("math::cbrt"@.len() == 10);
    assert("math::sqrt"@.len() == 10);
    assert("math::pow"@.len() == 9);
    assert("max"@.len() == 3);
    assert("contains_any"@.len() == 12);
    lemma_ascii_byte_offsets(s, a);
    lemma_ascii_byte_offsets(s, b);
    lemma_ascii_byte_offsets(s, s.len() as int);
    let n = s.len() as int;
    assert(seq![VModel::<F>::Str(s), VModel::Int(a), VModel::Int(b)].len() == 3);
    assert(seq![VModel::<F>::Str(s), VModel::Int(a)].len() == 2);
    if a <= b {
        assert(starts_at_byte(s, a, a) && starts_at_byte(s, b, b));
        let (k1, k2) = choose|k1: int, k2: int| starts_at_byte(s, k1, a) && starts_at_byte(s, k2, b);
        lemma_byte_offset_injective(s, k1, a);
        lemma_byte_offset_injective(s, k2, b);
    }
    assert(starts_at_byte(s, a, a) && starts_at_byte(s, n, n));
    let (k1, k2) = choose|k1: int, k2: int| starts_at_byte(s, k1, a) && starts_at_byte(s, k2, n);
    lemma_byte_offset_injective(s, k1, a);
    lemma_byte_offset_injective(s, k2, n);
}

} // verus!
