//! The float type that expressions are evaluated with.
use vstd::prelude::*;

verus! {

/// The characters of a float literal, as the spec function of `from_float_literal` takes them.
pub type LiteralText = Seq<char>;

/// A float type that can be used by `evalexpr`.
///
/// The library itself never computes with floating point numbers: every float operation that an
/// expression needs goes through this trait, which the user implements for the float type of their
/// choice (the binary implements it for `f64`). Integers are `i64`.
///
/// Each operation comes with a spec function of the same name prefixed by `spec_`, which the
/// implementation defines: the operation returns exactly what its spec function gives, and the
/// library's contracts state float results through these spec functions.
pub trait EvalexprFloat: Copy + Sized {
    /// The float that a literal in Rust's float syntax denotes.
    spec fn spec_from_float_literal(literal: LiteralText) -> Self;

    /// Converts a literal in Rust's float syntax (an optional sign, then `inf`, `infinity`, `nan`
    /// or a decimal number with an optional exponent) into a float.
    /// The tokenizer calls this only on strings of that syntax.
    fn from_float_literal(literal: &str) -> (r: Self)
        ensures
            r == Self::spec_from_float_literal(literal@);

    /// The result of `from_int`.
    spec fn spec_from_int(value: i64) -> Self;

    /// Converts an integer into a float, like the `as` operator does.
    fn from_int(value: i64) -> (r: Self)
        ensures
            r == Self::spec_from_int(value);

    /// The result of `to_int`.
    spec fn spec_to_int(self) -> i64;

    /// Converts a float into an integer, like the `as` operator does.
    fn to_int(self) -> (r: i64)
        ensures
            r == self.spec_to_int();

    /// The text that `to_display_string` writes.
    spec fn spec_to_display_string(self) -> LiteralText;

    /// Renders the float as a string, as `Display` does.
    fn to_display_string(self) -> (r: String)
        ensures
            r@ == self.spec_to_display_string();

    /// The result of `min_value`.
    spec fn spec_min_value() -> Self;

    /// The smallest non-NaN floating point value. Typically, this is negative infinity.
    fn min_value() -> (r: Self)
        ensures
            r == Self::spec_min_value();

    /// The result of `max_value`.
    spec fn spec_max_value() -> Self;

    /// The largest non-NaN floating point value. Typically, this is positive infinity.
    fn max_value() -> (r: Self)
        ensures
            r == Self::spec_max_value();

    /// The result of `add`.
    spec fn spec_add(self, other: Self) -> Self;

    /// Addition.
    fn add(self, other: Self) -> (r: Self)
        ensures
            r == self.spec_add(other);

    /// The result of `sub`.
    spec fn spec_sub(self, other: Self) -> Self;

    /// Subtraction.
    fn sub(self, other: Self) -> (r: Self)
        ensures
            r == self.spec_sub(other);

    /// The result of `mul`.
    spec fn spec_mul(self, other: Self) -> Self;

    /// Multiplication.
    fn mul(self, other: Self) -> (r: Self)
        ensures
            r == self.spec_mul(other);

    /// The result of `div`.
    spec fn spec_div(self, other: Self) -> Self;

    /// Division.
    fn div(self, other: Self) -> (r: Self)
        ensures
            r == self.spec_div(other);

    /// The result of `rem`.
    spec fn spec_rem(self, other: Self) -> Self;

    /// Remainder.
    fn rem(self, other: Self) -> (r: Self)
        ensures
            r == self.spec_rem(other);

    /// The result of `neg`.
    spec fn spec_neg(self) -> Self;

    /// Negation.
    fn neg(self) -> (r: Self)
        ensures
            r == self.spec_neg();

    /// The result of `float_eq`.
    spec fn spec_float_eq(self, other: Self) -> bool;

    /// Float equality (`==` on floats).
    fn float_eq(self, other: Self) -> (r: bool)
        ensures
            r == self.spec_float_eq(other);

    /// The result of `float_lt`.
    spec fn spec_float_lt(self, other: Self) -> bool;

    /// `self < other`.
    fn float_lt(self, other: Self) -> (r: bool)
        ensures
            r == self.spec_float_lt(other);

    /// The result of `float_le`.
    spec fn spec_float_le(self, other: Self) -> bool;

    /// `self <= other`.
    fn float_le(self, other: Self) -> (r: bool)
        ensures
            r == self.spec_float_le(other);

    /// The result of `pow`.
    spec fn spec_pow(self, exponent: Self) -> Self;

    /// Perform a power operation.
    fn pow(self, exponent: Self) -> (r: Self)
        ensures
            r == self.spec_pow(exponent);

    /// The result of `powi`.
    spec fn spec_powi(self, exponent: i32) -> Self;

    /// Raise to an integer power.
    fn powi(self, exponent: i32) -> (r: Self)
        ensures
            r == self.spec_powi(exponent);

    /// The result of `ln`.
    spec fn spec_ln(self) -> Self;

    /// Compute the natural logarithm.
    fn ln(self) -> (r: Self)
        ensures
            r == self.spec_ln();

    /// The result of `log`.
    spec fn spec_log(self, base: Self) -> Self;

    /// Compute the logarithm to a certain base.
    fn log(self, base: Self) -> (r: Self)
        ensures
            r == self.spec_log(base);

    /// The result of `log2`.
    spec fn spec_log2(self) -> Self;

    /// Compute the logarithm base 2.
    fn log2(self) -> (r: Self)
        ensures
            r == self.spec_log2();

    /// The result of `log10`.
    spec fn spec_log10(self) -> Self;

    /// Compute the logarithm base 10.
    fn log10(self) -> (r: Self)
        ensures
            r == self.spec_log10();

    /// The result of `exp`.
    spec fn spec_exp(self) -> Self;

    /// Exponentiate with base `e`.
    fn exp(self) -> (r: Self)
        ensures
            r == self.spec_exp();

    /// The result of `exp2`.
    spec fn spec_exp2(self) -> Self;

    /// Exponentiate with base 2.
    fn exp2(self) -> (r: Self)
        ensures
            r == self.spec_exp2();

    /// The result of `cos`.
    spec fn spec_cos(self) -> Self;

    /// Compute the cosine.
    fn cos(self) -> (r: Self)
        ensures
            r == self.spec_cos();

    /// The result of `cosh`.
    spec fn spec_cosh(self) -> Self;

    /// Compute the hyperbolic cosine.
    fn cosh(self) -> (r: Self)
        ensures
            r == self.spec_cosh();

    /// The result of `acos`.
    spec fn spec_acos(self) -> Self;

    /// Compute the arccosine.
    fn acos(self) -> (r: Self)
        ensures
            r == self.spec_acos();

    /// The result of `acosh`.
    spec fn spec_acosh(self) -> Self;

    /// Compute the hyperbolic arccosine.
    fn acosh(self) -> (r: Self)
        ensures
            r == self.spec_acosh();

    /// The result of `sin`.
    spec fn spec_sin(self) -> Self;

    /// Compute the sine.
    fn sin(self) -> (r: Self)
        ensures
            r == self.spec_sin();

    /// The result of `sinh`.
    spec fn spec_sinh(self) -> Self;

    /// Compute the hyperbolic sine.
    fn sinh(self) -> (r: Self)
        ensures
            r == self.spec_sinh();

    /// The result of `asin`.
    spec fn spec_asin(self) -> Self;

    /// Compute the arcsine.
    fn asin(self) -> (r: Self)
        ensures
            r == self.spec_asin();

    /// The result of `asinh`.
    spec fn spec_asinh(self) -> Self;

    /// Compute the hyperbolic arcsine.
    fn asinh(self) -> (r: Self)
        ensures
            r == self.spec_asinh();

    /// The result of `tan`.
    spec fn spec_tan(self) -> Self;

    /// Compute the tangent.
    fn tan(self) -> (r: Self)
        ensures
            r == self.spec_tan();

    /// The result of `tanh`.
    spec fn spec_tanh(self) -> Self;

    /// Compute the hyperbolic tangent.
    fn tanh(self) -> (r: Self)
        ensures
            r == self.spec_tanh();

    /// The result of `atan`.
    spec fn spec_atan(self) -> Self;

    /// Compute the arctangent.
    fn atan(self) -> (r: Self)
        ensures
            r == self.spec_atan();

    /// The result of `atanh`.
    spec fn spec_atanh(self) -> Self;

    /// Compute the hyperbolic arctangent.
    fn atanh(self) -> (r: Self)
        ensures
            r == self.spec_atanh();

    /// The result of `atan2`.
    spec fn spec_atan2(self, x: Self) -> Self;

    /// Compute the four quadrant arctangent.
    fn atan2(self, x: Self) -> (r: Self)
        ensures
            r == self.spec_atan2(x);

    /// The result of `sqrt`.
    spec fn spec_sqrt(self) -> Self;

    /// Compute the square root.
    fn sqrt(self) -> (r: Self)
        ensures
            r == self.spec_sqrt();

    /// The result of `cbrt`.
    spec fn spec_cbrt(self) -> Self;

    /// Compute the cubic root.
    fn cbrt(self) -> (r: Self)
        ensures
            r == self.spec_cbrt();

    /// The result of `hypot`.
    spec fn spec_hypot(self, other: Self) -> Self;

    /// Compute the distance between the origin and a point (`self`, `other`) on the Euclidean plane.
    fn hypot(self, other: Self) -> (r: Self)
        ensures
            r == self.spec_hypot(other);

    /// The result of `floor`.
    spec fn spec_floor(self) -> Self;

    /// Compute the largest integer less than or equal to `self`.
    fn floor(self) -> (r: Self)
        ensures
            r == self.spec_floor();

    /// The result of `round`.
    spec fn spec_round(self) -> Self;

    /// Returns the nearest integer to `self`. If a value is half-way between two integers, round away from `0.0`.
    fn round(self) -> (r: Self)
        ensures
            r == self.spec_round();

    /// The result of `ceil`.
    spec fn spec_ceil(self) -> Self;

    /// Compute the smallest integer greater than or equal to `self`.
    fn ceil(self) -> (r: Self)
        ensures
            r == self.spec_ceil();

    /// The result of `is_nan`.
    spec fn spec_is_nan(self) -> bool;

    /// Returns true if `self` is not a number.
    fn is_nan(self) -> (r: bool)
        ensures
            r == self.spec_is_nan();

    /// The result of `is_finite`.
    spec fn spec_is_finite(self) -> bool;

    /// Returns true if `self` is finite.
    fn is_finite(self) -> (r: bool)
        ensures
            r == self.spec_is_finite();

    /// The result of `is_infinite`.
    spec fn spec_is_infinite(self) -> bool;

    /// Returns true if `self` is infinite.
    fn is_infinite(self) -> (r: bool)
        ensures
            r == self.spec_is_infinite();

    /// The result of `is_normal`.
    spec fn spec_is_normal(self) -> bool;

    /// Returns true if `self` is normal.
    fn is_normal(self) -> (r: bool)
        ensures
            r == self.spec_is_normal();

    /// The result of `abs`.
    spec fn spec_abs(self) -> Self;

    /// Returns the absolute value of self.
    fn abs(self) -> (r: Self)
        ensures
            r == self.spec_abs();

    /// The result of `min`.
    spec fn spec_min(self, other: Self) -> Self;

    /// Returns the minimum of the two numbers, ignoring NaN.
    fn min(self, other: Self) -> (r: Self)
        ensures
            r == self.spec_min(other);

    /// The result of `max`.
    spec fn spec_max(self, other: Self) -> Self;

    /// Returns the maximum of the two numbers, ignoring NaN.
    fn max(self, other: Self) -> (r: Self)
        ensures
            r == self.spec_max(other);
}

} // verus!
