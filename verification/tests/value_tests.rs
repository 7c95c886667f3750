use evalexpr::ffi::Error;
use evalexpr::comparison::compare_values;
use std::cmp::Ordering;
use evalexpr::expression_functions::{abs, is_null, max, min, safe_divide, starts_with};
use evalexpr::math_functions::{atan, pow, sqrt};
use evalexpr::numeric::{EvalexprFloat, LiteralText};
use evalexpr::value::Value;
use evalexpr::templates::{RollingZScore, ZScoreColumns, ZScoreWindow};
use evalexpr::row_functions::{triangular_moving_average, back, columns_len, rolling_min, rolling_stdev, simple_cumulative_returns, simple_cumulative_sum, simple_moving_average};
use evalexpr::bucket_functions::{bucket_2, bucket_2_desc, bucket_3, bucket_3_desc, bucket_4, bucket_5, bucket_5_desc};

/// `f64` as the float type of the tests.
#[derive(Clone, Copy, Debug, PartialEq)]
struct F64(f64);

impl EvalexprFloat for F64 {
    fn from_float_literal(literal: &str) -> Self {
        F64(literal.parse::<f64>().unwrap())
    }
    fn from_int(value: i64) -> Self {
        F64(value as f64)
    }
    fn to_int(self) -> i64 {
        self.0 as i64
    }
    fn to_display_string(self) -> String {
        format!("{}", self.0)
    }
    fn min_value() -> Self {
        F64(f64::NEG_INFINITY)
    }
    fn max_value() -> Self {
        F64(f64::INFINITY)
    }
    fn add(self, other: Self) -> Self {
        F64(self.0 + other.0)
    }
    fn sub(self, other: Self) -> Self {
        F64(self.0 - other.0)
    }
    fn mul(self, other: Self) -> Self {
        F64(self.0 * other.0)
    }
    fn div(self, other: Self) -> Self {
        F64(self.0 / other.0)
    }
    fn rem(self, other: Self) -> Self {
        F64(self.0 % other.0)
    }
    fn neg(self) -> Self {
        F64(-self.0)
    }
    fn float_eq(self, other: Self) -> bool {
        self.0 == other.0
    }
    fn float_lt(self, other: Self) -> bool {
        self.0 < other.0
    }
    fn float_le(self, other: Self) -> bool {
        self.0 <= other.0
    }
    fn pow(self, exponent: Self) -> Self {
        F64(self.0.powf(exponent.0))
    }
    fn powi(self, exponent: i32) -> Self {
        F64(self.0.powi(exponent))
    }
    fn ln(self) -> Self {
        F64(self.0.ln())
    }
    fn log(self, base: Self) -> Self {
        F64(self.0.log(base.0))
    }
    fn log2(self) -> Self {
        F64(self.0.log2())
    }
    fn log10(self) -> Self {
        F64(self.0.log10())
    }
    fn exp(self) -> Self {
        F64(self.0.exp())
    }
    fn exp2(self) -> Self {
        F64(self.0.exp2())
    }
    fn cos(self) -> Self {
        F64(self.0.cos())
    }
    fn cosh(self) -> Self {
        F64(self.0.cosh())
    }
    fn acos(self) -> Self {
        F64(self.0.acos())
    }
    fn acosh(self) -> Self {
        F64(self.0.acosh())
    }
    fn sin(self) -> Self {
        F64(self.0.sin())
    }
    fn sinh(self) -> Self {
        F64(self.0.sinh())
    }
    fn asin(self) -> Self {
        F64(self.0.asin())
    }
    fn asinh(self) -> Self {
        F64(self.0.asinh())
    }
    fn tan(self) -> Self {
        F64(self.0.tan())
    }
    fn tanh(self) -> Self {
        F64(self.0.tanh())
    }
    fn atan(self) -> Self {
        F64(self.0.atan())
    }
    fn atanh(self) -> Self {
        F64(self.0.atanh())
    }
    fn atan2(self, x: Self) -> Self {
        F64(self.0.atan2(x.0))
    }
    fn sqrt(self) -> Self {
        F64(self.0.sqrt())
    }
    fn cbrt(self) -> Self {
        F64(self.0.cbrt())
    }
    fn hypot(self, other: Self) -> Self {
        F64(self.0.hypot(other.0))
    }
    fn floor(self) -> Self {
        F64(self.0.floor())
    }
    fn round(self) -> Self {
        F64(self.0.round())
    }
    fn ceil(self) -> Self {
        F64(self.0.ceil())
    }
    fn is_nan(self) -> bool {
        self.0.is_nan()
    }
    fn is_finite(self) -> bool {
        self.0.is_finite()
    }
    fn is_infinite(self) -> bool {
        self.0.is_infinite()
    }
    fn is_normal(self) -> bool {
        self.0.is_normal()
    }
    fn abs(self) -> Self {
        F64(self.0.abs())
    }
    fn min(self, other: Self) -> Self {
        F64(self.0.min(other.0))
    }
    fn max(self, other: Self) -> Self {
        F64(self.0.max(other.0))
    }

    // The spec functions of the trait, each as the operation it describes.
    fn spec_from_float_literal(_literal: LiteralText) -> Self {
        unreachable!("spec functions are not called at run time")
    }
    fn spec_to_display_string(self) -> LiteralText {
        unreachable!("spec functions are not called at run time")
    }
    fn spec_from_int(value: i64) -> Self {
        Self::from_int(value)
    }
    fn spec_to_int(self) -> i64 {
        Self::to_int(self)
    }
    fn spec_min_value() -> Self {
        Self::min_value()
    }
    fn spec_max_value() -> Self {
        Self::max_value()
    }
    fn spec_add(self, other: Self) -> Self {
        Self::add(self, other)
    }
    fn spec_sub(self, other: Self) -> Self {
        Self::sub(self, other)
    }
    fn spec_mul(self, other: Self) -> Self {
        Self::mul(self, other)
    }
    fn spec_div(self, other: Self) -> Self {
        Self::div(self, other)
    }
    fn spec_rem(self, other: Self) -> Self {
        Self::rem(self, other)
    }
    fn spec_neg(self) -> Self {
        Self::neg(self)
    }
    fn spec_float_eq(self, other: Self) -> bool {
        Self::float_eq(self, other)
    }
    fn spec_float_lt(self, other: Self) -> bool {
        Self::float_lt(self, other)
    }
    fn spec_float_le(self, other: Self) -> bool {
        Self::float_le(self, other)
    }
    fn spec_pow(self, exponent: Self) -> Self {
        Self::pow(self, exponent)
    }
    fn spec_powi(self, exponent: i32) -> Self {
        Self::powi(self, exponent)
    }
    fn spec_ln(self) -> Self {
        Self::ln(self)
    }
    fn spec_log(self, base: Self) -> Self {
        Self::log(self, base)
    }
    fn spec_log2(self) -> Self {
        Self::log2(self)
    }
    fn spec_log10(self) -> Self {
        Self::log10(self)
    }
    fn spec_exp(self) -> Self {
        Self::exp(self)
    }
    fn spec_exp2(self) -> Self {
        Self::exp2(self)
    }
    fn spec_cos(self) -> Self {
        Self::cos(self)
    }
    fn spec_cosh(self) -> Self {
        Self::cosh(self)
    }
    fn spec_acos(self) -> Self {
        Self::acos(self)
    }
    fn spec_acosh(self) -> Self {
        Self::acosh(self)
    }
    fn spec_sin(self) -> Self {
        Self::sin(self)
    }
    fn spec_sinh(self) -> Self {
        Self::sinh(self)
    }
    fn spec_asin(self) -> Self {
        Self::asin(self)
    }
    fn spec_asinh(self) -> Self {
        Self::asinh(self)
    }
    fn spec_tan(self) -> Self {
        Self::tan(self)
    }
    fn spec_tanh(self) -> Self {
        Self::tanh(self)
    }
    fn spec_atan(self) -> Self {
        Self::atan(self)
    }
    fn spec_atanh(self) -> Self {
        Self::atanh(self)
    }
    fn spec_atan2(self, x: Self) -> Self {
        Self::atan2(self, x)
    }
    fn spec_sqrt(self) -> Self {
        Self::sqrt(self)
    }
    fn spec_cbrt(self) -> Self {
        Self::cbrt(self)
    }
    fn spec_hypot(self, other: Self) -> Self {
        Self::hypot(self, other)
    }
    fn spec_floor(self) -> Self {
        Self::floor(self)
    }
    fn spec_round(self) -> Self {
        Self::round(self)
    }
    fn spec_ceil(self) -> Self {
        Self::ceil(self)
    }
    fn spec_is_nan(self) -> bool {
        Self::is_nan(self)
    }
    fn spec_is_finite(self) -> bool {
        Self::is_finite(self)
    }
    fn spec_is_infinite(self) -> bool {
        Self::is_infinite(self)
    }
    fn spec_is_normal(self) -> bool {
        Self::is_normal(self)
    }
    fn spec_abs(self) -> Self {
        Self::abs(self)
    }
    fn spec_min(self, other: Self) -> Self {
        Self::min(self, other)
    }
    fn spec_max(self, other: Self) -> Self {
        Self::max(self, other)
    }
}


fn float(f: f64) -> Value<F64> {
    Value::Float(F64(f))
}

#[test]
fn test_value_conversions() {
    assert_eq!(Value::<F64>::from("string".to_string()).as_string(), Ok(String::from("string")));
    assert_eq!(Value::<F64>::from(3).as_int(), Ok(3));
    assert_eq!(Value::from_float(F64(3.3)).as_float(), Ok(F64(3.3)));
    assert_eq!(Value::<F64>::from(true).as_boolean(), Ok(true));
    assert_eq!(Value::<F64>::from(Vec::new()).as_tuple(), Ok(Vec::new()));
}

#[test]
fn test_value_checks() {
    assert!(Value::<F64>::from("string".to_string()).is_string());
    assert!(Value::<F64>::from(3).is_int());
    assert!(Value::from_float(F64(3.3)).is_float());
    assert!(Value::<F64>::from(true).is_boolean());
    assert!(Value::<F64>::from(Vec::new()).is_tuple());
}

#[test]
fn test_add_integers() {
    let a: Value<F64> = Value::Int(10);
    let b = Value::Int(20);
    assert_eq!(a.add_value(&b).unwrap(), Value::Int(30));
}

#[test]
fn test_add_integers_to_add() {
    let a: Value<F64> = Value::Int(10);
    let b = Value::Int(20);
    let c = Value::Int(20);
    assert_eq!(a.add_value(&b).and_then(|x| x.add_value(&c)).unwrap(), Value::Int(50));
}

#[test]
fn test_subtract_floats() {
    let a = float(20.5);
    let b = float(10.25);
    assert_eq!(a.sub_value(&b).unwrap(), float(10.25));
}

#[test]
fn test_multiply_int_float() {
    let a = Value::Int(2);
    let b = float(3.5);
    assert_eq!(a.mul_value(&b).unwrap(), float(7.0));
}

#[test]
fn test_divide_float_by_int() {
    let a = float(10.0);
    let b = Value::Int(2);
    assert_eq!(a.div_value(&b).unwrap(), float(5.0));
}

#[test]
fn test_integer_remainder() {
    let a: Value<F64> = Value::Int(10);
    let b = Value::Int(4);
    assert_eq!(a.rem_value(&b).unwrap(), Value::Int(2));
}

#[test]
fn test_error_on_divide_by_zero() {
    let a: Value<F64> = Value::Int(10);
    let b = Value::Int(0);
    assert!(matches!(a.div_value(&b), Err(Error::DivisionByZero)));
}

#[test]
fn test_error_divide_zero_by_something() {
    let a: Value<F64> = Value::Int(10);
    let b = Value::Int(0);
    assert!(matches!(b.div_value(&a).unwrap(), Value::Int(0)));
}

#[test]
fn test_add_integers_with_refs() {
    let a: Value<F64> = Value::Int(10);
    let b = Value::Int(20);
    assert_eq!((&a).add_value(&b).unwrap(), Value::Int(30));
}

#[test]
fn test_add_integers_to_add_with_refs() {
    let a: Value<F64> = Value::Int(10);
    let b = Value::Int(20);
    let c = Value::Int(20);
    assert_eq!((&a).add_value(&b).unwrap().add_value(&c).unwrap(), Value::Int(50));
}

#[test]
fn test_subtract_floats_with_refs() {
    let a = float(20.5);
    let b = float(10.25);
    assert_eq!((&a).sub_value(&b).unwrap(), float(10.25));
}

#[test]
fn test_multiply_int_float_with_refs() {
    let a = Value::Int(2);
    let b = float(3.5);
    assert_eq!((&a).mul_value(&b).unwrap(), float(7.0));
}

#[test]
fn test_divide_float_by_int_with_refs() {
    let a = float(10.0);
    let b = Value::Int(2);
    assert_eq!((&a).div_value(&b).unwrap(), float(5.0));
}

#[test]
fn test_integer_remainder_with_refs() {
    let a: Value<F64> = Value::Int(10);
    let b = Value::Int(4);
    assert_eq!((&a).rem_value(&b).unwrap(), Value::Int(2));
}

#[test]
fn test_error_on_divide_by_zero_with_refs() {
    let a: Value<F64> = Value::Int(10);
    let b = Value::Int(0);
    assert!(matches!((&a).div_value(&b), Err(Error::DivisionByZero)));
}

#[test]
fn test_add_ref_and_value() {
    let a: Value<F64> = Value::Int(10);
    let b = Value::Int(20);
    assert_eq!((&a).add_value(&b.clone()).unwrap(), Value::Int(30));
    assert_eq!(a.add_value(&b).unwrap(), Value::Int(30));
}

#[test]
fn test_subtract_ref_and_value() {
    let a = float(20.5);
    let b = float(10.25);
    assert_eq!((&a).sub_value(&b.clone()).unwrap(), float(10.25));
    assert_eq!(a.sub_value(&b).unwrap(), float(10.25));
}

#[test]
fn test_multiply_ref_and_value() {
    let a = Value::Int(2);
    let b = float(3.5);
    assert_eq!((&a).mul_value(&b.clone()).unwrap(), float(7.0));
    assert_eq!(a.mul_value(&b).unwrap(), float(7.0));
}

#[test]
fn test_divide_ref_and_value() {
    let a = float(10.0);
    let b = Value::Int(2);
    assert_eq!((&a).div_value(&b.clone()).unwrap(), float(5.0));
    assert_eq!(a.div_value(&b).unwrap(), float(5.0));
}

#[test]
fn test_remainder_ref_and_value() {
    let a: Value<F64> = Value::Int(10);
    let b = Value::Int(4);
    assert_eq!((&a).rem_value(&b.clone()).unwrap(), Value::Int(2));
    assert_eq!(a.rem_value(&b).unwrap(), Value::Int(2));
}

#[test]
fn test_error_on_divide_by_zero_ref_and_value() {
    let a: Value<F64> = Value::Int(10);
    let b = Value::Int(0);
    assert!(matches!((&a).div_value(&b.clone()), Err(Error::DivisionByZero)));
    assert!(matches!(a.div_value(&b), Err(Error::DivisionByZero)));
}

#[test]
fn empty_value_absorbs_the_other_operand() {
    let e: Value<F64> = Value::Empty;
    assert_eq!(e.add_value(&Value::Int(3)).unwrap(), Value::Empty);
    assert_eq!(Value::Int(3).sub_value(&e).unwrap(), Value::Empty);
    assert_eq!(e.div_value(&Value::Int(0)).unwrap(), Value::Empty);
}

#[test]
fn integer_beside_a_string_comes_first() {
    let s: Value<F64> = Value::String("x".to_string());
    assert_eq!(s.add_value(&Value::Int(12)).unwrap(), Value::String("12x".to_string()));
    assert_eq!(Value::Int(12).add_value(&s).unwrap(), Value::String("12x".to_string()));
    assert_eq!(s.add_value(&Value::String("y".to_string())).unwrap(), Value::String("xy".to_string()));
}

#[test]
fn integer_division_truncates_and_remainder_follows_it() {
    let a: Value<F64> = Value::Int(-7);
    assert_eq!(a.div_value(&Value::Int(2)).unwrap(), Value::Int(-3));
    assert_eq!(a.rem_value(&Value::Int(2)).unwrap(), Value::Int(-1));
}

#[test]
fn unsupported_operands_are_refused() {
    let t: Value<F64> = Value::Boolean(true);
    assert!(matches!(t.add_value(&Value::Int(1)), Err(Error::UnsupportedArithmeticBetweenTypes)));
    assert!(matches!(t.neg_value(), Err(Error::UnsupportedArithmeticBetweenTypes)));
    assert_eq!(Value::<F64>::Int(5).neg_value().unwrap(), Value::Int(-5));
}

#[test]
fn float_division_by_zero_is_refused() {
    assert!(matches!(Value::Int(1).div_value(&float(0.0)), Err(Error::DivisionByZero)));
    assert!(matches!(float(1.0).div_value(&Value::Int(0)), Err(Error::DivisionByZero)));
}

#[test]
fn error_texts() {
    assert_eq!(Error::DivisionByZero.to_display_string(), "Division by zero");
    assert_eq!(Error::CustomError("boom".to_string()).to_display_string(), "Custom error: boom");
}

#[test]
fn test_sqrt_with_positive_float() {
    let value = float(4.0);
    let result = sqrt(value).unwrap();
    assert_eq!(result, float(2.0));
}

#[test]
fn test_sqrt_with_positive_integer() {
    let value = Value::Int(16);
    let result = sqrt::<F64>(value).unwrap();
    assert_eq!(result, float(4.0));
}

#[test]
fn test_sqrt_with_zero() {
    let value = Value::Int(0);
    let result = sqrt::<F64>(value).unwrap();
    assert_eq!(result, float(0.0));
}

#[test]
fn test_sqrt_with_negative_float() {
    let value = float(-4.0);
    let result = sqrt(value);
    assert!(result.is_err());
    if let Err(Error::InvalidArgumentType) = result {
    } else {
        panic!("Expected Error::InvalidArgumentType");
    }
}

#[test]
fn test_sqrt_with_negative_integer() {
    let value = Value::Int(-16);
    let result = sqrt::<F64>(value);
    assert!(result.is_err());
    if let Err(Error::InvalidArgumentType) = result {
    } else {
        panic!("Expected Error::InvalidArgumentType");
    }
}

#[test]
fn test_sqrt_with_empty_value() {
    let value = Value::Empty;
    let result = sqrt::<F64>(value).unwrap();
    assert_eq!(result, Value::Empty);
}

#[test]
fn test_sqrt_invalid_conversion() {
    let value = Value::String("invalid".to_owned());
    let result = sqrt::<F64>(value);
    assert!(result.is_err());
}

#[test]
fn test_pow_with_floats() {
    let base = float(2.0);
    let exp = float(3.0);
    let result = pow(base, exp).unwrap();
    assert_eq!(result, float(8.0));
}

#[test]
fn test_pow_with_integers() {
    let base = Value::Int(2);
    let exp = Value::Int(3);
    let result = pow::<F64>(base, exp).unwrap();
    assert_eq!(result, Value::Int(8));
}

#[test]
fn test_pow_float_base_integer_exp() {
    let base = float(2.0);
    let exp = Value::Int(3);
    let result = pow(base, exp).unwrap();
    assert_eq!(result, float(8.0));
}

#[test]
fn test_pow_integer_base_float_exp() {
    let base = Value::Int(2);
    let exp = float(3.0);
    let result = pow(base, exp).unwrap();
    assert_eq!(result, float(8.0));
}

#[test]
fn test_pow_with_zero_exponent() {
    let base = Value::Int(5);
    let exp = Value::Int(0);
    let result = pow::<F64>(base, exp).unwrap();
    assert_eq!(result, Value::Int(1));
}

#[test]
fn test_pow_with_zero_base() {
    let base = Value::Int(0);
    let exp = Value::Int(5);
    let result = pow::<F64>(base, exp).unwrap();
    assert_eq!(result, Value::Int(0));
}

#[test]
fn test_pow_with_negative_exponent() {
    let base = float(2.0);
    let exp = Value::Int(-3);
    let result = pow(base, exp).unwrap();
    assert_eq!(result, float(0.125));
}

#[test]
fn test_pow_invalid_argument_type() {
    let base = Value::Empty;
    let exp = Value::Int(2);
    let result = pow::<F64>(base, exp);
    assert!(result.is_err());
    if let Err(Error::InvalidArgumentType) = result {
    } else {
        panic!("Expected Error::InvalidArgumentType");
    }
}

#[test]
fn test_pow_invalid_conversion() {
    let base = Value::String("invalid".to_owned());
    let exp = Value::Int(2);
    let result = pow::<F64>(base, exp.clone());
    assert!(result.is_err());
}

#[test]
fn test_atan_with_positive_float() {
    let value = float(1.0);
    let result = atan(value).unwrap();
    assert_eq!(result, float(1.0f64.atan()));
}

#[test]
fn test_atan_with_positive_integer() {
    let value = Value::Int(1);
    let result = atan::<F64>(value).unwrap();
    assert_eq!(result, float((1 as f64).atan()));
}

#[test]
fn test_atan_with_zero() {
    let value = Value::Int(0);
    let result = atan::<F64>(value).unwrap();
    assert_eq!(result, float(0.0f64.atan()));
}

#[test]
fn test_atan_with_negative_float() {
    let value = float(-1.0);
    let result = atan(value).unwrap();
    assert_eq!(result, float((-1.0f64).atan()));
}

#[test]
fn test_atan_with_negative_integer() {
    let value = Value::Int(-1);
    let result = atan::<F64>(value).unwrap();
    assert_eq!(result, float((-1 as f64).atan()));
}

#[test]
fn test_atan_with_empty_value() {
    let value = Value::Empty;
    let result = atan::<F64>(value).unwrap();
    assert_eq!(result, Value::Empty);
}

#[test]
fn test_atan_invalid_conversion() {
    let value = Value::String("invalid".to_owned());
    let result = atan::<F64>(value);
    assert!(result.is_err());
}

#[test]
fn expression_functions_on_values() {
    assert_eq!(is_null::<F64>(Value::Empty).unwrap(), Value::Int(0));
    assert_eq!(is_null::<F64>(Value::Int(4)).unwrap(), Value::Int(4));
    assert_eq!(abs::<F64>(Value::Int(-4)).unwrap(), Value::Int(4));
    assert_eq!(abs(float(-1.5)).unwrap(), float(1.5));
    assert!(matches!(abs::<F64>(Value::Boolean(true)), Err(Error::InvalidArgumentType)));
    assert_eq!(safe_divide::<F64>(Value::Int(7), Value::Int(0)).unwrap(), Value::Empty);
    assert_eq!(safe_divide::<F64>(Value::Int(7), Value::Int(2)).unwrap(), Value::Int(3));
    assert_eq!(safe_divide(float(1.0), float(0.0)).unwrap(), Value::Empty);
    assert_eq!(safe_divide(float(1.0), Value::Int(4)).unwrap(), float(0.25));
    assert_eq!(safe_divide::<F64>(Value::Boolean(true), Value::Empty).unwrap(), Value::Empty);
    assert!(matches!(safe_divide::<F64>(Value::Boolean(true), Value::Int(1)), Err(Error::InvalidArgumentType)));
    let hello: Value<F64> = Value::String("hello".to_string());
    assert_eq!(starts_with(&hello, &Value::String("he".to_string())).unwrap(), Value::Boolean(true));
    assert_eq!(starts_with(&hello, &Value::String("lo".to_string())).unwrap(), Value::Boolean(false));
    assert_eq!(starts_with(&hello, &Value::Int(1)).unwrap(), Value::Boolean(false));
    assert_eq!(max::<F64>(Value::Int(1), Value::Int(2)).unwrap(), Value::Int(2));
    assert_eq!(min::<F64>(Value::Int(1), Value::Int(2)).unwrap(), Value::Int(1));
    assert_eq!(max::<F64>(Value::Int(1), Value::Empty).unwrap(), Value::Int(1));
    assert_eq!(max::<F64>(Value::Empty, Value::Int(1)).unwrap(), Value::Empty);
    assert_eq!(max(Value::Int(3), float(2.5)).unwrap(), Value::Int(3));
    let a: Value<F64> = Value::Int(5);
    let e: Value<F64> = Value::Empty;
    assert_eq!(evalexpr::is_null::is_null(&e), &Value::Int(0));
    assert_eq!(evalexpr::is_null::is_null(&a), &Value::Int(5));
    assert_eq!(evalexpr::is_null::max(&a, &Value::Int(9)), &Value::Int(9));
    assert_eq!(evalexpr::is_null::min(&a, &Value::Int(9)), &Value::Int(5));
}

#[test]
fn values_compare() {
    assert_eq!(compare_values::<F64>(&Value::Int(1), &Value::Int(2)), Some(Ordering::Less));
    assert_eq!(compare_values(&float(2.0), &Value::Int(2)), Some(Ordering::Equal));
    assert_eq!(compare_values::<F64>(&Value::String("b".into()), &Value::String("a".into())), Some(Ordering::Greater));
    assert_eq!(compare_values::<F64>(&Value::Empty, &Value::Int(2)), Some(Ordering::Greater));
    assert_eq!(compare_values::<F64>(&Value::Int(2), &Value::Boolean(true)), None);
    assert!(Value::<F64>::Int(2).equals(&float(2.0)));
    assert!(!Value::<F64>::Tuple(vec![]).equals(&Value::Tuple(vec![])));
}

#[test]
fn test_bucket_2() {
    let stop_1: Value<F64> = Value::Int(10);
    let stop_2 = Value::Int(20);

    assert_eq!(bucket_2(Value::Int(5), stop_1.clone(), stop_2.clone()).unwrap(), Value::Int(0));
    assert_eq!(bucket_2(Value::Int(15), stop_1.clone(), stop_2.clone()).unwrap(), Value::Int(1));
    assert_eq!(bucket_2(Value::Int(25), stop_1.clone(), stop_2.clone()).unwrap(), Value::Int(2));
}

#[test]
fn test_bucket_2_desc() {
    let stop_1: Value<F64> = Value::Int(10);
    let stop_2 = Value::Int(20);

    assert_eq!(bucket_2_desc(Value::Int(5), stop_1.clone(), stop_2.clone()).unwrap(), Value::String("<= 10".into()));
    assert_eq!(bucket_2_desc(Value::Int(15), stop_1.clone(), stop_2.clone()).unwrap(), Value::String("10 - 20".into()));
    assert_eq!(bucket_2_desc(Value::Int(25), stop_1.clone(), stop_2.clone()).unwrap(), Value::String("> 20".into()));
}

#[test]
fn test_bucket_3() {
    let stop_1: Value<F64> = Value::Int(10);
    let stop_2 = Value::Int(20);
    let stop_3 = Value::Int(30);

    assert_eq!(bucket_3(Value::Int(5), stop_1.clone(), stop_2.clone(), stop_3.clone()).unwrap(), Value::Int(0));
    assert_eq!(bucket_3(Value::Int(15), stop_1.clone(), stop_2.clone(), stop_3.clone()).unwrap(), Value::Int(1));
    assert_eq!(bucket_3(Value::Int(25), stop_1.clone(), stop_2.clone(), stop_3.clone()).unwrap(), Value::Int(2));
    assert_eq!(bucket_3(Value::Int(35), stop_1.clone(), stop_2.clone(), stop_3.clone()).unwrap(), Value::Int(3));
}

#[test]
fn test_bucket_3_desc() {
    let stop_1: Value<F64> = Value::Int(10);
    let stop_2 = Value::Int(20);
    let stop_3 = Value::Int(30);

    assert_eq!(bucket_3_desc(Value::Int(5), stop_1.clone(), stop_2.clone(), stop_3.clone()).unwrap(), Value::String("<= 10".into()));
    assert_eq!(bucket_3_desc(Value::Int(15), stop_1.clone(), stop_2.clone(), stop_3.clone()).unwrap(), Value::String("10 - 20".into()));
    assert_eq!(bucket_3_desc(Value::Int(25), stop_1.clone(), stop_2.clone(), stop_3.clone()).unwrap(), Value::String("20 - 30".into()));
    assert_eq!(bucket_3_desc(Value::Int(35), stop_1.clone(), stop_2.clone(), stop_3.clone()).unwrap(), Value::String("> 30".into()));
}

#[test]
fn test_bucket_5_desc_with_float_stops() {
    let stop_1 = Value::Float(F64(10.5));
    let stop_2 = Value::Float(F64(20.5));
    let stop_3 = Value::Float(F64(30.5));
    let stop_4 = Value::Float(F64(40.5));
    let stop_5 = Value::Float(F64(50.5));

    assert_eq!(
        bucket_5_desc(Value::Int(5), stop_1.clone(), stop_2.clone(), stop_3.clone(), stop_4.clone(), stop_5.clone()).unwrap(),
        Value::String("<= 10.5".into())
    );
    assert_eq!(
        bucket_5_desc(Value::Int(15), stop_1.clone(), stop_2.clone(), stop_3.clone(), stop_4.clone(), stop_5.clone()).unwrap(),
        Value::String("10.5 - 20.5".into())
    );
    assert_eq!(
        bucket_5_desc(Value::Int(25), stop_1.clone(), stop_2.clone(), stop_3.clone(), stop_4.clone(), stop_5.clone()).unwrap(),
        Value::String("20.5 - 30.5".into())
    );
    assert_eq!(
        bucket_5_desc(Value::Int(35), stop_1.clone(), stop_2.clone(), stop_3.clone(), stop_4.clone(), stop_5.clone()).unwrap(),
        Value::String("30.5 - 40.5".into())
    );
    assert_eq!(
        bucket_5_desc(Value::Int(45), stop_1.clone(), stop_2.clone(), stop_3.clone(), stop_4.clone(), stop_5.clone()).unwrap(),
        Value::String("40.5 - 50.5".into())
    );
    assert_eq!(
        bucket_5_desc(Value::Int(55), stop_1.clone(), stop_2.clone(), stop_3.clone(), stop_4.clone(), stop_5.clone()).unwrap(),
        Value::String("> 50.5".into())
    );
}

#[test]
fn test_invalid_stops() {
    let stop_1: Value<F64> = Value::Int(20);
    let stop_2 = Value::Int(10);

    let result = bucket_2(stop_1.clone(), stop_1.clone(), stop_2.clone());
    assert!(result.is_err());

    let desc_result = bucket_2_desc(stop_1.clone(), stop_1.clone(), stop_2.clone());
    assert!(desc_result.is_err());
}

#[test]
fn bucket_edges() {
    let stops: [Value<F64>; 4] = [Value::Int(1), Value::Int(2), Value::Int(2), Value::Int(4)];
    // A value equal to a stop falls into that stop's bucket; equal stops are in order.
    assert_eq!(bucket_4(Value::Int(2), stops[0].clone(), stops[1].clone(), stops[2].clone(), stops[3].clone()).unwrap(), Value::Int(1));
    assert_eq!(bucket_4(Value::Int(3), stops[0].clone(), stops[1].clone(), stops[2].clone(), stops[3].clone()).unwrap(), Value::Int(3));
    // The empty value is greater than any stop.
    assert_eq!(bucket_5(Value::<F64>::Empty, Value::Int(1), Value::Int(2), Value::Int(3), Value::Int(4), Value::Int(5)).unwrap(), Value::Int(5));
    assert!(matches!(
        bucket_3(Value::<F64>::Int(0), Value::Int(1), Value::Int(3), Value::Int(2)),
        Err(Error::CustomError(m)) if m == "Stops must be in ascending order"
    ));
}

#[test]
    fn test_rolling_min_basic_case() {
        let row = vec![
            Value::Float(F64(10.0)),
            Value::Float(F64(12.0)),
            Value::Float(F64(23.0)),
            Value::Float(F64(23.0)),
            Value::Float(F64(16.0)),
            Value::Float(F64(23.0)),
            Value::Float(F64(21.0)),
            Value::Float(F64(16.0)),
        ];
        let columns = vec![0, 1, 2, 3, 4, 5, 6, 7];
        let result = rolling_min(&row, &columns).unwrap();

        assert_eq!(result, Value::Float(F64(10.0)), "Expected min value to be 10.0");
    }

    #[test]
    fn test_rolling_min_with_empty_values() {
        let row = vec![
            Value::Float(F64(0.1)),
            Value::Empty,
            Value::Float(F64(0.3)),
            Value::Empty,
            Value::Float(F64(0.5)),
        ];
        let columns = vec![0, 1, 2, 3, 4];
        let result = rolling_min(&row, &columns).unwrap();

        assert_eq!(result, Value::Float(F64(0.1)), "Expected min value to be 0.1");
    }

    #[test]
    fn test_rolling_min_mixed_values() {
        let row = vec![
            Value::Float(F64(1.0)),
            Value::Int(3),
            Value::Float(F64(4.0)),
            Value::Int(2),
            Value::Float(F64(5.0)),
        ];
        let columns = vec![0, 1, 2, 3, 4];
        let result = rolling_min(&row, &columns).unwrap();

        assert_eq!(result, Value::Float(F64(1.0)), "Expected min value to be 1.0");
    }

    #[test]
    fn test_rolling_min_empty_columns() {
        let row = vec![
            Value::Float(F64(1.0)),
            Value::Int(3),
            Value::Float(F64(4.0)),
        ];
        let columns: Vec<usize> = vec![];
        let result = rolling_min(&row, &columns).unwrap();

        assert_eq!(result, Value::Empty, "Expected an Empty value when no columns are provided");
    }

    #[test]
    fn test_rolling_min_single_value() {
        let row = vec![
            Value::Float(F64(2.5)),
        ];
        let columns = vec![0];
        let result = rolling_min(&row, &columns).unwrap();

        assert_eq!(result, Value::Float(F64(2.5)), "Expected min value to be 2.5 when only one value is provided");
    }

    #[test]
    fn test_rolling_min_all_empty_values() {
        let row: Vec<Value<F64>> = vec![
            Value::Empty,
            Value::Empty,
            Value::Empty,
        ];
        let columns = vec![0, 1, 2];
        let result = rolling_min(&row, &columns).unwrap();

        assert_eq!(result, Value::Empty, "Expected an Empty value when all columns contain Empty values");
    }

    #[test]
    fn test_rolling_min_negative_and_positive_values() {
        let row = vec![
            Value::Float(F64(-10.0)),
            Value::Float(F64(12.0)),
            Value::Float(F64(-23.0)),
            Value::Float(F64(23.0)),
            Value::Float(F64(-16.0)),
        ];
        let columns = vec![0, 1, 2, 3, 4];
        let result = rolling_min(&row, &columns).unwrap();

        assert_eq!(result, Value::Float(F64(-23.0)), "Expected min value to be -23.0");
    }

#[test]
    fn test_rolling_stdev_basic_case() {
        let row = vec![
            Value::Float(F64(10.0)),
            Value::Float(F64(12.0)),
            Value::Float(F64(23.0)),
            Value::Float(F64(23.0)),
            Value::Float(F64(16.0)),
            Value::Float(F64(23.0)),
            Value::Float(F64(21.0)),
            Value::Float(F64(16.0)),
        ];
        let columns = vec![0, 1, 2, 3, 4, 5, 6, 7];
        let result = rolling_stdev(&row, &columns).unwrap();

        if let Value::Float(F64(stdev)) = result {
            assert!((stdev - 4.899).abs() < 1e-3, "Expected stdev to be approximately 4.899, got {}", stdev);
        } else {
            panic!("Expected a Float value");
        }
    }

    #[test]
    fn test_rolling_stdev_mixed_values() {
        let row = vec![
            Value::Float(F64(1.0)),
            Value::Int(3),
            Value::Float(F64(4.0)),
            Value::Int(2),
            Value::Float(F64(5.0)),
        ];
        let columns = vec![0, 1, 2, 3, 4];
        let result = rolling_stdev(&row, &columns).unwrap();

        if let Value::Float(F64(stdev)) = result {
            assert!((stdev - 1.414).abs() < 1e-3, "Expected stdev to be approximately 1.414, got {}", stdev);
        } else {
            panic!("Expected a Float value");
        }
    }

    #[test]
    fn test_rolling_stdev_with_empty_values() {
        let row = vec![
            Value::Float(F64(0.1)),
            Value::Empty,
            Value::Float(F64(0.3)),
            Value::Empty,
            Value::Float(F64(0.5)),
        ];
        let columns = vec![0, 1, 2, 3, 4];
        let result = rolling_stdev(&row, &columns).unwrap();

        if let Value::Float(F64(stdev)) = result {
            assert!((stdev - 0.163).abs() < 1e-3, "Expected stdev to be approximately 0.163, got {}", stdev);
        } else {
            panic!("Expected a Float value");
        }
    }

    #[test]
    fn test_rolling_stdev_empty_columns() {
        let row = vec![
            Value::Float(F64(1.0)),
            Value::Int(3),
            Value::Float(F64(4.0)),
        ];
        let columns: Vec<usize> = vec![];
        let result = rolling_stdev(&row, &columns).unwrap();

        assert_eq!(result, Value::Empty, "Expected an Empty value when no columns are provided");
    }

    #[test]
    fn test_rolling_stdev_single_value() {
        let row = vec![
            Value::Float(F64(2.5)),
        ];
        let columns = vec![0];
        let result = rolling_stdev(&row, &columns).unwrap();

        assert_eq!(result, Value::Float(F64(0.0)), "Expected stdev to be 0.0 when only one value is provided");
    }

    #[test]
    fn test_rolling_stdev_all_empty_values() {
        let row: Vec<Value<F64>> = vec![
            Value::Empty,
            Value::Empty,
            Value::Empty,
        ];
        let columns = vec![0, 1, 2];
        let result = rolling_stdev(&row, &columns).unwrap();

        assert_eq!(result, Value::Empty, "Expected an Empty value when all columns contain Empty values");
    }

#[test]
    fn test_simple_cumulative_returns_normal_operation() {
        let row = vec![Value::Float(F64(0.1)), Value::Float(F64(0.2)), Value::Float(F64(0.3))];
        let columns = vec![0, 1, 2];
        let result = simple_cumulative_returns(&row, &columns).unwrap();
        assert_eq!(result, Value::Float(F64(1.1 * 1.2 * 1.3 - 1.0)));
    }

    #[test]
    fn test_simple_cumulative_returns_partial_data() {
        let row = vec![Value::Float(F64(0.1)), Value::Empty, Value::Float(F64(0.3))];
        let columns = vec![0, 1, 2];
        let result = simple_cumulative_returns(&row, &columns).unwrap();
        assert_eq!(result, Value::Float(F64(1.1 * 1.3 - 1.0)));
    }

    #[test]
    fn test_simple_cumulative_returns_empty_input() {
        let row: Vec<Value<F64>> = vec![];
        let columns: Vec<usize> = vec![];
        let result = simple_cumulative_returns(&row, &columns).unwrap();
        assert_eq!(result, Value::Empty);
    }

    #[test]
    fn test_simple_cumulative_returns_no_valid_columns() {
        let row: Vec<Value<F64>> = vec![Value::Empty, Value::Empty];
        let columns = vec![0, 1];
        let result = simple_cumulative_returns(&row, &columns).unwrap();
        assert_eq!(result, Value::Float(F64(0.0))); // Assuming no valid data means a return of 0.0
    }

    #[test]
    fn test_simple_cumulative_returns_mixed_data_types() {
        let row = vec![Value::Float(F64(0.1)), Value::Int(2), Value::Float(F64(-0.1))];
        let columns = vec![0, 1, 2];
        let result = simple_cumulative_returns(&row, &columns).unwrap();
        assert_eq!(result, Value::Float(F64(1.1 * 3.0 * 0.9 - 1.0)));
    }

#[test]
    fn test_simple_cumulative_sum_normal_operation() {
        let row = vec![Value::Float(F64(10.0)), Value::Float(F64(20.0)), Value::Float(F64(30.0)), Value::Float(F64(40.0))];
        let columns = vec![0, 1, 2, 3];
        let result = simple_cumulative_sum(&row, &columns).unwrap();
        assert_eq!(result, Value::Float(F64(100.0)));
    }

    #[test]
    fn test_simple_cumulative_sum_partial_data() {
        let row = vec![Value::Float(F64(10.0)), Value::Empty, Value::Float(F64(30.0)), Value::Empty];
        let columns = vec![0, 1, 2, 3];
        let result = simple_cumulative_sum(&row, &columns).unwrap();
        assert_eq!(result, Value::Float(F64(40.0)));
    }

    #[test]
    fn test_simple_cumulative_sum_empty_input() {
        let row: Vec<Value<F64>> = vec![];
        let columns: Vec<usize> = vec![];
        let result = simple_cumulative_sum(&row, &columns).unwrap();
        assert_eq!(result, Value::Empty);
    }

    #[test]
    fn test_simple_cumulative_sum_no_valid_columns() {
        let row: Vec<Value<F64>> = vec![Value::Empty, Value::Empty];
        let columns = vec![0, 1];
        let result = simple_cumulative_sum(&row, &columns).unwrap();
        assert_eq!(result, Value::Float(F64(0.0))); // Assuming Value::Float(F64(0.0)) for no valid data
    }

#[test]
    fn test_simple_moving_average_normal_operation() {
        let row = vec![Value::Float(F64(10.0)), Value::Float(F64(20.0)), Value::Float(F64(30.0)), Value::Float(F64(40.0))];
        let columns = vec![0, 1, 2, 3];
        let result = simple_moving_average(&row, &columns).unwrap();
        assert_eq!(result, Value::Float(F64(25.0)));
    }

    #[test]
    fn test_simple_moving_average_partial_data() {
        let row = vec![Value::Float(F64(10.0)), Value::Empty, Value::Float(F64(30.0)), Value::Empty];
        let columns = vec![0, 1, 2, 3];
        let result = simple_moving_average(&row, &columns).unwrap();
        assert_eq!(result, Value::Float(F64(20.0)));
    }

    #[test]
    fn test_simple_moving_average_empty_input() {
        let row: Vec<Value<F64>> = vec![];
        let columns: Vec<usize> = vec![];
        let result = simple_moving_average(&row, &columns).unwrap();
        assert_eq!(result, Value::Empty);
    }

    #[test]
    fn test_simple_moving_average_no_valid_columns() {
        let row: Vec<Value<F64>> = vec![Value::Empty, Value::Empty];
        let columns = vec![0, 1];
        let result = simple_moving_average(&row, &columns).unwrap();
        assert_eq!(result, Value::Empty);
    }

    //Time: 4.481µs
    #[test]
    fn simple_moving_average_test_triangular_moving_average_normal_operation() {

        let row = (0..1111111).map(|idx| Value::Float(F64(idx as f64))).collect::<Vec<Value<F64>>>(); // Simple case with enough columns
        let columns = (0..110).collect::<Vec<usize>>(); // Simple case with enough columns
        let start = std::time::Instant::now();
        let result = simple_moving_average(&row, &columns);
        assert!(result.is_ok());
        let value = result.unwrap();
        match value {
            Value::Float(F64(avg)) => {
                // Perform your assertion here based on expected calculation
                // This is just an example; the exact value will depend on your calculation
                assert!(avg > 0.0);
            },
            _ => panic!("Expected Value::Float from TMA calculation"),
        }
        println!("Time: {:?}", start.elapsed());
    }

#[test]
fn row_functions_edges() {
    let row: Vec<Value<F64>> = vec![Value::Int(4), Value::String("x".to_string()), Value::Empty];
    assert_eq!(columns_len(&row, &[0, 1, 2, 5]).unwrap(), Value::Int(4));
    assert_eq!(back(&row, &[0, 1]).unwrap(), Value::Int(4));
    assert_eq!(back(&row, &[]).unwrap(), Value::Float(F64(100.0)));
    assert!(matches!(back(&row, &[9]), Err(Error::CustomError(m)) if m == "Column 9 not found in row"));
    assert!(matches!(simple_cumulative_sum(&row, &[0, 1]), Err(Error::NonNumericType)));
    assert!(matches!(simple_cumulative_returns(&row, &[1]), Err(Error::NonNumericType)));
    // A column that the row does not have is skipped.
    assert_eq!(simple_cumulative_sum(&row, &[0, 7]).unwrap(), Value::Float(F64(4.0)));
    assert_eq!(rolling_min(&row, &[1, 2, 7]).unwrap(), Value::Empty);
    assert_eq!(simple_moving_average(&row, &[0, 2]).unwrap(), Value::Float(F64(4.0)));
    assert_eq!(rolling_stdev(&row, &[0]).unwrap(), Value::Float(F64(0.0)));
}

#[test]
fn test_triangular_moving_average_normal_operation() {
    let row = (0..1111111).map(|idx| Value::Float(F64(idx as f64))).collect::<Vec<Value<F64>>>();
    let columns = (0..5).collect::<Vec<usize>>();
    let result = triangular_moving_average(&row, &columns);
    assert!(result.is_ok());
    match result.unwrap() {
        Value::Float(F64(avg)) => assert!(avg > 0.0),
        _ => panic!("Expected Value::Float from TMA calculation"),
    }
}

#[test]
fn test_triangular_moving_average_empty_input() {
    let row: Vec<Value<F64>> = vec![];
    let columns: Vec<usize> = vec![];
    let result = triangular_moving_average(&row, &columns);
    assert!(result.is_ok());
    assert_eq!(result.unwrap(), Value::Empty);
}

#[test]
fn test_triangular_moving_average_empty() {
    let row: Vec<Value<F64>> = vec![];
    let columns = vec![];
    let result = triangular_moving_average(&row, &columns).unwrap();
    assert_eq!(result, Value::Empty);
}

#[test]
fn test_triangular_moving_average_with_floats() {
    let row = vec![
        Value::Float(F64(10.5)),
        Value::Float(F64(20.5)),
        Value::Float(F64(30.5)),
        Value::Float(F64(40.5)),
        Value::Float(F64(50.5)),
    ];
    let columns = vec![0, 1, 2, 3, 4];
    let result = triangular_moving_average(&row, &columns).unwrap();
    assert_eq!(result, Value::Float(F64(30.5)));
}

#[test]
fn test_triangular_moving_average_invalid_values() {
    let row: Vec<Value<F64>> = vec![Value::Empty, Value::Int(20), Value::Empty, Value::Int(40), Value::Empty];
    let columns = vec![0, 1, 2, 3, 4];
    let result = triangular_moving_average(&row, &columns).unwrap();
    assert_eq!(result, Value::Float(F64(30.0)));
}

#[test]
fn triangular_moving_average_of_integers() {
    let row: Vec<Value<F64>> = vec![Value::Int(10), Value::Int(20), Value::Int(30), Value::Int(40), Value::Int(50)];
    let result = triangular_moving_average(&row, &[0, 1, 2, 3, 4]).unwrap();
    assert_eq!(result, Value::Float(F64(30.0)));
    assert_eq!(triangular_moving_average(&row, &[0, 1]).unwrap(), Value::Empty);
    let empties: Vec<Value<F64>> = vec![Value::Empty, Value::Empty, Value::Empty];
    assert_eq!(triangular_moving_average(&empties, &[0, 1, 2]).unwrap(), Value::Empty);
}

/// The cells of a row for one z-scored field over `n` rows: its inputs, then its z-scores,
/// averages, standard deviations and has-data flags, each a block of `n` columns.
fn zscore_layout(n: usize) -> ZScoreColumns {
    let block = |b: usize| (b * n..(b + 1) * n).collect::<Vec<usize>>();
    ZScoreColumns { input: block(0), zscore: block(1), avg: block(2), stdev: block(3), has_data: block(4) }
}

/// Runs the z-score over a row holding `inputs` and writes its results back into the row.
fn zscored_row(zscore: &RollingZScore, inputs: Vec<Value<F64>>, cycle_epoch: usize) -> Vec<Value<F64>> {
    let n = inputs.len();
    let mut row: Vec<Value<F64>> = vec![Value::Empty; 5 * n];
    for (i, v) in inputs.into_iter().enumerate() {
        row[i] = v;
    }
    let (out, dirty) = zscore.commit_values(&row, &vec![zscore_layout(n)], n, cycle_epoch).unwrap();
    for c in dirty {
        row[c] = out[c].clone();
    }
    row
}

#[test]
fn rolling_zscore_test_commit_row_basic() {
    let zscore = RollingZScore::new(vec!["price"], 3);
    let row = zscored_row(&zscore, vec![Value::Float(F64(1.0)), Value::Float(F64(3.0)), Value::Float(F64(2.0)), Value::Float(F64(4.0))], 0);
    let n = 4;
    assert!(row[n + 2] != Value::Empty);
    assert!(row[n + 3] != Value::Empty);
    assert_eq!(row[4 * n + 2], Value::Boolean(true));
    assert_eq!(row[4 * n + 3], Value::Boolean(true));
    assert_eq!(row[n], Value::Empty);
    assert_eq!(row[n + 1], Value::Empty);
    assert_eq!(row[n + 2], Value::Float(F64(0f64)));
    assert_eq!(row[n + 3], Value::Float(F64(1.2247448713915896f64)));
}

#[test]
fn test_commit_row_with_nulls() {
    let zscore = RollingZScore::new(vec!["price"], 3);
    let row = zscored_row(&zscore, vec![Value::Float(F64(1.0)), Value::Empty, Value::Float(F64(2.0)), Value::Float(F64(3.0))], 0);
    let n = 4;
    assert!(row[n + 1] == Value::Empty);
    assert!(row[n + 2] != Value::Empty);
    assert!(row[n + 3] != Value::Empty);
    assert_eq!(row[4 * n + 2], Value::Boolean(true));
    assert_eq!(row[4 * n + 3], Value::Boolean(true));
    assert_eq!(row[n + 2], Value::Float(F64(1.414213562373095f64)));
}

#[test]
fn test_commit_row_window_not_full() {
    let zscore = RollingZScore::new(vec!["price"], 3);
    let n = 2;
    let mut row: Vec<Value<F64>> = vec![Value::Empty; 5 * n];
    row[0] = Value::Float(F64(1.0));
    row[1] = Value::Float(F64(3.0));
    let (out, dirty) = zscore.commit_values(&row, &vec![zscore_layout(n)], n, 2).unwrap();
    // The window is never full: nothing is written.
    assert!(dirty.is_empty());
    assert!(out.iter().all(|v| *v == Value::Empty));
}

#[test]
fn test_commit_row_performance() {
    let n = 15000;
    let zscore = RollingZScore::new(vec!["price"], 522);
    let mut row: Vec<Value<F64>> = vec![Value::Empty; 5 * n];
    for i in 1..=n {
        row[i - 1] = Value::Float(F64((i % 10) as f64 + 1.0));
    }
    let columns = vec![zscore_layout(n)];
    let iterations = 10;
    let mut total_duration = 0;
    for _ in 0..iterations {
        let start_time = std::time::Instant::now();
        zscore.commit_values(&row, &columns, n, 0).unwrap();
        total_duration += start_time.elapsed().as_millis();
    }
    let average_duration = total_duration as f64 / iterations as f64;
    println!("Average execution time for commit_row: {} millis", average_duration);
    assert!(average_duration < 1_000_000f64);
}

#[test]
fn zscore_forward_fills_and_carries_its_window_across_fields() {
    let zscore = RollingZScore::new(vec!["a", "b"], 2);
    let n = 3;
    // Two fields side by side: field a in columns 0..15, field b in 15..30.
    let mut row: Vec<Value<F64>> = vec![Value::Empty; 10 * n];
    row[0] = Value::Float(F64(1.0));
    row[2] = Value::Int(5);
    let shifted = |c: ZScoreColumns| ZScoreColumns {
        input: c.input.iter().map(|x| x + 5 * n).collect(),
        zscore: c.zscore.iter().map(|x| x + 5 * n).collect(),
        avg: c.avg.iter().map(|x| x + 5 * n).collect(),
        stdev: c.stdev.iter().map(|x| x + 5 * n).collect(),
        has_data: c.has_data.iter().map(|x| x + 5 * n).collect(),
    };
    let columns = vec![zscore_layout(n), shifted(zscore_layout(n))];
    let (out, dirty) = zscore.commit_values(&row, &columns, n, 0).unwrap();
    // Field a: row 1 repeats the value of row 0, so the window is full from row 1 on.
    assert_eq!(out[4 * n], Value::Empty);
    assert_eq!(out[4 * n + 1], Value::Boolean(true));
    assert_eq!(out[4 * n + 2], Value::Boolean(true));
    assert!(matches!(out[n + 1], Value::Float(_)));
    // Field b has no value at all, but the window is still full from field a: its cells are
    // written empty.
    for i in 0..n {
        assert_eq!(out[5 * n + n + i], Value::Empty);
        assert_eq!(out[5 * n + 4 * n + i], Value::Empty);
    }
    assert_eq!(dirty.len(), 2 * 4 + 3 * 4);
    assert_eq!(&dirty[8..12], &[5 * n + n, 5 * n + 3 * n, 5 * n + 2 * n, 5 * n + 4 * n]);
}

#[test]
fn zscore_reports_bad_cells_and_columns() {
    let zscore = RollingZScore::new(vec!["price"], 1);
    let n = 2;
    let mut row: Vec<Value<F64>> = vec![Value::Empty; 5 * n];
    row[1] = Value::String("x".to_owned());
    let r = zscore.commit_values(&row, &vec![zscore_layout(n)], n, 0);
    assert!(matches!(r, Err(Error::CustomError(ref m)) if m.starts_with("Expected a Value::Float, but got ")), "{:?}", r);
    let r = zscore.commit_values(&row, &vec![zscore_layout(n)], n + 1, 0);
    assert!(matches!(r, Err(Error::CustomError(_))));
    let mut short = zscore_layout(n);
    short.zscore = vec![100, 101];
    row[1] = Value::Float(F64(2.0));
    let r = zscore.commit_values(&row, &vec![short], n, 0);
    assert!(matches!(r, Err(Error::CustomError(ref m)) if m == "Column 101 not found in row"), "{:?}", r);
}

#[test]
fn zscore_window_keeps_its_last_values() {
    let mut window: ZScoreWindow<F64> = ZScoreWindow::new(2);
    assert!(window.push(F64(1.0)).is_none());
    assert!(!window.is_full());
    let stats = window.push(F64(3.0)).unwrap();
    assert_eq!(stats.avg, F64(2.0));
    assert_eq!(stats.stdev, F64(1.0));
    assert_eq!(stats.zscore, F64(1.0));
    let stats = window.push(F64(5.0)).unwrap();
    assert_eq!(stats.avg, F64(4.0));
    assert!(window.is_full());
}
