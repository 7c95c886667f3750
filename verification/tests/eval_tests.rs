use evalexpr::context::{Context, ContextWithMutableVariables, HashMapContext};
use evalexpr::error::EvalexprError;
use evalexpr::{eval, eval_with_configuration};
use evalexpr::numeric::{EvalexprFloat, LiteralText};
use evalexpr::value::{IntType, Value};

/// `f64` as the float type of the tests.
#[derive(Clone, Copy, Debug, PartialEq)]
struct F64(f64);

impl EvalexprFloat for F64 {
    fn from_float_literal(literal: &str) -> Self {
        F64(literal.parse::<f64>().unwrap())
    }
    fn from_int(value: i64) -> Self {
        F64(value as f64)
    }
    fn to_int(self) -> i64 {
        self.0 as i64
    }
    fn to_display_string(self) -> String {
        format!("{}", self.0)
    }
    fn min_value() -> Self {
        F64(f64::NEG_INFINITY)
    }
    fn max_value() -> Self {
        F64(f64::INFINITY)
    }
    fn add(self, other: Self) -> Self {
        F64(self.0 + other.0)
    }
    fn sub(self, other: Self) -> Self {
        F64(self.0 - other.0)
    }
    fn mul(self, other: Self) -> Self {
        F64(self.0 * other.0)
    }
    fn div(self, other: Self) -> Self {
        F64(self.0 / other.0)
    }
    fn rem(self, other: Self) -> Self {
        F64(self.0 % other.0)
    }
    fn neg(self) -> Self {
        F64(-self.0)
    }
    fn float_eq(self, other: Self) -> bool {
        self.0 == other.0
    }
    fn float_lt(self, other: Self) -> bool {
        self.0 < other.0
    }
    fn float_le(self, other: Self) -> bool {
        self.0 <= other.0
    }
    fn pow(self, exponent: Self) -> Self {
        F64(self.0.powf(exponent.0))
    }
    fn powi(self, exponent: i32) -> Self {
        F64(self.0.powi(exponent))
    }
    fn ln(self) -> Self {
        F64(self.0.ln())
    }
    fn log(self, base: Self) -> Self {
        F64(self.0.log(base.0))
    }
    fn log2(self) -> Self {
        F64(self.0.log2())
    }
    fn log10(self) -> Self {
        F64(self.0.log10())
    }
    fn exp(self) -> Self {
        F64(self.0.exp())
    }
    fn exp2(self) -> Self {
        F64(self.0.exp2())
    }
    fn cos(self) -> Self {
        F64(self.0.cos())
    }
    fn cosh(self) -> Self {
        F64(self.0.cosh())
    }
    fn acos(self) -> Self {
        F64(self.0.acos())
    }
    fn acosh(self) -> Self {
        F64(self.0.acosh())
    }
    fn sin(self) -> Self {
        F64(self.0.sin())
    }
    fn sinh(self) -> Self {
        F64(self.0.sinh())
    }
    fn asin(self) -> Self {
        F64(self.0.asin())
    }
    fn asinh(self) -> Self {
        F64(self.0.asinh())
    }
    fn tan(self) -> Self {
        F64(self.0.tan())
    }
    fn tanh(self) -> Self {
        F64(self.0.tanh())
    }
    fn atan(self) -> Self {
        F64(self.0.atan())
    }
    fn atanh(self) -> Self {
        F64(self.0.atanh())
    }
    fn atan2(self, x: Self) -> Self {
        F64(self.0.atan2(x.0))
    }
    fn sqrt(self) -> Self {
        F64(self.0.sqrt())
    }
    fn cbrt(self) -> Self {
        F64(self.0.cbrt())
    }
    fn hypot(self, other: Self) -> Self {
        F64(self.0.hypot(other.0))
    }
    fn floor(self) -> Self {
        F64(self.0.floor())
    }
    fn round(self) -> Self {
        F64(self.0.round())
    }
    fn ceil(self) -> Self {
        F64(self.0.ceil())
    }
    fn is_nan(self) -> bool {
        self.0.is_nan()
    }
    fn is_finite(self) -> bool {
        self.0.is_finite()
    }
    fn is_infinite(self) -> bool {
        self.0.is_infinite()
    }
    fn is_normal(self) -> bool {
        self.0.is_normal()
    }
    fn abs(self) -> Self {
        F64(self.0.abs())
    }
    fn min(self, other: Self) -> Self {
        F64(self.0.min(other.0))
    }
    fn max(self, other: Self) -> Self {
        F64(self.0.max(other.0))
    }

    // The spec functions of the trait, each as the operation it describes.
    fn spec_from_float_literal(_literal: LiteralText) -> Self {
        unreachable!("spec functions are not called at run time")
    }
    fn spec_to_display_string(self) -> LiteralText {
        unreachable!("spec functions are not called at run time")
    }
    fn spec_from_int(value: i64) -> Self {
        Self::from_int(value)
    }
    fn spec_to_int(self) -> i64 {
        Self::to_int(self)
    }
    fn spec_min_value() -> Self {
        Self::min_value()
    }
    fn spec_max_value() -> Self {
        Self::max_value()
    }
    fn spec_add(self, other: Self) -> Self {
        Self::add(self, other)
    }
    fn spec_sub(self, other: Self) -> Self {
        Self::sub(self, other)
    }
    fn spec_mul(self, other: Self) -> Self {
        Self::mul(self, other)
    }
    fn spec_div(self, other: Self) -> Self {
        Self::div(self, other)
    }
    fn spec_rem(self, other: Self) -> Self {
        Self::rem(self, other)
    }
    fn spec_neg(self) -> Self {
        Self::neg(self)
    }
    fn spec_float_eq(self, other: Self) -> bool {
        Self::float_eq(self, other)
    }
    fn spec_float_lt(self, other: Self) -> bool {
        Self::float_lt(self, other)
    }
    fn spec_float_le(self, other: Self) -> bool {
        Self::float_le(self, other)
    }
    fn spec_pow(self, exponent: Self) -> Self {
        Self::pow(self, exponent)
    }
    fn spec_powi(self, exponent: i32) -> Self {
        Self::powi(self, exponent)
    }
    fn spec_ln(self) -> Self {
        Self::ln(self)
    }
    fn spec_log(self, base: Self) -> Self {
        Self::log(self, base)
    }
    fn spec_log2(self) -> Self {
        Self::log2(self)
    }
    fn spec_log10(self) -> Self {
        Self::log10(self)
    }
    fn spec_exp(self) -> Self {
        Self::exp(self)
    }
    fn spec_exp2(self) -> Self {
        Self::exp2(self)
    }
    fn spec_cos(self) -> Self {
        Self::cos(self)
    }
    fn spec_cosh(self) -> Self {
        Self::cosh(self)
    }
    fn spec_acos(self) -> Self {
        Self::acos(self)
    }
    fn spec_acosh(self) -> Self {
        Self::acosh(self)
    }
    fn spec_sin(self) -> Self {
        Self::sin(self)
    }
    fn spec_sinh(self) -> Self {
        Self::sinh(self)
    }
    fn spec_asin(self) -> Self {
        Self::asin(self)
    }
    fn spec_asinh(self) -> Self {
        Self::asinh(self)
    }
    fn spec_tan(self) -> Self {
        Self::tan(self)
    }
    fn spec_tanh(self) -> Self {
        Self::tanh(self)
    }
    fn spec_atan(self) -> Self {
        Self::atan(self)
    }
    fn spec_atanh(self) -> Self {
        Self::atanh(self)
    }
    fn spec_atan2(self, x: Self) -> Self {
        Self::atan2(self, x)
    }
    fn spec_sqrt(self) -> Self {
        Self::sqrt(self)
    }
    fn spec_cbrt(self) -> Self {
        Self::cbrt(self)
    }
    fn spec_hypot(self, other: Self) -> Self {
        Self::hypot(self, other)
    }
    fn spec_floor(self) -> Self {
        Self::floor(self)
    }
    fn spec_round(self) -> Self {
        Self::round(self)
    }
    fn spec_ceil(self) -> Self {
        Self::ceil(self)
    }
    fn spec_is_nan(self) -> bool {
        Self::is_nan(self)
    }
    fn spec_is_finite(self) -> bool {
        Self::is_finite(self)
    }
    fn spec_is_infinite(self) -> bool {
        Self::is_infinite(self)
    }
    fn spec_is_normal(self) -> bool {
        Self::is_normal(self)
    }
    fn spec_abs(self) -> Self {
        Self::abs(self)
    }
    fn spec_min(self, other: Self) -> Self {
        Self::min(self, other)
    }
    fn spec_max(self, other: Self) -> Self {
        Self::max(self, other)
    }
}

type V = Value<F64>;
type E = EvalexprError<F64>;

fn ev(s: &str) -> Result<V, E> {
    eval::<F64>(s)
}

fn float(f: f64) -> V {
    Value::Float(F64(f))
}

#[test]
fn test_unary_examples() {
    assert_eq!(ev("3"), Ok(Value::Int(3)));
    assert_eq!(ev("3.3"), Ok(float(3.3)));
    assert_eq!(ev("true"), Ok(Value::Boolean(true)));
    assert_eq!(ev("false"), Ok(Value::Boolean(false)));
    assert_eq!(
        ev("blub"),
        Err(EvalexprError::VariableIdentifierNotFound("blub".to_string()))
    );
    assert_eq!(ev("-3"), Ok(Value::Int(-3)));
    assert_eq!(ev("-3.6"), Ok(float(-3.6)));
    assert_eq!(ev("----3"), Ok(Value::Int(3)));
}

#[test]
fn test_binary_examples() {
    assert_eq!(ev("1+3"), Ok(Value::Int(4)));
    assert_eq!(ev("3+1"), Ok(Value::Int(4)));
    assert_eq!(ev("3-5"), Ok(Value::Int(-2)));
    assert_eq!(ev("5-3"), Ok(Value::Int(2)));
    assert_eq!(ev("5 / 4"), Ok(Value::Int(1)));
    assert_eq!(ev("5 *3"), Ok(Value::Int(15)));
    assert_eq!(ev("1.0+3"), Ok(float(4.0)));
    assert_eq!(ev("3.0+1"), Ok(float(4.0)));
    assert_eq!(ev("3-5.0"), Ok(float(-2.0)));
    assert_eq!(ev("5-3.0"), Ok(float(2.0)));
    assert_eq!(ev("5 / 4.0"), Ok(float(1.25)));
    assert_eq!(ev("5.0 *3"), Ok(float(15.0)));
    assert_eq!(ev("5.0 *-3"), Ok(float(-15.0)));
    assert_eq!(ev("5.0 *- 3"), Ok(float(-15.0)));
    assert_eq!(ev("5.0 * -3"), Ok(float(-15.0)));
    assert_eq!(ev("5.0 * - 3"), Ok(float(-15.0)));
    assert_eq!(ev("-5.0 *-3"), Ok(float(15.0)));
    assert_eq!(ev("3+-1"), Ok(Value::Int(2)));
    assert_eq!(ev("-3-5"), Ok(Value::Int(-8)));
    assert_eq!(ev("-5--3"), Ok(Value::Int(-2)));
}

#[test]
fn test_arithmetic_precedence_examples() {
    assert_eq!(ev("1+3-2"), Ok(Value::Int(2)));
    assert_eq!(ev("3+1*5"), Ok(Value::Int(8)));
    assert_eq!(ev("2*3-5"), Ok(Value::Int(1)));
    assert_eq!(ev("5-3/3"), Ok(Value::Int(4)));
    assert_eq!(ev("5 / 4*2"), Ok(Value::Int(2)));
    assert_eq!(ev("1-5 *3/15"), Ok(Value::Int(0)));
    assert_eq!(ev("15/7/2.0"), Ok(float(1.0)));
    assert_eq!(ev("15.0/7/2"), Ok(float(15.0 / 7.0 / 2.0)));
    assert_eq!(ev("15.0/-7/2"), Ok(float(15.0 / -7.0 / 2.0)));
    assert_eq!(ev("-15.0/7/2"), Ok(float(-15.0 / 7.0 / 2.0)));
    assert_eq!(ev("-15.0/7/-2"), Ok(float(-15.0 / 7.0 / -2.0)));
}

#[test]
fn test_braced_examples() {
    assert_eq!(ev("(1)"), Ok(Value::Int(1)));
    assert_eq!(ev("( 1.0 )"), Ok(float(1.0)));
    assert_eq!(ev("( true)"), Ok(Value::Boolean(true)));
    assert_eq!(ev("( -1 )"), Ok(Value::Int(-1)));
    assert_eq!(ev("-(1)"), Ok(Value::Int(-1)));
    assert_eq!(ev("-(1 + 3) * 7"), Ok(Value::Int(-28)));
    assert_eq!(ev("(1 * 1) - 3"), Ok(Value::Int(-2)));
    assert_eq!(ev("4 / (2 * 2)"), Ok(Value::Int(1)));
    assert_eq!(ev("7/(7/(7/(7/(7/(7)))))"), Ok(Value::Int(1)));
}

#[test]
fn test_mod_examples() {
    assert_eq!(ev("1 % 4"), Ok(Value::Int(1)));
    assert_eq!(ev("6 % 4"), Ok(Value::Int(2)));
    assert_eq!(ev("1 % 4 + 2"), Ok(Value::Int(3)));
}

#[test]
fn test_pow_examples() {
    assert_eq!(ev("1 ^ 4"), Ok(float(1.0)));
    assert_eq!(ev("6 ^ 4"), Ok(float(6.0f64.powf(4.0))));
    assert_eq!(ev("1 ^ 4 + 2"), Ok(float(3.0)));
    assert_eq!(ev("2 ^ (4 + 2)"), Ok(float(64.0)));
}

#[test]
fn test_boolean_examples() {
    assert_eq!(ev("true && false"), Ok(Value::Boolean(false)));
    assert_eq!(ev("true && false || true && true"), Ok(Value::Boolean(true)));
    assert_eq!(ev("5 > 4 && 1 <= 1"), Ok(Value::Boolean(true)));
    assert_eq!(ev("5.0 <= 4.9 || !(4 > 3.5)"), Ok(Value::Boolean(false)));
}

#[test]
fn test_with_configuration() {
    let mut configuration = HashMapContext::<F64>::new();
    configuration.set_value("tr".to_string(), Value::Boolean(true)).unwrap();
    configuration.set_value("fa".to_string(), Value::Boolean(false)).unwrap();
    configuration.set_value("five".to_string(), Value::Int(5)).unwrap();
    configuration.set_value("six".to_string(), Value::Int(6)).unwrap();
    configuration.set_value("half".to_string(), float(0.5)).unwrap();
    configuration.set_value("zero".to_string(), Value::Int(0)).unwrap();

    assert_eq!(eval_with_configuration("tr", &configuration), Ok(Value::Boolean(true)));
    assert_eq!(eval_with_configuration("fa", &configuration), Ok(Value::Boolean(false)));
    assert_eq!(eval_with_configuration("tr && false", &configuration), Ok(Value::Boolean(false)));
    assert_eq!(eval_with_configuration("five + six", &configuration), Ok(Value::Int(11)));
    assert_eq!(eval_with_configuration("five * half", &configuration), Ok(float(2.5)));
    assert_eq!(eval_with_configuration("five < six && true", &configuration), Ok(Value::Boolean(true)));
}

#[test]
fn test_errors() {
    assert_eq!(ev("-true"), Err(E::expected_number(Value::Boolean(true))));
    assert_eq!(ev("1-true"), Err(E::expected_number(Value::Boolean(true))));
    assert_eq!(ev("true-"), Err(E::wrong_operator_argument_amount(1, 2)));
    assert_eq!(ev("!(()true)"), Err(EvalexprError::AppendedToLeafNode));
}

#[test]
fn test_no_panic() {
    assert!(ev(&format!("{} + {}", IntType::max_value(), IntType::max_value())).is_err());
    assert!(ev(&format!("-{} - {}", IntType::max_value(), IntType::max_value())).is_err());
    assert!(ev(&format!("-(-{} - 1)", IntType::max_value())).is_err());
    assert!(ev(&format!("{} * {}", IntType::max_value(), IntType::max_value())).is_err());
    assert!(ev(&format!("{} / {}", IntType::max_value(), 0)).is_err());
    assert!(ev(&format!("{} % {}", IntType::max_value(), 0)).is_err());
    assert!(ev(&format!("{} ^ {}", IntType::max_value(), IntType::max_value())).is_ok());
}

#[test]
fn builtin_min_and_max_keep_the_type_of_the_winner() {
    assert_eq!(ev("min(4.0, 3)"), Ok(Value::Int(3)));
    assert_eq!(ev("max(4.0, 3)"), Ok(float(4.0)));
}
