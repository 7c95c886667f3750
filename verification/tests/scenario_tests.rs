use evalexpr::context::{Context, ContextWithMutableVariables, EmptyContext, HashMapContext};
use evalexpr::error::EvalexprError;
use evalexpr::interface::{
    build_operator_tree, eval_boolean_with_context, eval_empty_with_context_mut, eval_int, eval_int_with_context,
    eval_int_with_context_mut, eval_with_context, eval_with_context_mut,
};
use evalexpr::numeric::{EvalexprFloat, LiteralText};
use evalexpr::value::{Value, ValueType};
use evalexpr::operator::Operator;
use evalexpr::{eval, eval_with_configuration};

/// `f64` as the float type of the tests.
#[derive(Clone, Copy, Debug, PartialEq)]
struct F64(f64);

impl EvalexprFloat for F64 {
    fn from_float_literal(literal: &str) -> Self {
        F64(literal.parse::<f64>().unwrap())
    }
    fn from_int(value: i64) -> Self {
        F64(value as f64)
    }
    fn to_int(self) -> i64 {
        self.0 as i64
    }
    fn to_display_string(self) -> String {
        format!("{}", self.0)
    }
    fn min_value() -> Self {
        F64(f64::NEG_INFINITY)
    }
    fn max_value() -> Self {
        F64(f64::INFINITY)
    }
    fn add(self, other: Self) -> Self {
        F64(self.0 + other.0)
    }
    fn sub(self, other: Self) -> Self {
        F64(self.0 - other.0)
    }
    fn mul(self, other: Self) -> Self {
        F64(self.0 * other.0)
    }
    fn div(self, other: Self) -> Self {
        F64(self.0 / other.0)
    }
    fn rem(self, other: Self) -> Self {
        F64(self.0 % other.0)
    }
    fn neg(self) -> Self {
        F64(-self.0)
    }
    fn float_eq(self, other: Self) -> bool {
        self.0 == other.0
    }
    fn float_lt(self, other: Self) -> bool {
        self.0 < other.0
    }
    fn float_le(self, other: Self) -> bool {
        self.0 <= other.0
    }
    fn pow(self, exponent: Self) -> Self {
        F64(self.0.powf(exponent.0))
    }
    fn powi(self, exponent: i32) -> Self {
        F64(self.0.powi(exponent))
    }
    fn ln(self) -> Self {
        F64(self.0.ln())
    }
    fn log(self, base: Self) -> Self {
        F64(self.0.log(base.0))
    }
    fn log2(self) -> Self {
        F64(self.0.log2())
    }
    fn log10(self) -> Self {
        F64(self.0.log10())
    }
    fn exp(self) -> Self {
        F64(self.0.exp())
    }
    fn exp2(self) -> Self {
        F64(self.0.exp2())
    }
    fn cos(self) -> Self {
        F64(self.0.cos())
    }
    fn cosh(self) -> Self {
        F64(self.0.cosh())
    }
    fn acos(self) -> Self {
        F64(self.0.acos())
    }
    fn acosh(self) -> Self {
        F64(self.0.acosh())
    }
    fn sin(self) -> Self {
        F64(self.0.sin())
    }
    fn sinh(self) -> Self {
        F64(self.0.sinh())
    }
    fn asin(self) -> Self {
        F64(self.0.asin())
    }
    fn asinh(self) -> Self {
        F64(self.0.asinh())
    }
    fn tan(self) -> Self {
        F64(self.0.tan())
    }
    fn tanh(self) -> Self {
        F64(self.0.tanh())
    }
    fn atan(self) -> Self {
        F64(self.0.atan())
    }
    fn atanh(self) -> Self {
        F64(self.0.atanh())
    }
    fn atan2(self, x: Self) -> Self {
        F64(self.0.atan2(x.0))
    }
    fn sqrt(self) -> Self {
        F64(self.0.sqrt())
    }
    fn cbrt(self) -> Self {
        F64(self.0.cbrt())
    }
    fn hypot(self, other: Self) -> Self {
        F64(self.0.hypot(other.0))
    }
    fn floor(self) -> Self {
        F64(self.0.floor())
    }
    fn round(self) -> Self {
        F64(self.0.round())
    }
    fn ceil(self) -> Self {
        F64(self.0.ceil())
    }
    fn is_nan(self) -> bool {
        self.0.is_nan()
    }
    fn is_finite(self) -> bool {
        self.0.is_finite()
    }
    fn is_infinite(self) -> bool {
        self.0.is_infinite()
    }
    fn is_normal(self) -> bool {
        self.0.is_normal()
    }
    fn abs(self) -> Self {
        F64(self.0.abs())
    }
    fn min(self, other: Self) -> Self {
        F64(self.0.min(other.0))
    }
    fn max(self, other: Self) -> Self {
        F64(self.0.max(other.0))
    }

    // The spec functions of the trait, each as the operation it describes.
    fn spec_from_float_literal(_literal: LiteralText) -> Self {
        unreachable!("spec functions are not called at run time")
    }
    fn spec_to_display_string(self) -> LiteralText {
        unreachable!("spec functions are not called at run time")
    }
    fn spec_from_int(value: i64) -> Self {
        Self::from_int(value)
    }
    fn spec_to_int(self) -> i64 {
        Self::to_int(self)
    }
    fn spec_min_value() -> Self {
        Self::min_value()
    }
    fn spec_max_value() -> Self {
        Self::max_value()
    }
    fn spec_add(self, other: Self) -> Self {
        Self::add(self, other)
    }
    fn spec_sub(self, other: Self) -> Self {
        Self::sub(self, other)
    }
    fn spec_mul(self, other: Self) -> Self {
        Self::mul(self, other)
    }
    fn spec_div(self, other: Self) -> Self {
        Self::div(self, other)
    }
    fn spec_rem(self, other: Self) -> Self {
        Self::rem(self, other)
    }
    fn spec_neg(self) -> Self {
        Self::neg(self)
    }
    fn spec_float_eq(self, other: Self) -> bool {
        Self::float_eq(self, other)
    }
    fn spec_float_lt(self, other: Self) -> bool {
        Self::float_lt(self, other)
    }
    fn spec_float_le(self, other: Self) -> bool {
        Self::float_le(self, other)
    }
    fn spec_pow(self, exponent: Self) -> Self {
        Self::pow(self, exponent)
    }
    fn spec_powi(self, exponent: i32) -> Self {
        Self::powi(self, exponent)
    }
    fn spec_ln(self) -> Self {
        Self::ln(self)
    }
    fn spec_log(self, base: Self) -> Self {
        Self::log(self, base)
    }
    fn spec_log2(self) -> Self {
        Self::log2(self)
    }
    fn spec_log10(self) -> Self {
        Self::log10(self)
    }
    fn spec_exp(self) -> Self {
        Self::exp(self)
    }
    fn spec_exp2(self) -> Self {
        Self::exp2(self)
    }
    fn spec_cos(self) -> Self {
        Self::cos(self)
    }
    fn spec_cosh(self) -> Self {
        Self::cosh(self)
    }
    fn spec_acos(self) -> Self {
        Self::acos(self)
    }
    fn spec_acosh(self) -> Self {
        Self::acosh(self)
    }
    fn spec_sin(self) -> Self {
        Self::sin(self)
    }
    fn spec_sinh(self) -> Self {
        Self::sinh(self)
    }
    fn spec_asin(self) -> Self {
        Self::asin(self)
    }
    fn spec_asinh(self) -> Self {
        Self::asinh(self)
    }
    fn spec_tan(self) -> Self {
        Self::tan(self)
    }
    fn spec_tanh(self) -> Self {
        Self::tanh(self)
    }
    fn spec_atan(self) -> Self {
        Self::atan(self)
    }
    fn spec_atanh(self) -> Self {
        Self::atanh(self)
    }
    fn spec_atan2(self, x: Self) -> Self {
        Self::atan2(self, x)
    }
    fn spec_sqrt(self) -> Self {
        Self::sqrt(self)
    }
    fn spec_cbrt(self) -> Self {
        Self::cbrt(self)
    }
    fn spec_hypot(self, other: Self) -> Self {
        Self::hypot(self, other)
    }
    fn spec_floor(self) -> Self {
        Self::floor(self)
    }
    fn spec_round(self) -> Self {
        Self::round(self)
    }
    fn spec_ceil(self) -> Self {
        Self::ceil(self)
    }
    fn spec_is_nan(self) -> bool {
        Self::is_nan(self)
    }
    fn spec_is_finite(self) -> bool {
        Self::is_finite(self)
    }
    fn spec_is_infinite(self) -> bool {
        Self::is_infinite(self)
    }
    fn spec_is_normal(self) -> bool {
        Self::is_normal(self)
    }
    fn spec_abs(self) -> Self {
        Self::abs(self)
    }
    fn spec_min(self, other: Self) -> Self {
        Self::min(self, other)
    }
    fn spec_max(self, other: Self) -> Self {
        Self::max(self, other)
    }
}


type V = Value<F64>;
type E = EvalexprError<F64>;

fn float(f: f64) -> V {
    Value::Float(F64(f))
}

fn ev(s: &str) -> Result<V, E> {
    eval::<F64>(s)
}

#[test]
fn quickstart_expressions() {
    assert_eq!(ev("1 + 2 + 3"), Ok(Value::from(6)));
    assert_eq!(eval_int::<F64>("1 + 2 + 3"), Ok(6));
    assert_eq!(ev("1 - 2 * 3"), Ok(Value::from(-5)));
    assert_eq!(ev("1.0 + 2 * 3"), Ok(float(7.0)));
    assert_eq!(ev("true && 4 > 2"), Ok(Value::from(true)));
}

#[test]
fn assignments_are_type_safe() {
    let mut context = HashMapContext::<F64>::new();
    assert_eq!(eval_empty_with_context_mut("a = 5", &mut context), Ok(()));
    assert_eq!(eval_empty_with_context_mut("a = 5.0", &mut context), Err(E::expected_int(float(5.0))));
    assert_eq!(context.get_value("a"), Some(&Value::from(5)));
    assert_eq!(eval_int_with_context_mut("a = a + 2; a", &mut context), Ok(7));
}

#[test]
fn assignment_needs_a_mutable_context() {
    let mut context = HashMapContext::<F64>::new();
    assert_eq!(eval_with_context("a = 5", &context), Err(EvalexprError::ContextNotMutable));
    assert_eq!(eval_empty_with_context_mut("a = 5", &mut context), Ok(()));
    assert_eq!(eval_int_with_context("a", &context), Ok(5));
}

#[test]
fn aggregation_and_chaining() {
    assert_eq!(ev("1, 2, 3"), Ok(Value::from(vec![Value::from(1), Value::from(2), Value::from(3)])));
    assert_eq!(ev("1;2;3;4;"), Ok(Value::Empty));
    assert_eq!(ev("1;2;3;4"), Ok(Value::from(4)));
}

#[test]
fn precompiled_healing_script() {
    let mut context = HashMapContext::<F64>::new();
    assert_eq!(eval_empty_with_context_mut("hp = 1; max_hp = 5; heal_amount = 3;", &mut context), Ok(()));
    let healing_script = build_operator_tree::<F64>("hp = min(hp + heal_amount, max_hp); hp").unwrap();
    assert_eq!(healing_script.eval_int_with_context_mut(&mut context), Ok(4));
    assert_eq!(healing_script.eval_int_with_context_mut(&mut context), Ok(5));
}

#[test]
fn precompiled_tree_follows_its_context() {
    let precompiled = build_operator_tree::<F64>("a * b - c > 5").unwrap();
    let mut context = HashMapContext::<F64>::new();
    context.set_value("a".to_string(), Value::from(6)).unwrap();
    context.set_value("b".to_string(), Value::from(2)).unwrap();
    context.set_value("c".to_string(), Value::from(3)).unwrap();
    assert_eq!(precompiled.eval_with_context(&context), Ok(Value::from(true)));
    context.set_value("c".to_string(), Value::from(8)).unwrap();
    assert_eq!(precompiled.eval_with_context(&context), Ok(Value::from(false)));
    assert_eq!(precompiled.eval_boolean_with_context(&context), Ok(false));
    // The tree evaluates as its text does.
    assert_eq!(eval_boolean_with_context("a * b - c > 5", &context), Ok(false));
}

#[test]
fn values_decompose() {
    assert_eq!(Value::<F64>::from(4).as_int(), Ok(4));
    assert_eq!(Value::from_float(F64(4.4)).as_float(), Ok(F64(4.4)));
    assert_eq!(Value::<F64>::from(true).as_int(), Err(EvalexprError::ExpectedInt { actual: Value::Boolean(true) }));
}

#[test]
fn identifiers_before_values_are_function_calls() {
    let mut context = HashMapContext::<F64>::new();
    context.set_value("a".to_string(), Value::from(1)).unwrap();
    context.set_value("b".to_string(), Value::from(2)).unwrap();
    assert_eq!(eval_with_configuration("a<b", &context), Ok(Value::from(true)));
    assert_eq!(eval_with_configuration("a b", &context), Err(EvalexprError::FunctionIdentifierNotFound("a".to_string())));
}

#[test]
fn empty_context_disables_builtins() {
    assert_eq!(
        eval_with_configuration::<F64, EmptyContext>("min(1, 2)", &EmptyContext),
        Err(EvalexprError::FunctionIdentifierNotFound("min".to_string()))
    );
    assert_eq!(ev("min(1, 2)"), Ok(Value::from(1)));
}

#[test]
fn builtin_string_functions() {
    assert_eq!(ev("len(\"abc\")"), Ok(Value::from(3)));
    assert_eq!(ev("len(\"äb\")"), Ok(Value::from(2)));
    assert_eq!(ev("len((1, 2))"), Ok(Value::from(2)));
    assert_eq!(ev("str::to_uppercase \"aBc\""), Ok(Value::from("ABC".to_string())));
    assert_eq!(ev("str::to_lowercase \"aBc\""), Ok(Value::from("abc".to_string())));
    assert_eq!(ev("str::trim \"  a b \""), Ok(Value::from("a b".to_string())));
    assert_eq!(ev("str::regex_matches(\"foobar\", \"[ob]{3}\")"), Ok(Value::from(true)));
    assert_eq!(ev("str::regex_matches(\"gazonk\", \"[ob]{3}\")"), Ok(Value::from(false)));
    assert_eq!(ev("str::regex_replace(\"foobar\", \"o+\", \"0\")"), Ok(Value::from("f0bar".to_string())));
    assert!(matches!(ev("str::regex_matches(\"a\", \"(\")"), Err(EvalexprError::InvalidRegex { .. })));
    assert_eq!(ev("str::from(1)"), Ok(Value::from("1".to_string())));
    assert_eq!(ev("str::substring(\"hello\", 1, 3)"), Ok(Value::from("el".to_string())));
}

#[test]
fn builtin_number_functions() {
    assert_eq!(ev("max(1, 2.5)"), Ok(float(2.5)));
    assert_eq!(ev("math::abs(-3)"), Ok(Value::from(3)));
    assert_eq!(ev("bitand(6, 3)"), Ok(Value::from(2)));
    assert_eq!(ev("bitnot(0)"), Ok(Value::from(-1)));
    assert_eq!(ev("typeof(1)"), Ok(Value::from("int".to_string())));
    assert_eq!(ev("if(true, 1, 2)"), Ok(Value::from(1)));
}

#[test]
fn parse_errors() {
    assert_eq!(ev("\"abc"), Err(EvalexprError::UnmatchedDoubleQuote));
    assert_eq!(ev("(1"), Err(EvalexprError::UnmatchedLBrace));
    assert_eq!(ev("1)"), Err(EvalexprError::UnmatchedRBrace));
    assert_eq!(ev("1 2"), Err(EvalexprError::AppendedToLeafNode));
}

#[test]
fn float_arithmetic_gives_floats() {
    assert_eq!(ev("2 * 0.5"), Ok(float(1.0)));
    assert_eq!(ev("2 ^ 2"), Ok(float(4.0)));
    assert_eq!(ev("-(0.5)"), Ok(float(-0.5)));
    assert_eq!(ev("7 / 2"), Ok(Value::from(3)));
}

#[test]
fn read_after_write_in_a_context() {
    let mut context = HashMapContext::<F64>::new();
    assert_eq!(context.set_value("x".to_string(), Value::from(1)), Ok(()));
    assert_eq!(context.set_value("y".to_string(), Value::from(true)), Ok(()));
    assert_eq!(context.get_value("x"), Some(&Value::from(1)));
    assert_eq!(context.set_value("x".to_string(), Value::from(2)), Ok(()));
    assert_eq!(context.get_value("x"), Some(&Value::from(2)));
    assert_eq!(context.get_value("y"), Some(&Value::from(true)));
    assert_eq!(context.get_value("z"), None);
}

#[test]
fn a_variable_keeps_its_type() {
    let mut context = HashMapContext::<F64>::new();
    assert_eq!(context.set_value("x".to_string(), Value::from(1)), Ok(()));
    assert_eq!(
        context.set_value("x".to_string(), Value::from(false)),
        Err(EvalexprError::ExpectedInt { actual: Value::Boolean(false) })
    );
    assert_eq!(context.get_value("x"), Some(&Value::from(1)));
    assert_eq!(context.remove_value("x"), Ok(Some(Value::from(1))));
    assert_eq!(context.set_value("x".to_string(), Value::from(false)), Ok(()));
}

#[test]
fn mutable_evaluation_leaves_the_context_on_parse_errors() {
    let mut context = HashMapContext::<F64>::new();
    assert_eq!(eval_with_context_mut("a = 1; (", &mut context), Err(EvalexprError::UnmatchedLBrace));
    assert_eq!(context.get_value("a"), None);
}

#[test]
fn values_display() {
    let t: V = Value::from(vec![Value::from(1), Value::from("a".to_string()), Value::Empty]);
    assert_eq!(t.to_display_string(), "(1, \"a\", ())");
    assert_eq!(Value::<F64>::from(true).to_display_string(), "true");
}

#[test]
fn error_messages() {
    assert_eq!(E::wrong_operator_argument_amount(1, 2).to_display_string(), "An operator expected 2 arguments, but got 1.");
    assert_eq!(
        E::wrong_function_argument_amount_range(4, 1, 3).to_display_string(),
        "A function expected 1 to 3 arguments, but got 4."
    );
    assert_eq!(E::expected_int(Value::Boolean(true)).to_display_string(), "Expected a Value::Int, but got Boolean(true).");
    assert_eq!(EvalexprError::<F64>::UnmatchedLBrace.to_display_string(), "Found an unmatched opening parenthesis '('.");
    assert_eq!(
        EvalexprError::<F64>::AdditionError { augend: Value::Int(1), addend: Value::Int(2) }.to_display_string(),
        "Error adding 1 + 2"
    );
    assert_eq!(EvalexprError::<F64>::CustomMessage("x".to_string()).to_display_string(), "Error: x");
    assert_eq!(
        EvalexprError::<F64>::VariableIdentifierNotFound("blub".to_string()).to_display_string(),
        "Variable identifier is not bound to anything by context: \"blub\"."
    );
    let err = evalexpr::ffi::Error::from_evalexpr_error(&EvalexprError::<F64>::ContextNotMutable);
    assert_eq!(err.to_display_string(), "Custom error: Cannot manipulate context");
}

#[test]
fn trees_are_written_back() {
    let tree = build_operator_tree::<F64>("1 + 2 * 3").unwrap();
    assert_eq!(tree.to_display_string(), Some("(1 + (2 * 3))".to_string()));
    let tree = build_operator_tree::<F64>("a = -b; f(1, \"x\")").unwrap();
    assert_eq!(tree.to_display_string(), Some("(a = -b); f (1, \"x\")".to_string()));
    let tree = build_operator_tree::<F64>("!true").unwrap();
    assert_eq!(tree.to_display_string(), Some("!true".to_string()));
}

#[test]
fn identifiers_of_a_tree() {
    let tree = build_operator_tree::<F64>("a = f(b) + c; d").unwrap();
    assert_eq!(tree.iter_identifiers(), vec!["a", "f", "b", "c", "d"]);
    assert_eq!(tree.iter_variable_identifiers(), vec!["a", "b", "c", "d"]);
    assert_eq!(tree.iter_read_variable_identifiers(), vec!["b", "c", "d"]);
    assert_eq!(tree.iter_write_variable_identifiers(), vec!["a"]);
    assert_eq!(tree.iter_function_identifiers(), vec!["f"]);
    let small = build_operator_tree::<F64>("1 + 2").unwrap();
    assert_eq!(small.iter().len(), 3);
}

#[test]
fn rewriting_a_built_tree() {
    let mut tree = build_operator_tree::<F64>("7 + 2").unwrap();
    assert_eq!(tree.eval(), Ok(Value::Int(9)));
    // The root holds the addition; make it a subtraction.
    *tree.children_mut()[0].operator_mut() = Operator::Sub;
    assert_eq!(tree.eval(), Ok(Value::Int(5)));
    // Drop the second operand's node and the operator misses an argument.
    tree.children_mut()[0].children_mut().pop();
    assert!(tree.eval().is_err());
}

#[test]
fn trivial_coverage_tests() {
    assert_eq!(
        EvalexprError::type_error(Value::<F64>::Int(3), vec![ValueType::String]),
        EvalexprError::TypeError { actual: Value::Int(3), expected: vec![ValueType::String] }
    );
    assert_eq!(
        EvalexprError::expected_type(&Value::<F64>::String("abc".to_string()), Value::Empty),
        EvalexprError::expected_string(Value::Empty)
    );
    assert_eq!(
        EvalexprError::expected_type(&Value::<F64>::Boolean(false), Value::Empty),
        EvalexprError::expected_boolean(Value::Empty)
    );
    assert_eq!(
        EvalexprError::expected_type(&Value::<F64>::Tuple(vec![]), Value::Empty),
        EvalexprError::expected_tuple(Value::Empty)
    );
    assert_eq!(
        EvalexprError::expected_type(&Value::<F64>::Empty, Value::String("abc".to_string())),
        EvalexprError::expected_empty(Value::String("abc".to_string()))
    );
}

#[test]
fn float_comparisons_give_booleans() {
    assert_eq!(eval::<F64>("1.5 > 1"), Ok(Value::Boolean(true)));
    assert_eq!(eval::<F64>("1 < 0.5"), Ok(Value::Boolean(false)));
    assert_eq!(eval::<F64>("2.0 >= 2"), Ok(Value::Boolean(true)));
    assert_eq!(eval::<F64>("1.0 == 1.0"), Ok(Value::Boolean(true)));
    assert_eq!(eval::<F64>("1.0 != 2"), Ok(Value::Boolean(true)));
    // The mirror images agree.
    assert_eq!(eval::<F64>("3 > 2.5"), eval::<F64>("2.5 < 3"));
    assert_eq!(eval::<F64>("\"b\" >= \"a\""), eval::<F64>("\"a\" <= \"b\""));
}

#[test]
fn min_and_max_keep_the_type_of_the_extreme() {
    let mut context = HashMapContext::<F64>::new();
    assert_eq!(eval_with_context("min(4.0, 3)", &context), Ok(Value::Int(3)));
    assert_eq!(eval_with_context("max(4.0, 3)", &context), Ok(float(4.0)));
    assert_eq!(eval_with_context("min(1, 5, 2)", &context), Ok(Value::Int(1)));
    context.set_value("hp".to_string(), Value::Int(1)).unwrap();
    context.set_value("max_hp".to_string(), Value::Int(5)).unwrap();
    context.set_value("heal_amount".to_string(), Value::Int(3)).unwrap();
    let tree = build_operator_tree::<F64>("hp = min(hp + heal_amount, max_hp); hp").unwrap();
    assert_eq!(tree.eval_int_with_context_mut(&mut context), Ok(4));
    assert_eq!(tree.eval_int_with_context_mut(&mut context), Ok(5));
    assert_eq!(context.get_value("hp"), Some(&Value::Int(5)));
}

#[test]
fn float_operations_give_what_the_float_type_computes() {
    assert_eq!(ev("2.5 + 1"), Ok(float(3.5)));
    assert_eq!(ev("1 - 2.5"), Ok(float(-1.5)));
    assert_eq!(ev("2 ^ 3"), Ok(float(8.0)));
    assert_eq!(ev("-(2.5)"), Ok(float(-2.5)));
    assert_eq!(ev("7.5 % 2"), Ok(float(1.5)));
    assert_eq!(ev("2.5 > 1"), Ok(Value::Boolean(true)));
    assert_eq!(ev("1 >= 2.5"), Ok(Value::Boolean(false)));
    assert_eq!(ev("1.0 == 1.0"), Ok(Value::Boolean(true)));
    assert_eq!(eval_int::<F64>("1.0 * 2.0"), Err(EvalexprError::ExpectedInt { actual: float(2.0) }));
}
