//! The messages of the errors of evaluation.
use vstd::prelude::*;
use crate::numeric::EvalexprFloat;
use crate::value::{Value, VModel, display_model};
use crate::error::{EvalexprError, EModel};
use crate::ffi::{debug_text, Error, ErrorModel};
use crate::text::{decimal_digits, decimal_string, int_to_string, usize_to_string, push_str};

verus! {

/// What is known of a message: all of it, or how it starts and ends (the middle is written by
/// `{:?}`, which is not stated).
pub ghost enum TextModel {
    Exact(Seq<char>),
    Framed(Seq<char>, Seq<char>),
}

/// Whether a text is one that the model allows.
pub open spec fn text_holds(t: TextModel, s: Seq<char>) -> bool {
    match t {
        TextModel::Exact(x) => s == x,
        TextModel::Framed(p, q) => s.len() >= p.len() + q.len() && s.subrange(0, p.len() as int) == p
            && s.subrange(s.len() - q.len(), s.len() as int) == q,
    }
}

/// The message of an error about two values joined by an operator sign, as they are displayed.
pub open spec fn values_text<F: EvalexprFloat>(prefix: Seq<char>, a: VModel<F>, sign: Seq<char>, b: VModel<F>) -> TextModel {
    match (display_model(a), display_model(b)) {
        (Some(x), Some(y)) => TextModel::Exact(prefix + x + sign + y),
        _ => TextModel::Framed(prefix, Seq::empty()),
    }
}

/// The message of an error.
pub open spec fn error_text<F: EvalexprFloat>(e: EModel<F>) -> TextModel {
    match e {
        EModel::WrongOperatorArgumentAmount { expected, actual } => TextModel::Exact(
            "An operator expected "@ + decimal_digits(expected) + " arguments, but got "@ + decimal_digits(actual) + "."@),
        EModel::WrongFunctionArgumentAmount { expected_min, expected_max, actual } => TextModel::Exact(
            "A function expected "@
            + (if expected_min == expected_max { decimal_digits(expected_min) }
               else { decimal_digits(expected_min) + " to "@ + decimal_digits(expected_max) })
            + " arguments, but got "@ + decimal_digits(actual) + "."@),
        EModel::ExpectedString { .. } => TextModel::Framed("Expected a Value::String, but got "@, "."@),
        EModel::ExpectedInt { .. } => TextModel::Framed("Expected a Value::Int, but got "@, "."@),
        EModel::ExpectedFloat { .. } => TextModel::Framed("Expected a Value::Float, but got "@, "."@),
        EModel::ExpectedNumber { .. } => TextModel::Framed("Expected a Value::Float or Value::Int, but got "@, "."@),
        EModel::ExpectedNumberOrString { .. } => TextModel::Framed("Expected a Value::Number or a Value::String, but got "@, "."@),
        EModel::ExpectedBoolean { .. } => TextModel::Framed("Expected a Value::Boolean, but got "@, "."@),
        EModel::ExpectedTuple { .. } => TextModel::Framed("Expected a Value::Tuple, but got "@, "."@),
        EModel::ExpectedFixedLengthTuple { expected_length, .. } =>
            TextModel::Framed("Expected a Value::Tuple of length "@ + decimal_digits(expected_length) + ", but got "@, "."@),
        EModel::ExpectedRangedLengthTuple { expected_min, expected_max, .. } =>
            TextModel::Framed("Expected a Value::Tuple of length "@ + decimal_digits(expected_min) + " to "@
                + decimal_digits(expected_max) + ", but got "@, "."@),
        EModel::ExpectedEmpty { .. } => TextModel::Framed("Expected a Value::Empty, but got "@, "."@),
        EModel::AppendedToLeafNode => TextModel::Exact("Tried to append a node to a leaf node."@),
        EModel::PrecedenceViolation => TextModel::Exact("Tried to append a node to another node with higher precedence."@),
        EModel::VariableIdentifierNotFound(_) =>
            TextModel::Framed("Variable identifier is not bound to anything by context: "@, "."@),
        EModel::FunctionIdentifierNotFound(_) =>
            TextModel::Framed("Function identifier is not bound to anything by context: "@, "."@),
        EModel::TypeError { .. } => TextModel::Framed("Expected one of "@, "."@),
        EModel::WrongTypeCombination { .. } => TextModel::Framed("The operator "@, Seq::empty()),
        EModel::UnmatchedLBrace => TextModel::Exact("Found an unmatched opening parenthesis '('."@),
        EModel::UnmatchedRBrace => TextModel::Exact("Found an unmatched closing parenthesis ')'."@),
        EModel::UnmatchedDoubleQuote => TextModel::Exact("Found an unmatched double quote '\"'"@),
        EModel::MissingOperatorOutsideOfBrace => TextModel::Exact(missing_operator_text()),
        EModel::UnmatchedPartialToken { second, .. } => match second {
            Some(_) => TextModel::Framed("Found a partial token '"@, "'."@),
            None => TextModel::Framed("Found a partial token '"@, "' that should be followed by another partial token."@),
        },
        EModel::AdditionError { augend, addend } => values_text("Error adding "@, augend, " + "@, addend),
        EModel::SubtractionError { minuend, subtrahend } => values_text("Error subtracting "@, minuend, " - "@, subtrahend),
        EModel::NegationError { argument } => match display_model(argument) {
            Some(x) => TextModel::Exact("Error negating -"@ + x),
            None => TextModel::Framed("Error negating -"@, Seq::empty()),
        },
        EModel::MultiplicationError { multiplicand, multiplier } =>
            values_text("Error multiplying "@, multiplicand, " * "@, multiplier),
        EModel::DivisionError { dividend, divisor } => values_text("Error dividing "@, dividend, " / "@, divisor),
        EModel::ModulationError { dividend, divisor } => values_text("Error modulating "@, dividend, " % "@, divisor),
        EModel::InvalidRegex { .. } => TextModel::Framed("Regular expression "@, Seq::empty()),
        EModel::ContextNotMutable => TextModel::Exact("Cannot manipulate context"@),
        EModel::IllegalEscapeSequence(s) => TextModel::Exact("Illegal escape sequence: "@ + s),
        EModel::BuiltinFunctionsCannotBeEnabled => TextModel::Exact("This context does not allow enabling builtin functions"@),
        EModel::BuiltinFunctionsCannotBeDisabled => TextModel::Exact("This context does not allow disabling builtin functions"@),
        EModel::OutOfBoundsAccess => TextModel::Exact("Tried to access a tuple or string at an invalid index"@),
        EModel::IntFromUsize { usize_int } =>
            TextModel::Exact("The usize "@ + decimal_digits(usize_int) + " does not fit into the chosen integer type"@),
        EModel::IntIntoUsize { int: integer } =>
            TextModel::Exact("The integer "@ + decimal_string(integer) + " does not fit into a usize"@),
        EModel::RandNotEnabled => TextModel::Exact("The feature 'rand' must be enabled to use randomness."@),
        EModel::CustomMessage(m) => TextModel::Exact("Error: "@ + m),
    }
}

/// The message of `MissingOperatorOutsideOfBrace`.
pub open spec fn missing_operator_text() -> Seq<char> {
    "Found an opening parenthesis that is preceded by something that does not take any arguments on the right, or found a closing parenthesis that is succeeded by something that does not take any arguments on the left."@
}

/// `prefix`, then `middle`, then `suffix`: a text of the model `Framed(prefix, suffix)`.
fn framed(prefix: &str, middle: &str, suffix: &str) -> (r: String)
    ensures
        r@ == prefix@ + middle@ + suffix@,
        text_holds(TextModel::Framed(prefix@, suffix@), r@),
{
    let mut r = prefix.to_owned();
    push_str(&mut r, middle);
    push_str(&mut r, suffix);
    proof {
        let s = r@;
        assert(s.subrange(0, prefix@.len() as int) =~= prefix@);
        assert(s.subrange(s.len() - suffix@.len(), s.len() as int) =~= suffix@);
    }
    r
}

/// The message of an error about two values joined by an operator sign.
fn values_message<F: EvalexprFloat>(prefix: &str, a: &Value<F>, sign: &str, b: &Value<F>) -> (r: String)
    ensures
        text_holds(values_text(prefix@, a@, sign@, b@), r@),
{
    let mut r = prefix.to_owned();
    let x = a.to_display_string();
    push_str(&mut r, x.as_str());
    push_str(&mut r, sign);
    let y = b.to_display_string();
    push_str(&mut r, y.as_str());
    proof {
        if !(display_model(a@) is Some && display_model(b@) is Some) {
            assert(r@.subrange(0, prefix@.len() as int) =~= prefix@);
            assert(r@.subrange(r@.len() - 0, r@.len() as int) =~= Seq::<char>::empty());
        }
    }
    r
}

impl<F: EvalexprFloat + core::fmt::Debug> EvalexprError<F> {
    /// The message of the error, as it is displayed.
    pub fn to_display_string(&self) -> (r: String)
        ensures
            text_holds(error_text(self@), r@),
    {
        match self {
            EvalexprError::WrongOperatorArgumentAmount { expected, actual } => {
                let mut r = "An operator expected ".to_owned();
                push_str(&mut r, usize_to_string(*expected).as_str());
                push_str(&mut r, " arguments, but got ");
                push_str(&mut r, usize_to_string(*actual).as_str());
                push_str(&mut r, ".");
                r
            },
            EvalexprError::WrongFunctionArgumentAmount { expected_min, expected_max, actual } => {
                let mut r = "A function expected ".to_owned();
                let mut expected = usize_to_string(*expected_min);
                if *expected_min != *expected_max {
                    push_str(&mut expected, " to ");
                    push_str(&mut expected, usize_to_string(*expected_max).as_str());
                }
                push_str(&mut r, expected.as_str());
                push_str(&mut r, " arguments, but got ");
                push_str(&mut r, usize_to_string(*actual).as_str());
                push_str(&mut r, ".");
                r
            },
            EvalexprError::ExpectedString { actual } => framed("Expected a Value::String, but got ", debug_text(actual).as_str(), "."),
            EvalexprError::ExpectedInt { actual } => framed("Expected a Value::Int, but got ", debug_text(actual).as_str(), "."),
            EvalexprError::ExpectedFloat { actual } => framed("Expected a Value::Float, but got ", debug_text(actual).as_str(), "."),
            EvalexprError::ExpectedNumber { actual } =>
                framed("Expected a Value::Float or Value::Int, but got ", debug_text(actual).as_str(), "."),
            EvalexprError::ExpectedNumberOrString { actual } =>
                framed("Expected a Value::Number or a Value::String, but got ", debug_text(actual).as_str(), "."),
            EvalexprError::ExpectedBoolean { actual } => framed("Expected a Value::Boolean, but got ", debug_text(actual).as_str(), "."),
            EvalexprError::ExpectedTuple { actual } => framed("Expected a Value::Tuple, but got ", debug_text(actual).as_str(), "."),
            EvalexprError::ExpectedFixedLengthTuple { expected_length, actual } => {
                let mut prefix = "Expected a Value::Tuple of length ".to_owned();
                push_str(&mut prefix, usize_to_string(*expected_length).as_str());
                push_str(&mut prefix, ", but got ");
                framed(prefix.as_str(), debug_text(actual).as_str(), ".")
            },
            EvalexprError::ExpectedRangedLengthTuple { expected_min, expected_max, actual } => {
                let mut prefix = "Expected a Value::Tuple of length ".to_owned();
                push_str(&mut prefix, usize_to_string(*expected_min).as_str());
                push_str(&mut prefix, " to ");
                push_str(&mut prefix, usize_to_string(*expected_max).as_str());
                push_str(&mut prefix, ", but got ");
                framed(prefix.as_str(), debug_text(actual).as_str(), ".")
            },
            EvalexprError::ExpectedEmpty { actual } => framed("Expected a Value::Empty, but got ", debug_text(actual).as_str(), "."),
            EvalexprError::AppendedToLeafNode => "Tried to append a node to a leaf node.".to_owned(),
            EvalexprError::PrecedenceViolation => "Tried to append a node to another node with higher precedence.".to_owned(),
            EvalexprError::VariableIdentifierNotFound(identifier) =>
                framed("Variable identifier is not bound to anything by context: ", debug_text(identifier).as_str(), "."),
            EvalexprError::FunctionIdentifierNotFound(identifier) =>
                framed("Function identifier is not bound to anything by context: ", debug_text(identifier).as_str(), "."),
            EvalexprError::TypeError { expected, actual } => {
                let mut middle = debug_text(expected);
                push_str(&mut middle, ", but got ");
                push_str(&mut middle, debug_text(actual).as_str());
                framed("Expected one of ", middle.as_str(), ".")
            },
            EvalexprError::WrongTypeCombination { operator, actual } => {
                let mut middle = debug_text(operator);
                push_str(&mut middle, " was called with a wrong combination of types: ");
                push_str(&mut middle, debug_text(actual).as_str());
                proof {
                    reveal_strlit("");
                    assert(""@ =~= Seq::<char>::empty());
                }
                framed("The operator ", middle.as_str(), "")
            },
            EvalexprError::UnmatchedLBrace => "Found an unmatched opening parenthesis '('.".to_owned(),
            EvalexprError::UnmatchedRBrace => "Found an unmatched closing parenthesis ')'.".to_owned(),
            EvalexprError::UnmatchedDoubleQuote => "Found an unmatched double quote '\"'".to_owned(),
            EvalexprError::MissingOperatorOutsideOfBrace => "Found an opening parenthesis that is preceded by something that does not take any arguments on the right, or found a closing parenthesis that is succeeded by something that does not take any arguments on the left.".to_owned(),
            EvalexprError::UnmatchedPartialToken { first, second } => {
                match second {
                    Some(second) => {
                        let mut middle = debug_text(first);
                        push_str(&mut middle, "' that should not be followed by '");
                        push_str(&mut middle, debug_text(second).as_str());
                        framed("Found a partial token '", middle.as_str(), "'.")
                    },
                    None => framed("Found a partial token '", debug_text(first).as_str(),
                        "' that should be followed by another partial token."),
                }
            },
            EvalexprError::AdditionError { augend, addend } => values_message("Error adding ", augend, " + ", addend),
            EvalexprError::SubtractionError { minuend, subtrahend } => values_message("Error subtracting ", minuend, " - ", subtrahend),
            EvalexprError::NegationError { argument } => {
                let mut r = "Error negating -".to_owned();
                push_str(&mut r, argument.to_display_string().as_str());
                proof {
                    if display_model(argument@) is None {
                        assert(r@.subrange(0, "Error negating -"@.len() as int) =~= "Error negating -"@);
                        assert(r@.subrange(r@.len() - 0, r@.len() as int) =~= Seq::<char>::empty());
                    }
                }
                r
            },
            EvalexprError::MultiplicationError { multiplicand, multiplier } =>
                values_message("Error multiplying ", multiplicand, " * ", multiplier),
            EvalexprError::DivisionError { dividend, divisor } => values_message("Error dividing ", dividend, " / ", divisor),
            EvalexprError::ModulationError { dividend, divisor } => values_message("Error modulating ", dividend, " % ", divisor),
            EvalexprError::InvalidRegex { regex, message } => {
                let mut middle = debug_text(regex);
                push_str(&mut middle, " is invalid: ");
                push_str(&mut middle, debug_text(message).as_str());
                proof {
                    reveal_strlit("");
                    assert(""@ =~= Seq::<char>::empty());
                }
                framed("Regular expression ", middle.as_str(), "")
            },
            EvalexprError::ContextNotMutable => "Cannot manipulate context".to_owned(),
            EvalexprError::IllegalEscapeSequence(string) => {
                let mut r = "Illegal escape sequence: ".to_owned();
                push_str(&mut r, string.as_str());
                r
            },
            EvalexprError::BuiltinFunctionsCannotBeEnabled => "This context does not allow enabling builtin functions".to_owned(),
            EvalexprError::BuiltinFunctionsCannotBeDisabled => "This context does not allow disabling builtin functions".to_owned(),
            EvalexprError::OutOfBoundsAccess => "Tried to access a tuple or string at an invalid index".to_owned(),
            EvalexprError::IntFromUsize { usize_int } => {
                let mut r = "The usize ".to_owned();
                push_str(&mut r, usize_to_string(*usize_int).as_str());
                push_str(&mut r, " does not fit into the chosen integer type");
                r
            },
            EvalexprError::IntIntoUsize { int: integer } => {
                let mut r = "The integer ".to_owned();
                push_str(&mut r, int_to_string(*integer).as_str());
                push_str(&mut r, " does not fit into a usize");
                r
            },
            EvalexprError::RandNotEnabled => "The feature 'rand' must be enabled to use randomness.".to_owned(),
            EvalexprError::CustomMessage(message) => {
                let mut r = "Error: ".to_owned();
                push_str(&mut r, message.as_str());
                r
            },
        }
    }
}

impl Error {
    /// A custom error whose message is the message of an evaluation error.
    pub fn from_evalexpr_error<F: EvalexprFloat + core::fmt::Debug>(err: &EvalexprError<F>) -> (r: Error)
        ensures
            r@ matches ErrorModel::CustomError(m) && text_holds(error_text(err@), m),
    {
        Error::CustomError(err.to_display_string())
    }
}

} // verus!
