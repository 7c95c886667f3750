//! The `error` module contains the `EvalexprError` enum that contains all error types used by this crate,
//! together with constructors for its struct variants and helper functions starting with `expect_`
//! that check for a condition and return `Err(_)` if the condition is not fulfilled.
use vstd::prelude::*;
use crate::numeric::EvalexprFloat;
use crate::value::{Value, VModel, ValueType, IntType, value_type_of};
use crate::operator::Operator;
use crate::token::{PartialToken, PModel};

verus! {

/// Errors used in this crate.
#[derive(Debug, PartialEq)]
#[allow(inconsistent_fields)]
pub enum EvalexprError<F> {
    /// An operator was called with a wrong amount of arguments.
    WrongOperatorArgumentAmount { expected: usize, actual: usize },
    /// A function was called with a wrong amount of arguments
    /// (the expected amount lies in `expected_min..=expected_max`).
    WrongFunctionArgumentAmount { expected_min: usize, expected_max: usize, actual: usize },
    /// A string value was expected.
    ExpectedString { actual: Value<F> },
    /// An integer value was expected.
    ExpectedInt { actual: Value<F> },
    /// A float value was expected.
    ExpectedFloat { actual: Value<F> },
    /// A numeric value was expected.
    ExpectedNumber { actual: Value<F> },
    /// A numeric or string value was expected.
    ExpectedNumberOrString { actual: Value<F> },
    /// A boolean value was expected.
    ExpectedBoolean { actual: Value<F> },
    /// A tuple value was expected.
    ExpectedTuple { actual: Value<F> },
    /// A tuple value of a certain length was expected.
    ExpectedFixedLengthTuple { expected_length: usize, actual: Value<F> },
    /// A tuple value of a length in `expected_min..=expected_max` was expected.
    ExpectedRangedLengthTuple { expected_min: usize, expected_max: usize, actual: Value<F> },
    /// An empty value was expected.
    ExpectedEmpty { actual: Value<F> },
    /// Tried to append a child to a leaf node.
    AppendedToLeafNode,
    /// Tried to append a child to a node such that the precedence of the child is not higher.
    PrecedenceViolation,
    /// A `VariableIdentifier` operation did not find its value in the context.
    VariableIdentifierNotFound(String),
    /// A `FunctionIdentifier` operation did not find its value in the context.
    FunctionIdentifierNotFound(String),
    /// A value has the wrong type.
    TypeError { expected: Vec<ValueType>, actual: Value<F> },
    /// An operator is used with a wrong combination of types.
    WrongTypeCombination { operator: Operator<F>, actual: Vec<ValueType> },
    /// An opening brace without a matching closing brace was found.
    UnmatchedLBrace,
    /// A closing brace without a matching opening brace was found.
    UnmatchedRBrace,
    /// A double quote without a matching second double quote was found.
    UnmatchedDoubleQuote,
    /// Left of an opening brace or right of a closing brace is a token that does not expect the brace next to it.
    MissingOperatorOutsideOfBrace,
    /// A `PartialToken` is unmatched, such that it cannot be combined into a full `Token`.
    UnmatchedPartialToken { first: PartialToken<F>, second: Option<PartialToken<F>> },
    /// An addition operation performed by Rust failed.
    AdditionError { augend: Value<F>, addend: Value<F> },
    /// A subtraction operation performed by Rust failed.
    SubtractionError { minuend: Value<F>, subtrahend: Value<F> },
    /// A negation operation performed by Rust failed.
    NegationError { argument: Value<F> },
    /// A multiplication operation performed by Rust failed.
    MultiplicationError { multiplicand: Value<F>, multiplier: Value<F> },
    /// A division operation performed by Rust failed.
    DivisionError { dividend: Value<F>, divisor: Value<F> },
    /// A modulation operation performed by Rust failed.
    ModulationError { dividend: Value<F>, divisor: Value<F> },
    /// A regular expression could not be parsed.
    InvalidRegex { regex: String, message: String },
    /// A modification was attempted on a `Context` that does not allow modifications.
    ContextNotMutable,
    /// An escape sequence within a string literal is illegal.
    IllegalEscapeSequence(String),
    /// This context does not allow enabling builtin functions.
    BuiltinFunctionsCannotBeEnabled,
    /// This context does not allow disabling builtin functions.
    BuiltinFunctionsCannotBeDisabled,
    /// Out of bounds sequence access.
    OutOfBoundsAccess,
    /// A `usize` was attempted to be converted to an `int`, but it was out of range.
    IntFromUsize { usize_int: usize },
    /// An `int` was attempted to be converted to a `usize`, but it was out of range.
    IntIntoUsize { int: IntType },
    /// The random number generator is not available.
    RandNotEnabled,
    /// A custom error explained by its message.
    CustomMessage(String),
}

/// The model of an `EvalexprError`: values by their models, strings by their characters.
#[allow(inconsistent_fields)]
pub ghost enum EModel<F> {
    WrongOperatorArgumentAmount { expected: nat, actual: nat },
    WrongFunctionArgumentAmount { expected_min: nat, expected_max: nat, actual: nat },
    ExpectedString { actual: VModel<F> },
    ExpectedInt { actual: VModel<F> },
    ExpectedFloat { actual: VModel<F> },
    ExpectedNumber { actual: VModel<F> },
    ExpectedNumberOrString { actual: VModel<F> },
    ExpectedBoolean { actual: VModel<F> },
    ExpectedTuple { actual: VModel<F> },
    ExpectedFixedLengthTuple { expected_length: nat, actual: VModel<F> },
    ExpectedRangedLengthTuple { expected_min: nat, expected_max: nat, actual: VModel<F> },
    ExpectedEmpty { actual: VModel<F> },
    AppendedToLeafNode,
    PrecedenceViolation,
    VariableIdentifierNotFound(Seq<char>),
    FunctionIdentifierNotFound(Seq<char>),
    TypeError { expected: Seq<ValueType>, actual: VModel<F> },
    WrongTypeCombination { operator: Operator<F>, actual: Seq<ValueType> },
    UnmatchedLBrace,
    UnmatchedRBrace,
    UnmatchedDoubleQuote,
    MissingOperatorOutsideOfBrace,
    UnmatchedPartialToken { first: PModel<F>, second: Option<PModel<F>> },
    AdditionError { augend: VModel<F>, addend: VModel<F> },
    SubtractionError { minuend: VModel<F>, subtrahend: VModel<F> },
    NegationError { argument: VModel<F> },
    MultiplicationError { multiplicand: VModel<F>, multiplier: VModel<F> },
    DivisionError { dividend: VModel<F>, divisor: VModel<F> },
    ModulationError { dividend: VModel<F>, divisor: VModel<F> },
    InvalidRegex { regex: Seq<char>, message: Seq<char> },
    ContextNotMutable,
    IllegalEscapeSequence(Seq<char>),
    BuiltinFunctionsCannotBeEnabled,
    BuiltinFunctionsCannotBeDisabled,
    OutOfBoundsAccess,
    IntFromUsize { usize_int: nat },
    IntIntoUsize { int: int },
    RandNotEnabled,
    CustomMessage(Seq<char>),
}

impl<F> View for EvalexprError<F> {
    type V = EModel<F>;

    open spec fn view(&self) -> EModel<F> {
        match *self {
            EvalexprError::WrongOperatorArgumentAmount { expected, actual } =>
                EModel::WrongOperatorArgumentAmount { expected: expected as nat, actual: actual as nat },
            EvalexprError::WrongFunctionArgumentAmount { expected_min, expected_max, actual } =>
                EModel::WrongFunctionArgumentAmount { expected_min: expected_min as nat, expected_max: expected_max as nat, actual: actual as nat },
            EvalexprError::ExpectedString { actual } => EModel::ExpectedString { actual: actual@ },
            EvalexprError::ExpectedInt { actual } => EModel::ExpectedInt { actual: actual@ },
            EvalexprError::ExpectedFloat { actual } => EModel::ExpectedFloat { actual: actual@ },
            EvalexprError::ExpectedNumber { actual } => EModel::ExpectedNumber { actual: actual@ },
            EvalexprError::ExpectedNumberOrString { actual } => EModel::ExpectedNumberOrString { actual: actual@ },
            EvalexprError::ExpectedBoolean { actual } => EModel::ExpectedBoolean { actual: actual@ },
            EvalexprError::ExpectedTuple { actual } => EModel::ExpectedTuple { actual: actual@ },
            EvalexprError::ExpectedFixedLengthTuple { expected_length, actual } =>
                EModel::ExpectedFixedLengthTuple { expected_length: expected_length as nat, actual: actual@ },
            EvalexprError::ExpectedRangedLengthTuple { expected_min, expected_max, actual } =>
                EModel::ExpectedRangedLengthTuple { expected_min: expected_min as nat, expected_max: expected_max as nat, actual: actual@ },
            EvalexprError::ExpectedEmpty { actual } => EModel::ExpectedEmpty { actual: actual@ },
            EvalexprError::AppendedToLeafNode => EModel::AppendedToLeafNode,
            EvalexprError::PrecedenceViolation => EModel::PrecedenceViolation,
            EvalexprError::VariableIdentifierNotFound(s) => EModel::VariableIdentifierNotFound(s@),
            EvalexprError::FunctionIdentifierNotFound(s) => EModel::FunctionIdentifierNotFound(s@),
            EvalexprError::TypeError { expected, actual } => EModel::TypeError { expected: expected@, actual: actual@ },
            EvalexprError::WrongTypeCombination { operator, actual } => EModel::WrongTypeCombination { operator, actual: actual@ },
            EvalexprError::UnmatchedLBrace => EModel::UnmatchedLBrace,
            EvalexprError::UnmatchedRBrace => EModel::UnmatchedRBrace,
            EvalexprError::UnmatchedDoubleQuote => EModel::UnmatchedDoubleQuote,
            EvalexprError::MissingOperatorOutsideOfBrace => EModel::MissingOperatorOutsideOfBrace,
            EvalexprError::UnmatchedPartialToken { first, second } => EModel::UnmatchedPartialToken {
                first: first@,
                second: match second { Some(p) => Some(p@), None => None },
            },
            EvalexprError::AdditionError { augend, addend } => EModel::AdditionError { augend: augend@, addend: addend@ },
            EvalexprError::SubtractionError { minuend, subtrahend } => EModel::SubtractionError { minuend: minuend@, subtrahend: subtrahend@ },
            EvalexprError::NegationError { argument } => EModel::NegationError { argument: argument@ },
            EvalexprError::MultiplicationError { multiplicand, multiplier } =>
                EModel::MultiplicationError { multiplicand: multiplicand@, multiplier: multiplier@ },
            EvalexprError::DivisionError { dividend, divisor } => EModel::DivisionError { dividend: dividend@, divisor: divisor@ },
            EvalexprError::ModulationError { dividend, divisor } => EModel::ModulationError { dividend: dividend@, divisor: divisor@ },
            EvalexprError::InvalidRegex { regex, message } => EModel::InvalidRegex { regex: regex@, message: message@ },
            EvalexprError::ContextNotMutable => EModel::ContextNotMutable,
            EvalexprError::IllegalEscapeSequence(s) => EModel::IllegalEscapeSequence(s@),
            EvalexprError::BuiltinFunctionsCannotBeEnabled => EModel::BuiltinFunctionsCannotBeEnabled,
            EvalexprError::BuiltinFunctionsCannotBeDisabled => EModel::BuiltinFunctionsCannotBeDisabled,
            EvalexprError::OutOfBoundsAccess => EModel::OutOfBoundsAccess,
            EvalexprError::IntFromUsize { usize_int } => EModel::IntFromUsize { usize_int: usize_int as nat },
            EvalexprError::IntIntoUsize { int: v } => EModel::IntIntoUsize { int: v as int },
            EvalexprError::RandNotEnabled => EModel::RandNotEnabled,
            EvalexprError::CustomMessage(s) => EModel::CustomMessage(s@),
        }
    }
}

/// Standard result type used by this crate.
pub type EvalexprResult<T, F> = Result<T, EvalexprError<F>>;

/// The model of a result of evaluation.
pub type RModel<F> = Result<VModel<F>, EModel<F>>;

/// The model of an `EvalexprResult<Value<F>, F>`.
pub open spec fn result_model<F>(r: EvalexprResult<Value<F>, F>) -> RModel<F> {
    match r {
        Ok(v) => Ok(v@),
        Err(e) => Err(e@),
    }
}

impl<F: EvalexprFloat> EvalexprError<F> {
    /// Construct a `WrongOperatorArgumentAmount` error.
    pub fn wrong_operator_argument_amount(actual: usize, expected: usize) -> (r: Self)
        ensures
            r == (EvalexprError::<F>::WrongOperatorArgumentAmount { actual, expected }),
    {
        EvalexprError::WrongOperatorArgumentAmount { actual, expected }
    }

    /// Construct a `WrongFunctionArgumentAmount` error for a function with a fixed amount of arguments.
    pub fn wrong_function_argument_amount(actual: usize, expected: usize) -> (r: Self)
        ensures
            r == (EvalexprError::<F>::WrongFunctionArgumentAmount { actual, expected_min: expected, expected_max: expected }),
    {
        EvalexprError::WrongFunctionArgumentAmount { actual, expected_min: expected, expected_max: expected }
    }

    /// Construct a `WrongFunctionArgumentAmount` error for a function with a range of possible amounts of arguments.
    pub fn wrong_function_argument_amount_range(actual: usize, expected_min: usize, expected_max: usize) -> (r: Self)
        ensures
            r == (EvalexprError::<F>::WrongFunctionArgumentAmount { actual, expected_min, expected_max }),
    {
        EvalexprError::WrongFunctionArgumentAmount { actual, expected_min, expected_max }
    }

    /// Constructs `EvalexprError::TypeError{actual, expected}`.
    pub fn type_error(actual: Value<F>, expected: Vec<ValueType>) -> (r: Self)
        ensures
            r == (EvalexprError::<F>::TypeError { actual, expected }),
    {
        EvalexprError::TypeError { actual, expected }
    }

    /// Constructs `EvalexprError::WrongTypeCombination{operator, actual}`.
    pub fn wrong_type_combination(operator: Operator<F>, actual: Vec<ValueType>) -> (r: Self)
        ensures
            r == (EvalexprError::<F>::WrongTypeCombination { operator, actual }),
    {
        EvalexprError::WrongTypeCombination { operator, actual }
    }

    /// Constructs `EvalexprError::ExpectedString{actual}`.
    pub fn expected_string(actual: Value<F>) -> (r: Self)
        ensures
            r == (EvalexprError::<F>::ExpectedString { actual }),
    {
        EvalexprError::ExpectedString { actual }
    }

    /// Constructs `EvalexprError::ExpectedInt{actual}`.
    pub fn expected_int(actual: Value<F>) -> (r: Self)
        ensures
            r == (EvalexprError::<F>::ExpectedInt { actual }),
    {
        EvalexprError::ExpectedInt { actual }
    }

    /// Constructs `EvalexprError::ExpectedFloat{actual}`.
    pub fn expected_float(actual: Value<F>) -> (r: Self)
        ensures
            r == (EvalexprError::<F>::ExpectedFloat { actual }),
    {
        EvalexprError::ExpectedFloat { actual }
    }

    /// Constructs `EvalexprError::ExpectedNumber{actual}`.
    pub fn expected_number(actual: Value<F>) -> (r: Self)
        ensures
            r == (EvalexprError::<F>::ExpectedNumber { actual }),
    {
        EvalexprError::ExpectedNumber { actual }
    }

    /// Constructs `EvalexprError::ExpectedNumberOrString{actual}`.
    pub fn expected_number_or_string(actual: Value<F>) -> (r: Self)
        ensures
            r == (EvalexprError::<F>::ExpectedNumberOrString { actual }),
    {
        EvalexprError::ExpectedNumberOrString { actual }
    }

    /// Constructs `EvalexprError::ExpectedBoolean{actual}`.
    pub fn expected_boolean(actual: Value<F>) -> (r: Self)
        ensures
            r == (EvalexprError::<F>::ExpectedBoolean { actual }),
    {
        EvalexprError::ExpectedBoolean { actual }
    }

    /// Constructs `EvalexprError::ExpectedTuple{actual}`.
    pub fn expected_tuple(actual: Value<F>) -> (r: Self)
        ensures
            r == (EvalexprError::<F>::ExpectedTuple { actual }),
    {
        EvalexprError::ExpectedTuple { actual }
    }

    /// Constructs `EvalexprError::ExpectedFixedLengthTuple{expected_length, actual}`.
    pub fn expected_fixed_len_tuple(expected_len: usize, actual: Value<F>) -> (r: Self)
        ensures
            r == (EvalexprError::<F>::ExpectedFixedLengthTuple { expected_length: expected_len, actual }),
    {
        EvalexprError::ExpectedFixedLengthTuple { expected_length: expected_len, actual }
    }

    /// Constructs `EvalexprError::ExpectedRangedLengthTuple{expected_min, expected_max, actual}`.
    pub fn expected_ranged_len_tuple(expected_min: usize, expected_max: usize, actual: Value<F>) -> (r: Self)
        ensures
            r == (EvalexprError::<F>::ExpectedRangedLengthTuple { expected_min, expected_max, actual }),
    {
        EvalexprError::ExpectedRangedLengthTuple { expected_min, expected_max, actual }
    }

    /// Constructs `EvalexprError::ExpectedEmpty{actual}`.
    pub fn expected_empty(actual: Value<F>) -> (r: Self)
        ensures
            r == (EvalexprError::<F>::ExpectedEmpty { actual }),
    {
        EvalexprError::ExpectedEmpty { actual }
    }

    /// Constructs an error that expresses that the type of `expected` was expected, but `actual` was found.
    pub fn expected_type(expected: &Value<F>, actual: Value<F>) -> (r: Self)
        ensures
            r == expected_type_error(value_type_of(*expected), actual),
    {
        match ValueType::from_value(expected) {
            ValueType::String => Self::expected_string(actual),
            ValueType::Int => Self::expected_int(actual),
            ValueType::Float => Self::expected_float(actual),
            ValueType::Boolean => Self::expected_boolean(actual),
            ValueType::Tuple => Self::expected_tuple(actual),
            ValueType::Empty => Self::expected_empty(actual),
        }
    }

    /// Constructs `EvalexprError::InvalidRegex{regex, message}`.
    pub fn invalid_regex(regex: String, message: String) -> (r: Self)
        ensures
            r == (EvalexprError::<F>::InvalidRegex { regex, message }),
    {
        EvalexprError::InvalidRegex { regex, message }
    }
}

/// The error that reports that a value of type `expected` was expected, but `actual` was found.
pub open spec fn expected_type_error<F>(expected: ValueType, actual: Value<F>) -> EvalexprError<F> {
    match expected {
        ValueType::String => EvalexprError::ExpectedString { actual },
        ValueType::Int => EvalexprError::ExpectedInt { actual },
        ValueType::Float => EvalexprError::ExpectedFloat { actual },
        ValueType::Boolean => EvalexprError::ExpectedBoolean { actual },
        ValueType::Tuple => EvalexprError::ExpectedTuple { actual },
        ValueType::Empty => EvalexprError::ExpectedEmpty { actual },
    }
}

/// Returns `Ok(())` if the actual and expected parameters are equal, and `Err(Error::WrongOperatorArgumentAmount)` otherwise.
pub fn expect_operator_argument_amount<F: EvalexprFloat>(actual: usize, expected: usize) -> (r: EvalexprResult<(), F>)
    ensures
        r == (if actual == expected { Ok(()) } else { Err(EvalexprError::<F>::WrongOperatorArgumentAmount { actual, expected }) }),
{
    if actual == expected {
        Ok(())
    } else {
        Err(EvalexprError::wrong_operator_argument_amount(actual, expected))
    }
}

/// Returns `Ok(())` if the actual and expected parameters are equal, and `Err(Error::WrongFunctionArgumentAmount)` otherwise.
pub fn expect_function_argument_amount<F: EvalexprFloat>(actual: usize, expected: usize) -> (r: EvalexprResult<(), F>)
    ensures
        r == (if actual == expected { Ok(()) } else {
            Err(EvalexprError::<F>::WrongFunctionArgumentAmount { actual, expected_min: expected, expected_max: expected })
        }),
{
    if actual == expected {
        Ok(())
    } else {
        Err(EvalexprError::wrong_function_argument_amount(actual, expected))
    }
}

/// Returns `Ok(())` if the given value is a string or a numeric.
pub fn expect_number_or_string<F: EvalexprFloat>(actual: &Value<F>) -> (r: EvalexprResult<(), F>)
    ensures
        match *actual {
            Value::String(_) | Value::Float(_) | Value::Int(_) => r is Ok,
            _ => r matches Err(e) && e@ == EModel::<F>::ExpectedNumberOrString { actual: actual@ },
        },
{
    match actual {
        Value::String(_) | Value::Float(_) | Value::Int(_) => Ok(()),
        _ => Err(EvalexprError::expected_number_or_string(actual.copy_value())),
    }
}

} // verus!
