//! Errors with numeric codes, and results in a form that crosses a foreign function interface.
use vstd::prelude::*;
use crate::text::{string_of_chars, push_str};

verus! {

/// The errors of the calculation templates and of the value arithmetic.
#[derive(Debug)]
pub enum Error {
    UnsupportedArithmeticBetweenTypes,
    UnsupportedOperation,
    DivisionByZero,
    NonNumericType,
    InvalidArgumentType,
    InvalidInputString,
    InvalidDateFormat,
    CustomError(String),
}

/// The model of an `Error`: a custom error by its message's characters.
pub ghost enum ErrorModel {
    UnsupportedArithmeticBetweenTypes,
    UnsupportedOperation,
    DivisionByZero,
    NonNumericType,
    InvalidArgumentType,
    InvalidInputString,
    InvalidDateFormat,
    CustomError(Seq<char>),
}

impl View for Error {
    type V = ErrorModel;

    open spec fn view(&self) -> ErrorModel {
        match *self {
            Error::UnsupportedArithmeticBetweenTypes => ErrorModel::UnsupportedArithmeticBetweenTypes,
            Error::UnsupportedOperation => ErrorModel::UnsupportedOperation,
            Error::DivisionByZero => ErrorModel::DivisionByZero,
            Error::NonNumericType => ErrorModel::NonNumericType,
            Error::InvalidArgumentType => ErrorModel::InvalidArgumentType,
            Error::InvalidInputString => ErrorModel::InvalidInputString,
            Error::InvalidDateFormat => ErrorModel::InvalidDateFormat,
            Error::CustomError(m) => ErrorModel::CustomError(m@),
        }
    }
}

/// The text of an error, as it is displayed.
pub open spec fn error_text(e: ErrorModel) -> Seq<char> {
    match e {
        ErrorModel::UnsupportedArithmeticBetweenTypes => "Unsupported arithmetic between types"@,
        ErrorModel::UnsupportedOperation => "Unsupported operation"@,
        ErrorModel::DivisionByZero => "Division by zero"@,
        ErrorModel::NonNumericType => "Non-numeric type"@,
        ErrorModel::InvalidArgumentType => "Invalid argument type"@,
        ErrorModel::InvalidInputString => "Invalid input string"@,
        ErrorModel::InvalidDateFormat => "Invalid date format"@,
        ErrorModel::CustomError(m) => "Custom error: "@ + m,
    }
}

impl Error {
    /// The text of the error, as it is displayed.
    pub fn to_display_string(&self) -> (r: String)
        ensures
            r@ == error_text(self@),
    {
        match self {
            Error::UnsupportedArithmeticBetweenTypes => "Unsupported arithmetic between types".to_owned(),
            Error::UnsupportedOperation => "Unsupported operation".to_owned(),
            Error::DivisionByZero => "Division by zero".to_owned(),
            Error::NonNumericType => "Non-numeric type".to_owned(),
            Error::InvalidArgumentType => "Invalid argument type".to_owned(),
            Error::InvalidInputString => "Invalid input string".to_owned(),
            Error::InvalidDateFormat => "Invalid date format".to_owned(),
            Error::CustomError(msg) => {
                let mut r = "Custom error: ".to_owned();
                push_str(&mut r, msg.as_str());
                r
            },
        }
    }
}

/// The message of a custom error that comes without one.
pub open spec fn default_custom_message() -> Seq<char> {
    seq!['C', 'u', 's', 't', 'o', 'm', ' ', 'e', 'r', 'r', 'o', 'r']
}

/// The error that an error code stands for (an unknown code stands for `UnsupportedOperation`).
pub open spec fn error_of_code(code: i32, custom_error: Option<Seq<char>>) -> ErrorModel {
    if code == 1 { ErrorModel::UnsupportedOperation }
    else if code == 2 { ErrorModel::DivisionByZero }
    else if code == 3 { ErrorModel::NonNumericType }
    else if code == 4 { ErrorModel::UnsupportedArithmeticBetweenTypes }
    else if code == 5 { ErrorModel::InvalidArgumentType }
    else if code == 6 { ErrorModel::InvalidInputString }
    else if code == 7 { ErrorModel::InvalidDateFormat }
    else if code == 8 {
        ErrorModel::CustomError(match custom_error { Some(m) => m, None => default_custom_message() })
    }
    else { ErrorModel::UnsupportedOperation }
}

/// The code of an error.
pub open spec fn code_of_error(e: ErrorModel) -> i32 {
    match e {
        ErrorModel::UnsupportedOperation => 1,
        ErrorModel::DivisionByZero => 2,
        ErrorModel::NonNumericType => 3,
        ErrorModel::UnsupportedArithmeticBetweenTypes => 4,
        ErrorModel::InvalidArgumentType => 5,
        ErrorModel::InvalidInputString => 6,
        ErrorModel::InvalidDateFormat => 7,
        ErrorModel::CustomError(_) => 8,
    }
}

/// The message of an error: that of a custom error, none for the others.
pub open spec fn message_of_error(e: ErrorModel) -> Option<Seq<char>> {
    match e {
        ErrorModel::CustomError(m) => Some(m),
        _ => None,
    }
}

/// An error that has a numeric code and may have a message.
pub trait ToErrorType {
    /// The code of the error.
    spec fn spec_error_code(&self) -> i32;

    /// The message of the error, if it has one.
    spec fn spec_error_message(&self) -> Option<Seq<char>>;

    /// Returns the code of the error.
    fn to_error_code(&self) -> (r: i32)
        ensures
            r == self.spec_error_code();

    /// Returns the message of the error, if it has one.
    fn to_error_message(&self) -> (r: Option<String>)
        ensures
            match r {
                Some(m) => self.spec_error_message() == Some(m@),
                None => self.spec_error_message() is None,
            };
}

impl Error {
    /// Builds the error that a code stands for, with the given message for a custom error
    /// (code 8). An unknown code stands for `UnsupportedOperation`.
    pub fn from_error_code(code: i32, custom_error: Option<String>) -> (r: Self)
        ensures
            r@ == error_of_code(code, match custom_error { Some(m) => Some(m@), None => None }),
    {
        if code == 1 { Error::UnsupportedOperation }
        else if code == 2 { Error::DivisionByZero }
        else if code == 3 { Error::NonNumericType }
        else if code == 4 { Error::UnsupportedArithmeticBetweenTypes }
        else if code == 5 { Error::InvalidArgumentType }
        else if code == 6 { Error::InvalidInputString }
        else if code == 7 { Error::InvalidDateFormat }
        else if code == 8 {
            Error::CustomError(match custom_error {
                Some(m) => m,
                None => {
                    let m = string_of_chars(&['C', 'u', 's', 't', 'o', 'm', ' ', 'e', 'r', 'r', 'o', 'r']);
                    assert(m@ =~= default_custom_message());
                    m
                },
            })
        }
        else { Error::UnsupportedOperation }
    }
}

impl ToErrorType for Error {
    open spec fn spec_error_code(&self) -> i32 {
        code_of_error(self@)
    }

    open spec fn spec_error_message(&self) -> Option<Seq<char>> {
        message_of_error(self@)
    }

    fn to_error_code(&self) -> (r: i32) {
        match self {
            Error::UnsupportedOperation => 1,
            Error::DivisionByZero => 2,
            Error::NonNumericType => 3,
            Error::UnsupportedArithmeticBetweenTypes => 4,
            Error::InvalidArgumentType => 5,
            Error::InvalidInputString => 6,
            Error::InvalidDateFormat => 7,
            Error::CustomError(_) => 8,
        }
    }

    fn to_error_message(&self) -> (r: Option<String>) {
        match self {
            Error::CustomError(message) => Some(message.clone()),
            _ => None,
        }
    }
}

/// Turning an error into its code and message and back gives the same error.
pub proof fn lemma_error_code_round_trip(e: Error)
    ensures
        error_of_code(e.spec_error_code(), e.spec_error_message()) == e@,
{
}

/// A result in a form that crosses a foreign function interface.
pub struct FfiResult<T> {
    /// The value, which will be a default value in case of an error.
    pub value: T,
    /// An integer error code. 0 indicates success, non-zero indicates an error.
    pub error_code: i32,
    /// The error's message, empty where there is none.
    pub error_message: String,
}

/// The message of an error as the foreign function interface carries it: empty where there is none.
pub open spec fn ffi_message(m: Option<Seq<char>>) -> Seq<char> {
    match m {
        Some(m) => m,
        None => Seq::empty(),
    }
}

/// The message of an error, or the empty string.
fn message_or_empty<E: ToErrorType>(e: &E) -> (r: String)
    ensures
        r@ == ffi_message(e.spec_error_message()),
{
    match e.to_error_message() {
        Some(m) => m,
        None => String::new(),
    }
}

/// Whether `r` is what `to_ffi_result` makes of `result`: the value with code 0 and an empty
/// message, or a value that `T::default()` gives with the error's code and message.
pub open spec fn is_ffi_result_of<T: Default, E: ToErrorType>(result: Result<T, E>, r: FfiResult<T>) -> bool {
    match result {
        Ok(v) => r.value == v && r.error_code == 0 && r.error_message@ == Seq::<char>::empty(),
        Err(e) => r.error_code == e.spec_error_code() && r.error_message@ == ffi_message(e.spec_error_message())
            && call_ensures(T::default, (), r.value),
    }
}

/// Converts a `Result<T, E>` into an `FfiResult<T>`: the value with code 0 and an empty message,
/// or `T::default()` with the error's code and message.
pub fn to_ffi_result<T: Default, E: ToErrorType>(result: Result<T, E>) -> (r: FfiResult<T>)
    ensures
        is_ffi_result_of(result, r),
{
    match result {
        Ok(value) => FfiResult { value, error_code: 0, error_message: String::new() },
        Err(e) => FfiResult { value: T::default(), error_code: e.to_error_code(), error_message: message_or_empty(&e) },
    }
}

/// The message of a panic: its text where it carried one (as `&str` or as `String`), else `default`.
pub open spec fn panic_message(as_str: Option<Seq<char>>, as_string: Option<Seq<char>>, default: Seq<char>) -> Seq<char> {
    match as_str {
        Some(m) => m,
        None => match as_string {
            Some(m) => m,
            None => default,
        },
    }
}

/// The message of a panic whose payload was a `&str` (`as_str`) or a `String` (`as_string`), or
/// `Unknown panic`.
pub fn message_of_panic(as_str: Option<String>, as_string: Option<String>) -> (r: String)
    ensures
        r@ == panic_message(
            match as_str { Some(m) => Some(m@), None => None },
            match as_string { Some(m) => Some(m@), None => None },
            seq!['U', 'n', 'k', 'n', 'o', 'w', 'n', ' ', 'p', 'a', 'n', 'i', 'c'],
        ),
{
    match as_str {
        Some(m) => m,
        None => match as_string {
            Some(m) => m,
            None => {
                let m = string_of_chars(&['U', 'n', 'k', 'n', 'o', 'w', 'n', ' ', 'p', 'a', 'n', 'i', 'c']);
                assert(m@ =~= seq!['U', 'n', 'k', 'n', 'o', 'w', 'n', ' ', 'p', 'a', 'n', 'i', 'c']);
                m
            },
        },
    }
}

/// The message of a panic caught around a calculation template: its text where it carried one
/// (as `&str` in `as_str`, or as `String` in `as_string`), or `Caught a panic with an unknown type.`.
pub fn extract_message_from_any_error(as_str: Option<String>, as_string: Option<String>) -> (r: String)
    ensures
        r@ == panic_message(
            match as_str { Some(m) => Some(m@), None => None },
            match as_string { Some(m) => Some(m@), None => None },
            "Caught a panic with an unknown type."@,
        ),
{
    match as_str {
        Some(m) => m,
        None => match as_string {
            Some(m) => m,
            None => "Caught a panic with an unknown type.".to_owned(),
        },
    }
}

/// Converts the outcome of a call that may have panicked into an `FfiResult<T>`: the inner result
/// as `to_ffi_result` converts it, or, where the call panicked (`Err(message)`, the panic's message),
/// `T::default()` with code 8 and the message.
pub fn to_nested_ffi_result<T: Default, E: ToErrorType>(result: Result<Result<T, E>, String>) -> (r: FfiResult<T>)
    ensures
        match result {
            Ok(inner) => is_ffi_result_of(inner, r),
            Err(m) => r.error_code == 8 && r.error_message@ == m@ && call_ensures(T::default, (), r.value),
        },
{
    match result {
        Ok(inner) => to_ffi_result(inner),
        Err(message) => FfiResult { value: T::default(), error_code: 8, error_message: message },
    }
}

/// Turns an `Option` into a `Result`: the value, or a custom error with the given context as message.
pub fn context<T>(sself: Option<T>, message: &str) -> (r: Result<T, Error>)
    ensures
        match sself {
            Some(v) => r matches Ok(x) && x == v,
            None => r matches Err(e) && e@ == ErrorModel::CustomError(message@),
        },
{
    match sself {
        Some(ok) => Ok(ok),
        None => Err(Error::CustomError(message.to_owned())),
    }
}

/// The text that `{:?}` writes of a value (`format!` with `Debug`); nothing is stated of it.
#[verifier::external_body]
pub(crate) fn debug_text<E: core::fmt::Debug>(value: &E) -> String {
    format!("{:?}", value)
}

/// Turns a `Result` into one with an `Error`: the value, or a custom error whose message is the
/// message, ` - ` and the debug text of the error.
pub fn context_result<T, E: core::fmt::Debug>(sself: Result<T, E>, message: &str) -> (r: Result<T, Error>)
    ensures
        match sself {
            Ok(v) => r matches Ok(x) && x == v,
            Err(_) => r matches Err(e) && e@ matches ErrorModel::CustomError(m)
                && m.len() >= message@.len() + 3 && m.subrange(0, (message@.len() + 3) as int) == message@ + seq![' ', '-', ' '],
        },
{
    match sself {
        Ok(ok) => Ok(ok),
        Err(err) => {
            let mut text = message.to_owned();
            let separator = string_of_chars(&[' ', '-', ' ']);
            push_str(&mut text, separator.as_str());
            let ghost prefix = text@;
            push_str(&mut text, debug_text(&err).as_str());
            proof {
                assert(prefix =~= message@ + seq![' ', '-', ' ']);
                assert(text@.subrange(0, (message@.len() + 3) as int) =~= prefix);
            }
            Err(Error::CustomError(text))
        },
    }
}

} // verus!
