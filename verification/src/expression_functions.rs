//! Functions on values that calculation templates use inside their expressions.
use vstd::prelude::*;
use crate::numeric::EvalexprFloat;
use crate::value::{Value, VModel};
use crate::ffi::{Error, ErrorModel};
use crate::arithmetic::{Outcome, outcome_holds};
use crate::comparison::{value_greater, value_less, spec_greater, spec_less};
use crate::text::{chars_of, str_equal, push_str, string_from_range};
use crate::dates::{Stamp, valid_stamp, roundable, round_stamp, parsed_datetime, formatted_datetime, before_last, after_last, find_last};
use crate::builtin::{to_lowercase, lowercase_of};

verus! {

/// The empty value stands for zero; any other value for itself.
pub open spec fn null_as_zero<F>(v: VModel<F>) -> VModel<F> {
    if v is Empty { VModel::Int(0) } else { v }
}

/// The value, with the empty value replaced by the integer zero.
pub fn is_null<F: EvalexprFloat>(value: Value<F>) -> (r: Result<Value<F>, Error>)
    ensures
        r matches Ok(x) && x@ == null_as_zero(value@),
{
    Ok(match value {
        Value::Empty => Value::Int(0),
        v => v,
    })
}

/// `|v|`: of a number, its absolute value; the empty value stays empty; anything else is an
/// `InvalidArgumentType`.
pub open spec fn abs_outcome<F: EvalexprFloat>(v: VModel<F>) -> Outcome<F> {
    match v {
        VModel::Float(f) => Outcome::Exact(VModel::Float(f.spec_abs())),
        VModel::Int(n) => Outcome::Exact(VModel::Int(if n < 0 { -n } else { n })),
        VModel::Empty => Outcome::Exact(VModel::Empty),
        _ => Outcome::Fails(ErrorModel::InvalidArgumentType),
    }
}

/// The absolute value of a number; the empty value stays empty.
pub fn abs<F: EvalexprFloat>(value: Value<F>) -> (r: Result<Value<F>, Error>)
    requires
        value@ matches VModel::Int(n) ==> n != i64::MIN,
    ensures
        outcome_holds(abs_outcome(value@), r),
{
    match value {
        Value::Float(fl) => Ok(Value::Float(fl.abs())),
        Value::Int(nn) => Ok(Value::Int(if nn < 0 { -nn } else { nn })),
        Value::Empty => Ok(Value::Empty),
        _ => Err(Error::InvalidArgumentType),
    }
}

/// `left / right` that gives the empty value instead of dividing by zero: integers divide with
/// truncation; a float on either side gives a float; an empty operand gives the empty value;
/// anything else is an `InvalidArgumentType`.
pub open spec fn safe_divide_outcome<F: EvalexprFloat>(left: VModel<F>, right: VModel<F>) -> Outcome<F> {
    match (left, right) {
        (VModel::Float(l), VModel::Float(r)) => if r.spec_float_eq(F::spec_from_int(0)) {
            Outcome::Exact(VModel::Empty)
        } else {
            Outcome::Exact(VModel::Float(l.spec_div(r)))
        },
        (VModel::Int(l), VModel::Int(r)) => if r == 0 {
            Outcome::Exact(VModel::Empty)
        } else {
            Outcome::Exact(VModel::Int((l as i64).checked_div(r as i64).unwrap() as int))
        },
        (VModel::Float(l), VModel::Int(r)) => if r == 0 {
            Outcome::Exact(VModel::Empty)
        } else {
            Outcome::Exact(VModel::Float(l.spec_div(F::spec_from_int(r as i64))))
        },
        (VModel::Int(l), VModel::Float(r)) => if r.spec_float_eq(F::spec_from_int(0)) {
            Outcome::Exact(VModel::Empty)
        } else {
            Outcome::Exact(VModel::Float(F::spec_from_int(l as i64).spec_div(r)))
        },
        (_, VModel::Empty) => Outcome::Exact(VModel::Empty),
        (VModel::Empty, _) => Outcome::Exact(VModel::Empty),
        _ => Outcome::Fails(ErrorModel::InvalidArgumentType),
    }
}

/// Divides `left` by `right`, giving the empty value where the divisor is zero.
pub fn safe_divide<F: EvalexprFloat>(left: Value<F>, right: Value<F>) -> (r: Result<Value<F>, Error>)
    requires
        !(left@ == VModel::<F>::Int(i64::MIN as int) && right@ == VModel::<F>::Int(-1)),
    ensures
        outcome_holds(safe_divide_outcome(left@, right@), r),
{
    match (left, right) {
        (Value::Float(left), Value::Float(right)) => {
            if right.float_eq(F::from_int(0)) {
                Ok(Value::Empty)
            } else {
                Ok(Value::Float(left.div(right)))
            }
        },
        (Value::Int(left), Value::Int(right)) => {
            if right == 0 {
                Ok(Value::Empty)
            } else {
                proof { crate::arithmetic::lemma_checked_div_defined(left, right); }
                match left.checked_div(right) {
                    Some(q) => Ok(Value::Int(q)),
                    None => Ok(Value::Empty),
                }
            }
        },
        (Value::Float(left), Value::Int(right)) => {
            if right == 0 {
                Ok(Value::Empty)
            } else {
                Ok(Value::Float(left.div(F::from_int(right))))
            }
        },
        (Value::Int(left), Value::Float(right)) => {
            if right.float_eq(F::from_int(0)) {
                Ok(Value::Empty)
            } else {
                Ok(Value::Float(F::from_int(left).div(right)))
            }
        },
        (_, Value::Empty) => Ok(Value::Empty),
        (Value::Empty, _) => Ok(Value::Empty),
        _ => Err(Error::InvalidArgumentType),
    }
}

/// Whether `message` and `prefix` are strings and `message` starts with `prefix`.
pub open spec fn spec_starts_with<F>(message: VModel<F>, prefix: VModel<F>) -> bool {
    match (message, prefix) {
        (VModel::Str(m), VModel::Str(p)) => p.len() <= m.len() && m.subrange(0, p.len() as int) == p,
        _ => false,
    }
}

/// Whether `message` and `prefix` are strings and `message` starts with `prefix`, as a boolean value.
pub fn starts_with<F: EvalexprFloat>(message: &Value<F>, prefix: &Value<F>) -> (r: Result<Value<F>, Error>)
    ensures
        r matches Ok(x) && x@ == VModel::<F>::Boolean(spec_starts_with(message@, prefix@)),
{
    if let (Value::String(msg), Value::String(pre)) = (message, prefix) {
        let m = chars_of(msg.as_str());
        let p = chars_of(pre.as_str());
        if p.len() > m.len() {
            return Ok(Value::Boolean(false));
        }
        let mut i: usize = 0;
        while i < p.len()
            invariant
                i <= p@.len() <= m@.len(),
                m@ == msg@,
                p@ == pre@,
                message@ == VModel::<F>::Str(m@),
                prefix@ == VModel::<F>::Str(p@),
                forall|j: int| 0 <= j < i ==> m@[j] == p@[j],
            decreases p@.len() - i,
        {
            if m[i] != p[i] {
                assert(m@.subrange(0, p@.len() as int)[i as int] != p@[i as int]);
                assert(m@.subrange(0, p@.len() as int) != p@);
                return Ok(Value::Boolean(false));
            }
            i += 1;
        }
        assert(m@.subrange(0, p@.len() as int) =~= p@);
        return Ok(Value::Boolean(true));
    }
    Ok(Value::Boolean(false))
}

/// The greater of two values (`value1` if it is greater than `value2`, else `value2`).
pub fn max<F: EvalexprFloat>(value1: Value<F>, value2: Value<F>) -> (r: Result<Value<F>, Error>)
    ensures
        r matches Ok(x) && (x == value1 || x == value2),
        spec_greater(value1@, value2@) matches Some(g) ==> r == Ok::<Value<F>, Error>(if g { value1 } else { value2 }),
{
    Ok(if value_greater(&value1, &value2) { value1 } else { value2 })
}

/// The lesser of two values (`value1` if it is less than `value2`, else `value2`).
pub fn min<F: EvalexprFloat>(value1: Value<F>, value2: Value<F>) -> (r: Result<Value<F>, Error>)
    ensures
        r matches Ok(x) && (x == value1 || x == value2),
        spec_less(value1@, value2@) matches Some(l) ==> r == Ok::<Value<F>, Error>(if l { value1 } else { value2 }),
{
    Ok(if value_less(&value1, &value2) { value1 } else { value2 })
}

/// Rounds a stamp down to a precision (see `round_stamp`).
pub fn round_datetime_to_precision(t: Stamp, precision: &str) -> (r: Result<Stamp, Error>)
    requires
        valid_stamp(t),
        roundable(t, precision@),
    ensures
        match r {
            Ok(u) => round_stamp(t, precision@) == Ok::<Stamp, ErrorModel>(u) && valid_stamp(u),
            Err(e) => round_stamp(t, precision@) == Err::<Stamp, ErrorModel>(e@),
        },
{
    let (y, mo, d, h, mi) = t;
    if str_equal(precision, "m1") {
        Ok((y, mo, d, h, mi))
    } else if str_equal(precision, "m5") {
        Ok((y, mo, d, h, mi / 5 * 5))
    } else if str_equal(precision, "m15") {
        Ok((y, mo, d, h, mi / 15 * 15))
    } else if str_equal(precision, "m30") {
        Ok((y, mo, d, h, mi / 30 * 30))
    } else if str_equal(precision, "h1") {
        Ok((y, mo, d, h, 0))
    } else if str_equal(precision, "h4") {
        Ok((y, mo, d, h / 4 * 4, 0))
    } else if str_equal(precision, "d1") {
        Ok((y, mo, d, 0, 0))
    } else if str_equal(precision, "1w") {
        let back = crate::dates::days_from_sunday(y, mo, d);
        let (a, b, c) = crate::dates::minus_days(y, mo, d, back).unwrap();
        Ok((a, b, c, 0, 0))
    } else if str_equal(precision, "1M") {
        Ok((y, mo, 1, 0, 0))
    } else {
        let mut message = String::new();
        push_str(&mut message, "Precision ");
        push_str(&mut message, precision);
        push_str(&mut message, " is not recognised");
        Err(Error::CustomError(message))
    }
}

/// What rounding the time stamp at the end of `string` (after its last `_`, written
/// `%Y.%m.%d %H:%M:%S`) to `precision` (taken in lower case) gives: the text before that last `_`,
/// then `_`, then the rounded stamp in the same format. Both arguments must be strings.
pub open spec fn round_date_outcome<F>(string: VModel<F>, precision: VModel<F>) -> Result<Seq<char>, ErrorModel> {
    match (string, precision) {
        (VModel::Str(s), VModel::Str(p)) => match parsed_datetime(after_last(s, '_')) {
            None => Err(ErrorModel::InvalidDateFormat),
            Some(t) => match round_stamp(t, lowercase_of(p)) {
                Ok(u) => Ok(before_last(s, '_') + "_"@ + formatted_datetime(u.0, u.1, u.2, u.3, u.4, 0)),
                Err(e) => Err(e),
            },
        },
        _ => Err(ErrorModel::InvalidArgumentType),
    }
}

/// Whether the stamp at the end of `string` can be rounded to `precision` (see `roundable`).
pub open spec fn round_date_allowed<F>(string: VModel<F>, precision: VModel<F>) -> bool {
    match (string, precision) {
        (VModel::Str(s), VModel::Str(p)) => match parsed_datetime(after_last(s, '_')) {
            Some(t) => roundable(t, lowercase_of(p)),
            None => true,
        },
        _ => true,
    }
}

/// Whether `r` is what rounding the stamp at the end of `string` to `precision` gives.
pub open spec fn rounds_date_to<F>(string: VModel<F>, precision: VModel<F>, r: Result<Value<F>, Error>) -> bool {
    match r {
        Ok(v) => v matches Value::String(s) && round_date_outcome(string, precision) == Ok::<Seq<char>, ErrorModel>(s@),
        Err(e) => round_date_outcome(string, precision) == Err::<Seq<char>, ErrorModel>(e@),
    }
}

/// The text before the last `_` of `text` and the text after it.
fn split_at_last_underscore(text: &String) -> (r: (String, String))
    ensures
        r.0@ == before_last(text@, '_'),
        r.1@ == after_last(text@, '_'),
{
    let chars = chars_of(text.as_str());
    proof {
        assert(chars@.subrange(0, chars@.len() as int) =~= chars@);
    }
    match find_last(&chars, '_') {
        Some(i) => (string_from_range(&chars, 0, i), string_from_range(&chars, i + 1, chars.len())),
        None => (String::new(), string_from_range(&chars, 0, chars.len())),
    }
}

/// Rounds the time stamp at the end of a string such as `BTCUSD_2024.02.13 10:05:23` to a
/// precision such as `h1`, keeping what precedes it.
pub fn round_date_to_precision<F: EvalexprFloat>(string: &Value<F>, precision: &Value<F>) -> (r: Result<Value<F>, Error>)
    requires
        round_date_allowed(string@, precision@),
    ensures
        rounds_date_to(string@, precision@, r),
{
    if let (Value::String(text), Value::String(prec)) = (string, precision) {
        let (prefix, last) = split_at_last_underscore(text);
        let stamp = match crate::dates::parse_datetime(last.as_str()) {
            Some(t) => t,
            None => return Err(Error::InvalidDateFormat),
        };
        let lower = to_lowercase(prec.as_str());
        let rounded = match round_datetime_to_precision(stamp, lower.as_str()) {
            Ok(u) => u,
            Err(e) => return Err(e),
        };
        let formatted = crate::dates::format_datetime(rounded.0, rounded.1, rounded.2, rounded.3, rounded.4, 0);
        let mut result = prefix;
        push_str(&mut result, "_");
        push_str(&mut result, formatted.as_str());
        Ok(Value::String(result))
    } else {
        Err(Error::InvalidArgumentType)
    }
}

/// As `round_date_to_precision`, or `None` where the stamp is to be rounded to its week and that
/// week begins before the first date that chrono can hold.
pub fn round_date_to_precision_checked<F: EvalexprFloat>(string: &Value<F>, precision: &Value<F>) -> (r: Option<Result<Value<F>, Error>>)
    ensures
        r is None <==> !round_date_allowed(string@, precision@),
        r matches Some(x) ==> rounds_date_to(string@, precision@, x),
{
    if let (Value::String(text), Value::String(prec)) = (string, precision) {
        let (_prefix, last) = split_at_last_underscore(text);
        if let Some(t) = crate::dates::parse_datetime(last.as_str()) {
            let lower = to_lowercase(prec.as_str());
            if str_equal(lower.as_str(), "1w") {
                let back = crate::dates::days_from_sunday(t.0, t.1, t.2);
                if crate::dates::minus_days(t.0, t.1, t.2, back).is_none() {
                    return None;
                }
            }
        }
    }
    Some(round_date_to_precision(string, precision))
}

} // verus!
