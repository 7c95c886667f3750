//! The bucket that a value falls into, given stops in ascending order: by number, or by a
//! description of its range.
use vstd::prelude::*;
use crate::numeric::EvalexprFloat;
use crate::value::{Value, VModel, IntType, display_model};
use crate::ffi::{Error, ErrorModel};
use crate::comparison::{spec_greater, spec_less_or_equal, value_greater, value_less_or_equal};
use crate::text::push_str;

verus! {

/// Whether some stop from number `i` on is greater than the next one (`Some(true)`) or none is
/// (`Some(false)`); `None` where `spec_greater` gives no answer before that is known.
pub open spec fn stops_descend<F: EvalexprFloat>(stops: Seq<Value<F>>, i: int) -> Option<bool>
    decreases stops.len() - i,
{
    if i < 0 || i + 1 >= stops.len() {
        Some(false)
    } else {
        match spec_greater(stops[i]@, stops[i + 1]@) {
            Some(true) => Some(true),
            Some(false) => stops_descend(stops, i + 1),
            None => None,
        }
    }
}

/// The number of the first stop from number `i` on that `value` does not exceed, or the number of
/// stops where it exceeds them all; `None` where `spec_less_or_equal` gives no answer first.
pub open spec fn bucket_from<F: EvalexprFloat>(value: VModel<F>, stops: Seq<Value<F>>, i: int) -> Option<int>
    decreases stops.len() - i,
{
    if i < 0 || i >= stops.len() {
        Some(stops.len() as int)
    } else {
        match spec_less_or_equal(value, stops[i]@) {
            Some(true) => Some(i),
            Some(false) => bucket_from(value, stops, i + 1),
            None => None,
        }
    }
}

/// The error for stops out of order.
pub open spec fn descending_stops_error() -> ErrorModel {
    ErrorModel::CustomError("Stops must be in ascending order"@)
}

/// The description of bucket `k`: `<= s` for the first, `a - b` between two stops, `> s` past the
/// last (where each stop's text is known).
pub open spec fn bucket_text<F: EvalexprFloat>(stops: Seq<Value<F>>, k: int) -> Option<Seq<char>> {
    if 0 <= k < stops.len() {
        if k == 0 {
            match display_model(stops[0]@) {
                Some(t) => Some("<= "@ + t),
                None => None,
            }
        } else {
            match (display_model(stops[k - 1]@), display_model(stops[k]@)) {
                (Some(a), Some(b)) => Some(a + " - "@ + b),
                _ => None,
            }
        }
    } else {
        match display_model(stops.last()@) {
            Some(t) => Some("> "@ + t),
            None => None,
        }
    }
}

/// What numbering the bucket of `value` among `stops` gives: the error where the stops descend,
/// else the number of the bucket; never anything else.
pub open spec fn bucket_outcome<F: EvalexprFloat>(value: VModel<F>, stops: Seq<Value<F>>, r: Result<Value<F>, Error>) -> bool {
    &&& stops_descend(stops, 0) == Some(true) ==> (r matches Err(e) && e@ == descending_stops_error())
    &&& stops_descend(stops, 0) == Some(false) && bucket_from(value, stops, 0) is Some
        ==> (r matches Ok(v) && v@ == VModel::<F>::Int(bucket_from(value, stops, 0)->0))
    &&& r matches Ok(v) ==> (v@ matches VModel::Int(k) && 0 <= k <= stops.len())
    &&& r matches Err(e) ==> e@ == descending_stops_error()
}

/// What describing the bucket of `value` among `stops` gives: the error where the stops descend,
/// else the description of the bucket; never anything else.
pub open spec fn bucket_desc_outcome<F: EvalexprFloat>(value: VModel<F>, stops: Seq<Value<F>>, r: Result<Value<F>, Error>) -> bool {
    &&& stops_descend(stops, 0) == Some(true) ==> (r matches Err(e) && e@ == descending_stops_error())
    &&& stops_descend(stops, 0) == Some(false) && bucket_from(value, stops, 0) is Some ==> (r is Ok
        && (bucket_text(stops, bucket_from(value, stops, 0)->0) matches Some(t) ==> r->Ok_0@ == VModel::<F>::Str(t)))
    &&& r matches Ok(v) ==> v@ is Str
    &&& r matches Err(e) ==> e@ == descending_stops_error()
}

/// Whether no stop is greater than the next one.
fn stops_ascend<F: EvalexprFloat>(stops: &Vec<Value<F>>) -> (r: bool)
    ensures
        stops_descend(stops@, 0) matches Some(d) ==> r == !d,
{
    let n = stops.len();
    let mut i: usize = 0;
    while i + 1 < n
        invariant
            n == stops@.len(),
            i == 0 || i < n,
            stops_descend(stops@, 0) matches Some(d) ==> stops_descend(stops@, i as int) == Some(d),
        decreases stops@.len() - i,
    {
        if value_greater(&stops[i], &stops[i + 1]) {
            return false;
        }
        i += 1;
    }
    true
}

/// The number of the first stop that `value` does not exceed, or the number of stops.
fn first_stop_not_exceeded<F: EvalexprFloat>(value: &Value<F>, stops: &Vec<Value<F>>) -> (r: usize)
    ensures
        r <= stops@.len(),
        bucket_from(value@, stops@, 0) matches Some(k) ==> r == k,
{
    let mut i: usize = 0;
    while i < stops.len()
        invariant
            i <= stops@.len(),
            bucket_from(value@, stops@, 0) matches Some(k) ==> bucket_from(value@, stops@, i as int) == Some(k),
        decreases stops@.len() - i,
    {
        if value_less_or_equal(value, &stops[i]) {
            return i;
        }
        i += 1;
    }
    stops.len()
}

/// The error for stops out of order.
fn descending_stops() -> (e: Error)
    ensures
        e@ == descending_stops_error(),
{
    Error::CustomError("Stops must be in ascending order".to_owned())
}

/// The number of the bucket that `value` falls into: 0 up to the first stop, 1 up to the second,
/// and so on, and the number of stops past the last one.
pub fn bucket_number<F: EvalexprFloat>(value: &Value<F>, stops: &Vec<Value<F>>) -> (r: Result<Value<F>, Error>)
    requires
        stops@.len() <= i64::MAX,
    ensures
        bucket_outcome(value@, stops@, r),
{
    if !stops_ascend(stops) {
        return Err(descending_stops());
    }
    let k = first_stop_not_exceeded(value, stops);
    Ok(Value::Int(k as IntType))
}

/// The description of the bucket that `value` falls into: `<= s` up to the first stop, `a - b`
/// between two stops, `> s` past the last one.
pub fn bucket_description<F: EvalexprFloat>(value: &Value<F>, stops: &Vec<Value<F>>) -> (r: Result<Value<F>, Error>)
    requires
        stops@.len() >= 1,
    ensures
        bucket_desc_outcome(value@, stops@, r),
{
    if !stops_ascend(stops) {
        return Err(descending_stops());
    }
    let k = first_stop_not_exceeded(value, stops);
    let text = if k < stops.len() {
        if k == 0 {
            let mut t = "<= ".to_owned();
            let s = stops[0].to_display_string();
            push_str(&mut t, s.as_str());
            t
        } else {
            let mut t = stops[k - 1].to_display_string();
            push_str(&mut t, " - ");
            let s = stops[k].to_display_string();
            push_str(&mut t, s.as_str());
            t
        }
    } else {
        let mut t = "> ".to_owned();
        let s = stops[stops.len() - 1].to_display_string();
        push_str(&mut t, s.as_str());
        t
    };
    Ok(Value::String(text))
}

/// The bucket of `value_to_bucket` among two stops.
pub fn bucket_2<F: EvalexprFloat>(value_to_bucket: Value<F>, stop_1: Value<F>, stop_2: Value<F>) -> (r: Result<Value<F>, Error>)
    ensures
        bucket_outcome(value_to_bucket@, seq![stop_1, stop_2], r),
{
    let stops = vec![stop_1, stop_2];
    bucket_number(&value_to_bucket, &stops)
}

/// The bucket of `value_to_bucket` among three stops.
pub fn bucket_3<F: EvalexprFloat>(value_to_bucket: Value<F>, stop_1: Value<F>, stop_2: Value<F>, stop_3: Value<F>) -> (r: Result<Value<F>, Error>)
    ensures
        bucket_outcome(value_to_bucket@, seq![stop_1, stop_2, stop_3], r),
{
    let stops = vec![stop_1, stop_2, stop_3];
    bucket_number(&value_to_bucket, &stops)
}

/// The bucket of `value_to_bucket` among four stops.
pub fn bucket_4<F: EvalexprFloat>(value_to_bucket: Value<F>, stop_1: Value<F>, stop_2: Value<F>, stop_3: Value<F>, stop_4: Value<F>) -> (r: Result<Value<F>, Error>)
    ensures
        bucket_outcome(value_to_bucket@, seq![stop_1, stop_2, stop_3, stop_4], r),
{
    let stops = vec![stop_1, stop_2, stop_3, stop_4];
    bucket_number(&value_to_bucket, &stops)
}

/// The bucket of `value_to_bucket` among five stops.
pub fn bucket_5<F: EvalexprFloat>(value_to_bucket: Value<F>, stop_1: Value<F>, stop_2: Value<F>, stop_3: Value<F>, stop_4: Value<F>, stop_5: Value<F>) -> (r: Result<Value<F>, Error>)
    ensures
        bucket_outcome(value_to_bucket@, seq![stop_1, stop_2, stop_3, stop_4, stop_5], r),
{
    let stops = vec![stop_1, stop_2, stop_3, stop_4, stop_5];
    bucket_number(&value_to_bucket, &stops)
}

/// The description of the bucket of `value_to_bucket` among two stops.
pub fn bucket_2_desc<F: EvalexprFloat>(value_to_bucket: Value<F>, stop_1: Value<F>, stop_2: Value<F>) -> (r: Result<Value<F>, Error>)
    ensures
        bucket_desc_outcome(value_to_bucket@, seq![stop_1, stop_2], r),
{
    let stops = vec![stop_1, stop_2];
    bucket_description(&value_to_bucket, &stops)
}

/// The description of the bucket of `value_to_bucket` among three stops.
pub fn bucket_3_desc<F: EvalexprFloat>(value_to_bucket: Value<F>, stop_1: Value<F>, stop_2: Value<F>, stop_3: Value<F>) -> (r: Result<Value<F>, Error>)
    ensures
        bucket_desc_outcome(value_to_bucket@, seq![stop_1, stop_2, stop_3], r),
{
    let stops = vec![stop_1, stop_2, stop_3];
    bucket_description(&value_to_bucket, &stops)
}

/// The description of the bucket of `value_to_bucket` among four stops.
pub fn bucket_4_desc<F: EvalexprFloat>(value_to_bucket: Value<F>, stop_1: Value<F>, stop_2: Value<F>, stop_3: Value<F>, stop_4: Value<F>) -> (r: Result<Value<F>, Error>)
    ensures
        bucket_desc_outcome(value_to_bucket@, seq![stop_1, stop_2, stop_3, stop_4], r),
{
    let stops = vec![stop_1, stop_2, stop_3, stop_4];
    bucket_description(&value_to_bucket, &stops)
}

/// The description of the bucket of `value_to_bucket` among five stops.
pub fn bucket_5_desc<F: EvalexprFloat>(value_to_bucket: Value<F>, stop_1: Value<F>, stop_2: Value<F>, stop_3: Value<F>, stop_4: Value<F>, stop_5: Value<F>) -> (r: Result<Value<F>, Error>)
    ensures
        bucket_desc_outcome(value_to_bucket@, seq![stop_1, stop_2, stop_3, stop_4, stop_5], r),
{
    let stops = vec![stop_1, stop_2, stop_3, stop_4, stop_5];
    bucket_description(&value_to_bucket, &stops)
}

} // verus!
