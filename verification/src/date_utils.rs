//! Counting business days between two dates written as text.
use vstd::prelude::*;
use chrono::Datelike;
use crate::numeric::EvalexprFloat;
use crate::value::{Value, VModel};
use crate::error::EModel;
use crate::ffi::{Error, ErrorModel};
use crate::error_display::{error_text, text_holds};
use crate::builtin::{byte_len, starts_at_byte, byte_offsets, char_index_at_byte, lemma_byte_offset_injective};
use crate::dates::valid_date;
use crate::text::{chars_of, push_str, string_from_range};

verus! {

/// A calendar day: year, month, day.
pub type Day = (i32, u32, u32);

/// What chrono's `NaiveDate::parse_from_str(s, "%Y-%m-%d")` gives for `s`: the day, or the
/// `Debug` text of its parse error.
pub uninterp spec fn parsed_date(s: Seq<char>) -> Result<Day, Seq<char>>;

/// The number of days from `start` to `end`, both included, that the default calendar of the
/// workdays crate counts as work days (Monday to Friday, no holidays).
pub uninterp spec fn work_days_count(start: Day, end: Day) -> i64;

/// `NaiveDate::parse_from_str` with the format `"%Y-%m-%d"`. Trusted: the result is chrono's,
/// named `parsed_date` (an error by its `Debug` text); a parsed day is a valid date.
#[verifier::external_body]
fn parse_date(s: &str) -> (r: Result<Day, String>)
    ensures
        match r {
            Ok(t) => parsed_date(s@) == Ok::<Day, Seq<char>>(t) && valid_date(t.0 as int, t.1 as int, t.2 as int),
            Err(m) => parsed_date(s@) == Err::<Day, Seq<char>>(m@),
        },
{
    match chrono::NaiveDate::parse_from_str(s, "%Y-%m-%d") {
        Ok(d) => Ok((d.year(), d.month(), d.day())),
        Err(e) => Err(format!("{:?}", e)),
    }
}

/// `WorkCalendar::work_days_between` on a new `WorkCalendar`. Trusted: the count is the workdays
/// crate's, named `work_days_count`. Its loop steps one day past `end`, which chrono refuses
/// after its last day, so `end` is not that day.
#[verifier::external_body]
fn count_work_days(start: Day, end: Day) -> (r: i64)
    requires
        valid_date(start.0 as int, start.1 as int, start.2 as int),
        valid_date(end.0 as int, end.1 as int, end.2 as int),
        !is_last_day(end),
    ensures
        r == work_days_count(start, end),
{
    let calendar = workdays::WorkCalendar::new();
    let from = chrono::NaiveDate::from_ymd_opt(start.0, start.1, start.2).unwrap();
    let to = chrono::NaiveDate::from_ymd_opt(end.0, end.1, end.2).unwrap();
    calendar.work_days_between(from, to)
}

/// Whether `d` is the last day that chrono's `NaiveDate` can hold.
pub open spec fn is_last_day(d: Day) -> bool {
    d == (262142i32, 12u32, 31u32)
}

/// Whether day `a` comes before day `b`.
pub open spec fn day_before(a: Day, b: Day) -> bool {
    a.0 < b.0 || (a.0 == b.0 && (a.1 < b.1 || (a.1 == b.1 && a.2 < b.2)))
}

/// Whether the first ten bytes of `s` end on a character boundary, where `s` is longer.
pub open spec fn cut_at_ten_ok(s: Seq<char>) -> bool {
    byte_len(s) > 10 ==> exists|k: int| starts_at_byte(s, k, 10)
}

/// The first ten bytes of `s`, where it is longer; else `s`.
pub open spec fn first_ten_bytes(s: Seq<char>) -> Seq<char> {
    if byte_len(s) > 10 {
        s.subrange(0, choose|k: int| starts_at_byte(s, k, 10))
    } else {
        s
    }
}

/// What `business_days_between` gives for two strings: each cut to its first ten bytes and read
/// as `YYYY-MM-DD`, the number of work days from the first day to the second, both included; an
/// error for a date that does not parse and for an end before the start.
pub open spec fn business_days_outcome(s: Seq<char>, e: Seq<char>) -> Result<int, ErrorModel> {
    match parsed_date(first_ten_bytes(s)) {
        Err(m) => Err(ErrorModel::CustomError("Invalid start date format: "@ + m)),
        Ok(a) => match parsed_date(first_ten_bytes(e)) {
            Err(m) => Err(ErrorModel::CustomError("Invalid end date format: "@ + m)),
            Ok(b) => if day_before(b, a) {
                Err(ErrorModel::CustomError("End date must be after start date"@))
            } else {
                Ok(work_days_count(a, b) as int)
            },
        },
    }
}

/// Whether the work days between the two days that `s` and `e` name can be counted: not where the
/// end is chrono's last day, past which the count would step.
pub open spec fn countable(s: Seq<char>, e: Seq<char>) -> bool {
    match (parsed_date(first_ten_bytes(s)), parsed_date(first_ten_bytes(e))) {
        (Ok(a), Ok(b)) => !day_before(b, a) ==> !is_last_day(b),
        _ => true,
    }
}

/// Whether `r` is what counting the business days between `start` and `end` gives.
pub open spec fn counts_business_days<F: EvalexprFloat>(start: VModel<F>, end: VModel<F>, r: Result<Value<F>, Error>) -> bool {
    &&& !(start is Str) ==> (r matches Err(x) && x@ matches ErrorModel::CustomError(m)
        && text_holds(error_text(EModel::<F>::ExpectedString { actual: start }), m))
    &&& start is Str && !(end is Str) ==> (r matches Err(x) && x@ matches ErrorModel::CustomError(m)
        && text_holds(error_text(EModel::<F>::ExpectedString { actual: end }), m))
    &&& (start is Str && end is Str) ==> match r {
        Ok(v) => v@ matches VModel::Int(n) && business_days_outcome(start->Str_0, end->Str_0) == Ok::<int, ErrorModel>(n),
        Err(x) => business_days_outcome(start->Str_0, end->Str_0) == Err::<int, ErrorModel>(x@),
    }
}

/// The first ten bytes of a string, where it is longer.
fn cut_to_ten_bytes(s: String) -> (r: String)
    requires
        cut_at_ten_ok(s@),
    ensures
        r@ == first_ten_bytes(s@),
{
    let chars = chars_of(s.as_str());
    let offsets = byte_offsets(&chars);
    let n = chars.len();
    if offsets[n] > 10 {
        match char_index_at_byte(&offsets, &chars, 10) {
            Some(k) => {
                proof {
                    let j = choose|j: int| starts_at_byte(s@, j, 10);
                    lemma_byte_offset_injective(s@, j, k as int);
                }
                string_from_range(&chars, 0, k)
            },
            None => s,
        }
    } else {
        s
    }
}

/// The error for an argument that is not a string, as the library's error.
pub(crate) fn not_a_string<F: EvalexprFloat + core::fmt::Debug>(v: &Value<F>) -> (r: Error)
    requires
        !(v@ is Str),
    ensures
        r@ matches ErrorModel::CustomError(m) && text_holds(error_text(EModel::<F>::ExpectedString { actual: v@ }), m),
{
    match v.as_string() {
        Ok(_) => Error::CustomError(String::new()),
        Err(e) => Error::from_evalexpr_error(&e),
    }
}

/// The number of business days (Monday to Friday) from `start_date` to `end_date`, both
/// included, each given as text that begins with `YYYY-MM-DD`.
pub fn business_days_between<F: EvalexprFloat + core::fmt::Debug>(start_date: Value<F>, end_date: Value<F>) -> (r: Result<Value<F>, Error>)
    requires
        (start_date@ is Str && end_date@ is Str) ==> cut_at_ten_ok(start_date@->Str_0) && cut_at_ten_ok(end_date@->Str_0)
            && countable(start_date@->Str_0, end_date@->Str_0),
    ensures
        counts_business_days(start_date@, end_date@, r),
{
    let start_text = match &start_date {
        Value::String(s) => s.clone(),
        _ => return Err(not_a_string(&start_date)),
    };
    let end_text = match &end_date {
        Value::String(s) => s.clone(),
        _ => return Err(not_a_string(&end_date)),
    };
    let start_cut = cut_to_ten_bytes(start_text);
    let end_cut = cut_to_ten_bytes(end_text);
    let start = match parse_date(start_cut.as_str()) {
        Ok(t) => t,
        Err(m) => {
            let mut message = "Invalid start date format: ".to_owned();
            push_str(&mut message, m.as_str());
            return Err(Error::CustomError(message));
        },
    };
    let end = match parse_date(end_cut.as_str()) {
        Ok(t) => t,
        Err(m) => {
            let mut message = "Invalid end date format: ".to_owned();
            push_str(&mut message, m.as_str());
            return Err(Error::CustomError(message));
        },
    };
    if end.0 < start.0 || (end.0 == start.0 && (end.1 < start.1 || (end.1 == start.1 && end.2 < start.2))) {
        return Err(Error::CustomError("End date must be after start date".to_owned()));
    }
    let days = count_work_days(start, end);
    Ok(Value::Int(days))
}

/// As `business_days_between`, or `None` where the end is chrono's last day.
pub fn business_days_between_checked<F: EvalexprFloat + core::fmt::Debug>(start_date: Value<F>, end_date: Value<F>) -> (r: Option<Result<Value<F>, Error>>)
    requires
        (start_date@ is Str && end_date@ is Str) ==> cut_at_ten_ok(start_date@->Str_0) && cut_at_ten_ok(end_date@->Str_0),
    ensures
        r is None <==> (start_date@ matches VModel::Str(s) && end_date@ matches VModel::Str(e) && !countable(s, e)),
        r matches Some(x) ==> counts_business_days(start_date@, end_date@, x),
{
    if let (Value::String(s), Value::String(e)) = (&start_date, &end_date) {
        let start_cut = cut_to_ten_bytes(s.clone());
        let end_cut = cut_to_ten_bytes(e.clone());
        if let (Ok(a), Ok(b)) = (parse_date(start_cut.as_str()), parse_date(end_cut.as_str())) {
            let in_order = !(b.0 < a.0 || (b.0 == a.0 && (b.1 < a.1 || (b.1 == a.1 && b.2 < a.2))));
            if in_order && b.0 == 262142 && b.1 == 12 && b.2 == 31 {
                return None;
            }
        }
    }
    Some(business_days_between(start_date, end_date))
}

} // verus!
