//! Calendar dates and the rounding of time stamps, with chrono doing the calendar arithmetic.
use vstd::prelude::*;
use chrono::{Datelike, Timelike};
use crate::ffi::ErrorModel;
use crate::text::decimal_digits;

verus! {

/// A time stamp to the minute: year, month, day, hour, minute.
pub type Stamp = (i32, u32, u32, u32, u32);

/// Whether `y` is a leap year of the proleptic Gregorian calendar.
pub open spec fn is_leap_year(y: int) -> bool {
    (y % 4 == 0 && y % 100 != 0) || y % 400 == 0
}

/// The number of days of month `m` of year `y`.
pub open spec fn days_in_month(y: int, m: int) -> int {
    if m == 2 {
        if is_leap_year(y) { 29 } else { 28 }
    } else if m == 4 || m == 6 || m == 9 || m == 11 {
        30
    } else {
        31
    }
}

/// Whether `y-m-d` is a day of the calendar that chrono's `NaiveDate` can hold (years -262143
/// to 262142).
pub open spec fn valid_date(y: int, m: int, d: int) -> bool {
    &&& -262143 <= y <= 262142
    &&& 1 <= m <= 12
    &&& 1 <= d <= days_in_month(y, m)
}

/// Whether a stamp names an existing day and a time of day.
pub open spec fn valid_stamp(t: Stamp) -> bool {
    valid_date(t.0 as int, t.1 as int, t.2 as int) && t.3 < 24 && t.4 < 60
}

/// What chrono's `NaiveDateTime::parse_from_str(s, "%Y.%m.%d %H:%M:%S")` reads from `s`, to the
/// minute.
pub uninterp spec fn parsed_datetime(s: Seq<char>) -> Option<Stamp>;

/// The offset of month `m` in the count of weekdays.
pub open spec fn month_offset(m: int) -> int {
    if m == 1 { 0 } else if m == 2 { 3 } else if m == 3 { 2 } else if m == 4 { 5 } else if m == 5 { 0 }
    else if m == 6 { 3 } else if m == 7 { 5 } else if m == 8 { 1 } else if m == 9 { 4 } else if m == 10 { 6 }
    else if m == 11 { 2 } else { 4 }
}

/// The day of the week of a date of the proleptic Gregorian calendar, counted from Sunday = 0
/// (a year counted from March, so that a leap day ends it).
pub open spec fn weekday_from_sunday(y: i32, m: u32, d: u32) -> u32 {
    let yy: int = if m < 3 { y - 1 } else { y as int };
    ((yy + yy / 4 - yy / 100 + yy / 400 + month_offset(m as int) + d) % 7) as u32
}

/// The date `k` days before `y-m-d`, as chrono's `checked_sub_days` gives it.
pub uninterp spec fn date_minus_days(y: i32, m: u32, d: u32, k: u32) -> Option<(i32, u32, u32)>;

/// The decimal digits of `n`, with zeros in front up to `width` characters.
pub open spec fn zero_padded(n: nat, width: nat) -> Seq<char> {
    let digits = decimal_digits(n);
    if digits.len() >= width { digits } else { Seq::new((width - digits.len()) as nat, |i: int| '0') + digits }
}

/// A year as `%Y` writes it: four digits or more; a sign in front of a year before 0 or after 9999.
pub open spec fn year_text(y: int) -> Seq<char> {
    if 0 <= y < 10000 {
        zero_padded(y as nat, 4)
    } else if y < 0 {
        seq!['-'] + zero_padded((-y) as nat, 4)
    } else {
        seq!['+'] + zero_padded(y as nat, 4)
    }
}

/// A date and time as chrono formats it with `"%Y.%m.%d %H:%M:%S"`: the year, then the month,
/// day, hour, minute and second in two digits each.
pub open spec fn formatted_datetime(y: i32, m: u32, d: u32, h: u32, mi: u32, s: u32) -> Seq<char> {
    year_text(y as int) + seq!['.'] + zero_padded(m as nat, 2) + seq!['.'] + zero_padded(d as nat, 2) + seq![' ']
        + zero_padded(h as nat, 2) + seq![':'] + zero_padded(mi as nat, 2) + seq![':'] + zero_padded(s as nat, 2)
}

/// `NaiveDateTime::parse_from_str` with the format `"%Y.%m.%d %H:%M:%S"`. Trusted: the result
/// is chrono's, named `parsed_datetime`; a parsed value is a valid date and time of day (as the
/// accessors of chrono's `Datelike` and `Timelike` document their ranges). The seconds are not
/// handed on.
#[verifier::external_body]
pub(crate) fn parse_datetime(s: &str) -> (r: Option<Stamp>)
    ensures
        r == parsed_datetime(s@),
        r matches Some(t) ==> valid_stamp(t),
{
    match chrono::NaiveDateTime::parse_from_str(s, "%Y.%m.%d %H:%M:%S") {
        Ok(dt) => Some((dt.year(), dt.month(), dt.day(), dt.hour(), dt.minute())),
        Err(_) => None,
    }
}

/// The offset that `weekday_from_sunday` adds for the month `m`.
fn month_offset_of(m: u32) -> (r: i64)
    requires
        1 <= m <= 12,
    ensures
        r == month_offset(m as int),
{
    if m == 1 { 0 } else if m == 2 { 3 } else if m == 3 { 2 } else if m == 4 { 5 } else if m == 5 { 0 }
    else if m == 6 { 3 } else if m == 7 { 5 } else if m == 8 { 1 } else if m == 9 { 4 } else if m == 10 { 6 }
    else if m == 11 { 2 } else { 4 }
}

/// Whole cycles of 400 years do not change the weekday: such a cycle has 146097 days, 20871 weeks.
proof fn lemma_weekday_cycles(yy: int, k: int, c: int)
    requires
        k >= 0,
    ensures
        ((yy + 400 * k) + (yy + 400 * k) / 4 - (yy + 400 * k) / 100 + (yy + 400 * k) / 400 + c) % 7
            == (yy + yy / 4 - yy / 100 + yy / 400 + c) % 7,
{
    assert((yy + 400 * k) / 4 == yy / 4 + 100 * k) by (nonlinear_arith);
    assert((yy + 400 * k) / 100 == yy / 100 + 4 * k) by (nonlinear_arith);
    assert((yy + 400 * k) / 400 == yy / 400 + k) by (nonlinear_arith);
    let base = yy + yy / 4 - yy / 100 + yy / 400 + c;
    assert((base + 7 * (71 * k)) % 7 == base % 7) by (nonlinear_arith);
}

/// The day of the week of the date `y-m-d`, counted from Sunday = 0 (see `weekday_from_sunday`).
pub(crate) fn days_from_sunday(y: i32, m: u32, d: u32) -> (r: u32)
    requires
        valid_date(y as int, m as int, d as int),
    ensures
        r == weekday_from_sunday(y, m, d),
        r < 7,
{
    let yy: i64 = if m < 3 { y as i64 - 1 } else { y as i64 };
    let shifted: i64 = yy + 400_000;
    let total: i64 = shifted + shifted / 4 - shifted / 100 + shifted / 400 + month_offset_of(m) + d as i64;
    proof {
        lemma_weekday_cycles(yy as int, 1000, month_offset(m as int) + d);
    }
    (total % 7) as u32
}

/// `NaiveDate::checked_sub_days`: the date `k` days before `y-m-d`, or `None` outside chrono's
/// range of dates. Trusted: the result is chrono's, named `date_minus_days`; a date it returns is
/// valid.
#[verifier::external_body]
pub(crate) fn minus_days(y: i32, m: u32, d: u32, k: u32) -> (r: Option<(i32, u32, u32)>)
    requires
        valid_date(y as int, m as int, d as int),
    ensures
        r == date_minus_days(y, m, d, k),
        r matches Some(t) ==> valid_date(t.0 as int, t.1 as int, t.2 as int),
{
    let date = chrono::NaiveDate::from_ymd_opt(y, m, d).unwrap();
    match date.checked_sub_days(chrono::Days::new(k as u64)) {
        Some(t) => Some((t.year(), t.month(), t.day())),
        None => None,
    }
}

/// `NaiveDateTime::format` with `"%Y.%m.%d %H:%M:%S"`. Trusted: chrono writes `%Y` zero-padded to
/// four digits, with a sign outside `0..10000`, and the other fields zero-padded to two digits,
/// as `formatted_datetime` says.
#[verifier::external_body]
pub(crate) fn format_datetime(y: i32, m: u32, d: u32, h: u32, mi: u32, s: u32) -> (r: String)
    requires
        valid_date(y as int, m as int, d as int),
        h < 24,
        mi < 60,
        s < 60,
    ensures
        r@ == formatted_datetime(y, m, d, h, mi, s),
{
    let date = chrono::NaiveDate::from_ymd_opt(y, m, d).unwrap();
    date.and_hms_opt(h, mi, s).unwrap().format("%Y.%m.%d %H:%M:%S").to_string()
}

/// The Sunday that begins the week of a stamp's day, where chrono can hold it.
pub open spec fn week_start(t: Stamp) -> Option<(i32, u32, u32)> {
    date_minus_days(t.0, t.1, t.2, weekday_from_sunday(t.0, t.1, t.2))
}

/// Whether a stamp can be rounded to precision `p`: to a week only where its week's Sunday is a
/// date that chrono can hold.
pub open spec fn roundable(t: Stamp, p: Seq<char>) -> bool {
    p == "1w"@ ==> week_start(t) is Some
}

/// A stamp rounded down to the given precision: `m1`, `m5`, `m15` and `m30` to that many minutes,
/// `h1` and `h4` to that many hours, `d1` to the day, `1w` to the Sunday that begins its week,
/// `1M` to the first of its month. A precision of another name is not recognised.
pub open spec fn round_stamp(t: Stamp, p: Seq<char>) -> Result<Stamp, ErrorModel>
    recommends
        roundable(t, p),
{
    let (y, mo, d, h, mi) = t;
    if p == "m1"@ {
        Ok((y, mo, d, h, mi))
    } else if p == "m5"@ {
        Ok((y, mo, d, h, (mi / 5 * 5) as u32))
    } else if p == "m15"@ {
        Ok((y, mo, d, h, (mi / 15 * 15) as u32))
    } else if p == "m30"@ {
        Ok((y, mo, d, h, (mi / 30 * 30) as u32))
    } else if p == "h1"@ {
        Ok((y, mo, d, h, 0))
    } else if p == "h4"@ {
        Ok((y, mo, d, (h / 4 * 4) as u32, 0))
    } else if p == "d1"@ {
        Ok((y, mo, d, 0, 0))
    } else if p == "1w"@ {
        let (a, b, c) = week_start(t)->Some_0;
        Ok((a, b, c, 0, 0))
    } else if p == "1M"@ {
        Ok((y, mo, 1, 0, 0))
    } else {
        Err(ErrorModel::CustomError("Precision "@ + p + " is not recognised"@))
    }
}

/// The index of the last occurrence of `c` in `s`.
pub open spec fn last_index_of(s: Seq<char>, c: char) -> Option<int>
    decreases s.len(),
{
    if s.len() == 0 {
        None
    } else if s.last() == c {
        Some(s.len() - 1)
    } else {
        last_index_of(s.drop_last(), c)
    }
}

/// What stands before the last `c` of `s` (nothing where `s` has none).
pub open spec fn before_last(s: Seq<char>, c: char) -> Seq<char> {
    match last_index_of(s, c) {
        Some(i) => s.subrange(0, i),
        None => Seq::empty(),
    }
}

/// What stands after the last `c` of `s` (all of `s` where it has none).
pub open spec fn after_last(s: Seq<char>, c: char) -> Seq<char> {
    match last_index_of(s, c) {
        Some(i) => s.subrange(i + 1, s.len() as int),
        None => s,
    }
}

/// The index of the last occurrence of `c` in `chars`.
pub fn find_last(chars: &Vec<char>, c: char) -> (r: Option<usize>)
    ensures
        match r {
            Some(i) => i < chars@.len() && last_index_of(chars@, c) == Some(i as int),
            None => last_index_of(chars@, c) is None,
        },
{
    let mut i: usize = chars.len();
    proof {
        assert(chars@.subrange(0, i as int) =~= chars@);
    }
    while i > 0
        invariant
            i <= chars@.len(),
            last_index_of(chars@, c) == last_index_of(chars@.subrange(0, i as int), c),
        decreases i,
    {
        if chars[i - 1] == c {
            return Some(i - 1);
        }
        proof {
            assert(chars@.subrange(0, i as int).drop_last() =~= chars@.subrange(0, i - 1));
        }
        i -= 1;
    }
    None
}

} // verus!
