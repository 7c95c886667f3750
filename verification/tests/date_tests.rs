use chrono::{Datelike, NaiveDate, TimeZone, Utc, Weekday};
use evalexpr::date_utils::{business_days_between, business_days_between_checked};
use evalexpr::expression_functions::{round_date_to_precision, round_date_to_precision_checked, round_datetime_to_precision};
use evalexpr::ffi::Error;
use evalexpr::value::Value;

type V = Value<Unused>;

/// A float type for values that never hold one.
#[derive(Clone, Copy, Debug, PartialEq)]
struct Unused(f64);

impl evalexpr::numeric::EvalexprFloat for Unused {
    fn from_float_literal(literal: &str) -> Self { Unused(literal.parse::<f64>().unwrap()) }
    fn from_int(value: i64) -> Self { Unused(value as f64) }
    fn to_int(self) -> i64 { self.0 as i64 }
    fn to_display_string(self) -> String { format!("{}", self.0) }
    fn min_value() -> Self { Unused(f64::NEG_INFINITY) }
    fn max_value() -> Self { Unused(f64::INFINITY) }
    fn add(self, other: Self) -> Self { Unused(self.0 + other.0) }
    fn sub(self, other: Self) -> Self { Unused(self.0 - other.0) }
    fn mul(self, other: Self) -> Self { Unused(self.0 * other.0) }
    fn div(self, other: Self) -> Self { Unused(self.0 / other.0) }
    fn rem(self, other: Self) -> Self { Unused(self.0 % other.0) }
    fn neg(self) -> Self { Unused(-self.0) }
    fn float_eq(self, other: Self) -> bool { self.0 == other.0 }
    fn float_lt(self, other: Self) -> bool { self.0 < other.0 }
    fn float_le(self, other: Self) -> bool { self.0 <= other.0 }
    fn pow(self, exponent: Self) -> Self { Unused(self.0.powf(exponent.0)) }
    fn powi(self, exponent: i32) -> Self { Unused(self.0.powi(exponent)) }
    fn ln(self) -> Self { Unused(self.0.ln()) }
    fn log(self, base: Self) -> Self { Unused(self.0.log(base.0)) }
    fn log2(self) -> Self { Unused(self.0.log2()) }
    fn log10(self) -> Self { Unused(self.0.log10()) }
    fn exp(self) -> Self { Unused(self.0.exp()) }
    fn exp2(self) -> Self { Unused(self.0.exp2()) }
    fn cos(self) -> Self { Unused(self.0.cos()) }
    fn cosh(self) -> Self { Unused(self.0.cosh()) }
    fn acos(self) -> Self { Unused(self.0.acos()) }
    fn acosh(self) -> Self { Unused(self.0.acosh()) }
    fn sin(self) -> Self { Unused(self.0.sin()) }
    fn sinh(self) -> Self { Unused(self.0.sinh()) }
    fn asin(self) -> Self { Unused(self.0.asin()) }
    fn asinh(self) -> Self { Unused(self.0.asinh()) }
    fn tan(self) -> Self { Unused(self.0.tan()) }
    fn tanh(self) -> Self { Unused(self.0.tanh()) }
    fn atan(self) -> Self { Unused(self.0.atan()) }
    fn atanh(self) -> Self { Unused(self.0.atanh()) }
    fn atan2(self, x: Self) -> Self { Unused(self.0.atan2(x.0)) }
    fn sqrt(self) -> Self { Unused(self.0.sqrt()) }
    fn cbrt(self) -> Self { Unused(self.0.cbrt()) }
    fn hypot(self, other: Self) -> Self { Unused(self.0.hypot(other.0)) }
    fn floor(self) -> Self { Unused(self.0.floor()) }
    fn round(self) -> Self { Unused(self.0.round()) }
    fn ceil(self) -> Self { Unused(self.0.ceil()) }
    fn is_nan(self) -> bool { self.0.is_nan() }
    fn is_finite(self) -> bool { self.0.is_finite() }
    fn is_infinite(self) -> bool { self.0.is_infinite() }
    fn is_normal(self) -> bool { self.0.is_normal() }
    fn abs(self) -> Self { Unused(self.0.abs()) }
    fn min(self, other: Self) -> Self { Unused(self.0.min(other.0)) }
    fn max(self, other: Self) -> Self { Unused(self.0.max(other.0)) }

    // The spec functions of the trait, each as the operation it describes.
    fn spec_from_float_literal(_literal: evalexpr::numeric::LiteralText) -> Self {
        unreachable!("spec functions are not called at run time")
    }
    fn spec_to_display_string(self) -> evalexpr::numeric::LiteralText {
        unreachable!("spec functions are not called at run time")
    }
    fn spec_from_int(value: i64) -> Self {
        Self::from_int(value)
    }
    fn spec_to_int(self) -> i64 {
        Self::to_int(self)
    }
    fn spec_min_value() -> Self {
        Self::min_value()
    }
    fn spec_max_value() -> Self {
        Self::max_value()
    }
    fn spec_add(self, other: Self) -> Self {
        Self::add(self, other)
    }
    fn spec_sub(self, other: Self) -> Self {
        Self::sub(self, other)
    }
    fn spec_mul(self, other: Self) -> Self {
        Self::mul(self, other)
    }
    fn spec_div(self, other: Self) -> Self {
        Self::div(self, other)
    }
    fn spec_rem(self, other: Self) -> Self {
        Self::rem(self, other)
    }
    fn spec_neg(self) -> Self {
        Self::neg(self)
    }
    fn spec_float_eq(self, other: Self) -> bool {
        Self::float_eq(self, other)
    }
    fn spec_float_lt(self, other: Self) -> bool {
        Self::float_lt(self, other)
    }
    fn spec_float_le(self, other: Self) -> bool {
        Self::float_le(self, other)
    }
    fn spec_pow(self, exponent: Self) -> Self {
        Self::pow(self, exponent)
    }
    fn spec_powi(self, exponent: i32) -> Self {
        Self::powi(self, exponent)
    }
    fn spec_ln(self) -> Self {
        Self::ln(self)
    }
    fn spec_log(self, base: Self) -> Self {
        Self::log(self, base)
    }
    fn spec_log2(self) -> Self {
        Self::log2(self)
    }
    fn spec_log10(self) -> Self {
        Self::log10(self)
    }
    fn spec_exp(self) -> Self {
        Self::exp(self)
    }
    fn spec_exp2(self) -> Self {
        Self::exp2(self)
    }
    fn spec_cos(self) -> Self {
        Self::cos(self)
    }
    fn spec_cosh(self) -> Self {
        Self::cosh(self)
    }
    fn spec_acos(self) -> Self {
        Self::acos(self)
    }
    fn spec_acosh(self) -> Self {
        Self::acosh(self)
    }
    fn spec_sin(self) -> Self {
        Self::sin(self)
    }
    fn spec_sinh(self) -> Self {
        Self::sinh(self)
    }
    fn spec_asin(self) -> Self {
        Self::asin(self)
    }
    fn spec_asinh(self) -> Self {
        Self::asinh(self)
    }
    fn spec_tan(self) -> Self {
        Self::tan(self)
    }
    fn spec_tanh(self) -> Self {
        Self::tanh(self)
    }
    fn spec_atan(self) -> Self {
        Self::atan(self)
    }
    fn spec_atanh(self) -> Self {
        Self::atanh(self)
    }
    fn spec_atan2(self, x: Self) -> Self {
        Self::atan2(self, x)
    }
    fn spec_sqrt(self) -> Self {
        Self::sqrt(self)
    }
    fn spec_cbrt(self) -> Self {
        Self::cbrt(self)
    }
    fn spec_hypot(self, other: Self) -> Self {
        Self::hypot(self, other)
    }
    fn spec_floor(self) -> Self {
        Self::floor(self)
    }
    fn spec_round(self) -> Self {
        Self::round(self)
    }
    fn spec_ceil(self) -> Self {
        Self::ceil(self)
    }
    fn spec_is_nan(self) -> bool {
        Self::is_nan(self)
    }
    fn spec_is_finite(self) -> bool {
        Self::is_finite(self)
    }
    fn spec_is_infinite(self) -> bool {
        Self::is_infinite(self)
    }
    fn spec_is_normal(self) -> bool {
        Self::is_normal(self)
    }
    fn spec_abs(self) -> Self {
        Self::abs(self)
    }
    fn spec_min(self, other: Self) -> Self {
        Self::min(self, other)
    }
    fn spec_max(self, other: Self) -> Self {
        Self::max(self, other)
    }
}

fn s(text: &str) -> V {
    Value::String(text.to_string())
}

fn stamp(y: i32, mo: u32, d: u32, h: u32, mi: u32) -> String {
    Utc.with_ymd_and_hms(y, mo, d, h, mi, 0).unwrap().format("%Y.%m.%d %H:%M:%S").to_string()
}

#[test]
fn test_round_date_to_m1() {
    let input = (s("BTCUSD_2024.02.13 10:05:23"), s("m1"));
    let expected = stamp(2024, 2, 13, 10, 5);
    let result = round_date_to_precision(&input.0, &input.1).unwrap();
    assert_eq!(result, Value::String(format!("BTCUSD_{}", expected)));
}

#[test]
fn test_round_date_to_h1() {
    let input = (s("BTCUSD_2024.02.13 10:05:23"), s("h1"));
    let expected = stamp(2024, 2, 13, 10, 0);
    let result = round_date_to_precision(&input.0, &input.1).unwrap();
    assert_eq!(result, Value::String(format!("BTCUSD_{}", expected)));
}

#[test]
fn test_round_date_to_1w() {
    let input = (s("BTCUSD_2024.02.13 10:05:23"), s("1w"));
    // 2024-02-13 is a Tuesday; its week began on Sunday 2024-02-11.
    let expected = stamp(2024, 2, 11, 0, 0);
    let result = round_date_to_precision(&input.0, &input.1).unwrap();
    assert_eq!(result, Value::String(format!("BTCUSD_{}", expected)));
}

#[test]
fn test_invalid_date_format() {
    let input = (s("BTCUSD_ThisIsNotADate"), s("m1"));
    let result = round_date_to_precision(&input.0, &input.1);
    assert!(result.is_err());
}

#[test]
fn test_invalid_precision() {
    let input = (s("BTCUSD_2024.02.13 10:05:00"), s("m60"));
    let result = round_date_to_precision(&input.0, &input.1);
    assert!(result.is_err(), "Expected an error for invalid precision");
}

#[test]
fn round_date_each_precision() {
    let cases = [
        ("m5", "X_2024.02.13 10:05:00"),
        ("M15", "X_2024.02.13 10:00:00"),
        ("m30", "X_2024.02.13 10:00:00"),
        ("h4", "X_2024.02.13 08:00:00"),
        ("d1", "X_2024.02.13 00:00:00"),
    ];
    for (precision, expected) in cases {
        let result = round_date_to_precision(&s("X_2024.02.13 10:09:59"), &s(precision)).unwrap();
        assert_eq!(result, s(expected), "precision {}", precision);
    }
}

#[test]
fn round_date_keeps_all_but_the_last_part() {
    let result = round_date_to_precision(&s("A_B_2024.03.01 23:59:01"), &s("m30")).unwrap();
    assert_eq!(result, s("A_B_2024.03.01 23:30:00"));
    let result = round_date_to_precision(&s("2024.03.01 23:59:01"), &s("h1")).unwrap();
    assert_eq!(result, s("_2024.03.01 23:00:00"));
}

#[test]
fn round_date_week_crosses_month_and_year() {
    // 2024-01-02 is a Tuesday: its week began on Sunday 2023-12-31.
    let result = round_date_to_precision(&s("K_2024.01.02 05:00:00"), &s("1W")).unwrap();
    assert_eq!(result, s("K_2023.12.31 00:00:00"));
}

#[test]
fn round_date_errors() {
    assert!(matches!(round_date_to_precision(&s("K_2024.02.30 05:00:00"), &s("m1")), Err(Error::InvalidDateFormat)));
    assert!(matches!(round_date_to_precision(&s("K_2024.02.13 05:00:00"), &V::Int(1)), Err(Error::InvalidArgumentType)));
    assert!(matches!(
        round_date_to_precision(&s("K_2024.02.13 05:00:00"), &s("1M")),
        Err(Error::CustomError(m)) if m == "Precision 1m is not recognised"
    ));
}

#[test]
fn round_stamp_directly() {
    assert_eq!(round_datetime_to_precision((2024, 2, 13, 10, 7), "m5").unwrap(), (2024, 2, 13, 10, 5));
    assert_eq!(round_datetime_to_precision((2024, 2, 13, 23, 7), "h4").unwrap(), (2024, 2, 13, 20, 0));
    assert_eq!(round_datetime_to_precision((2024, 2, 13, 23, 7), "1M").unwrap(), (2024, 2, 1, 0, 0));
}

#[test]
fn test_business_days_between_valid_range() {
    let start_date = s("2024-10-20"); // Sunday
    let end_date = s("2024-10-30"); // Wednesday
    let result = business_days_between(start_date, end_date).unwrap();
    assert_eq!(result, Value::Int(8)); // Excludes weekends
}

#[test]
fn test_business_days_between_same_day() {
    let start_date = s("2024-10-23"); // Wednesday
    let end_date = s("2024-10-23"); // Same Wednesday
    let result = business_days_between(start_date, end_date).unwrap();
    assert_eq!(result, Value::Int(1)); // 1 business day
}

#[test]
fn test_business_days_between_weekend_range() {
    let start_date = s("2024-10-19"); // Saturday
    let end_date = s("2024-10-22"); // Tuesday
    let result = business_days_between(start_date, end_date).unwrap();
    assert_eq!(result, Value::Int(2)); // Excludes the weekend
}

#[test]
fn test_business_days_between_invalid_date() {
    let start_date = s("invalid-date");
    let end_date = s("2024-10-22");
    let result = business_days_between(start_date, end_date);
    assert!(result.is_err()); // Should return an error for invalid date
}

#[test]
fn test_business_days_between_end_before_start() {
    let start_date = s("2024-10-25"); // Friday
    let end_date = s("2024-10-23"); // Wednesday
    let result = business_days_between(start_date, end_date);
    assert!(result.is_err()); // Should return an error when end_date is before start_date
}

#[test]
fn business_days_messages_and_cut() {
    let result = business_days_between(s("2024-10-21T09:00:00"), s("2024-10-25 anything"));
    assert_eq!(result.unwrap(), Value::Int(5));
    assert!(matches!(
        business_days_between(s("2024-10-25"), s("2024-10-23")),
        Err(Error::CustomError(m)) if m == "End date must be after start date"
    ));
    assert!(matches!(
        business_days_between(s("nope"), s("2024-10-23")),
        Err(Error::CustomError(m)) if m.starts_with("Invalid start date format: ")
    ));
    assert!(matches!(
        business_days_between(s("2024-10-23"), s("2024-13-01")),
        Err(Error::CustomError(m)) if m.starts_with("Invalid end date format: ")
    ));
    assert!(matches!(business_days_between(V::Int(3), s("2024-10-23")), Err(Error::CustomError(_))));
}

#[test]
fn round_date_checked_agrees_where_the_week_start_exists() {
    let checked = round_date_to_precision_checked(&s("K_2024.01.02 05:00:00"), &s("1w"));
    assert!(matches!(checked, Some(Ok(Value::String(t))) if t == "K_2023.12.31 00:00:00"));
    let checked = round_date_to_precision_checked(&s("K_2024.01.02 05:00:00"), &s("m60"));
    assert!(matches!(checked, Some(Err(Error::CustomError(_)))));
    assert!(matches!(round_date_to_precision_checked(&V::Int(1), &s("1w")), Some(Err(Error::InvalidArgumentType))));
}

#[test]
fn round_date_checked_refuses_a_week_before_the_first_date() {
    // A day in the first week of chrono's first year that is not a Sunday: its week would begin
    // before the first date that chrono can hold.
    let day = (1..=7)
        .map(|d| NaiveDate::from_ymd_opt(-262143, 1, d).unwrap())
        .find(|date| date.weekday() != Weekday::Sun)
        .unwrap();
    let text = format!("K_{}", day.and_hms_opt(5, 0, 0).unwrap().format("%Y.%m.%d %H:%M:%S"));
    assert!(round_date_to_precision_checked(&s(&text), &s("1w")).is_none());
    assert!(round_date_to_precision_checked(&s(&text), &s("d1")).is_some());
}

#[test]
fn business_days_checked_agrees() {
    let result = business_days_between_checked(s("2024-10-20"), s("2024-10-30"));
    assert!(matches!(result, Some(Ok(Value::Int(8)))));
    assert!(matches!(business_days_between_checked(s("2024-10-25"), s("2024-10-23")), Some(Err(_))));
}

#[test]
fn round_date_week_starts_on_the_sunday_chrono_gives() {
    // Days across four centuries, the ends of months and leap days.
    let mut date = NaiveDate::from_ymd_opt(1899, 12, 20).unwrap();
    let end = NaiveDate::from_ymd_opt(2101, 3, 10).unwrap();
    while date < end {
        let text = format!("W_{} 12:00:00", date.format("%Y.%m.%d"));
        let sunday = date - chrono::Duration::days(date.weekday().num_days_from_sunday() as i64);
        let expected = format!("W_{} 00:00:00", sunday.format("%Y.%m.%d"));
        assert_eq!(round_date_to_precision(&s(&text), &s("1w")).unwrap(), s(&expected), "{}", text);
        date = date + chrono::Duration::days(13);
    }
}
