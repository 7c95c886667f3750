use evalexpr::columns::{generate_column_name, get_string, sanitize_with_char};
use evalexpr::cow::CowData;
use evalexpr::expression::is_range;
use evalexpr::ffi::{
    context, context_result, extract_message_from_any_error, to_ffi_result, to_nested_ffi_result, Error, ToErrorType,
};
use evalexpr::report::{
    create_report_reference_nodes_from_operator_uri, extract_parameters, extract_report_key, extract_report_key_from_operator_uri,
};
use evalexpr::templates::{
    get_value_indirect, set_value_indirect, set_value_indirect_if_some,
    to_bucket_field_name, to_bucket_range_field_name, to_zscore_output_field_name, BucketData, ChannelMonitor,
    CorrelationAnalysis, RollingZScore, SimpleTradeModel, TradeAction, TradeEvent, TradeState,
    adaptive_stop_loss_step, AdaptiveTradeState, MIN_TRADE_DURATION,
};
use evalexpr::value::{Value, ValueType};
use evalexpr::error::EvalexprError;

/// An integer stands in for the float type where no float is computed.
type V = Value<i64Float>;

#[allow(non_camel_case_types)]
#[derive(Clone, Copy, Debug, PartialEq)]
struct i64Float(f64);

impl evalexpr::numeric::EvalexprFloat for i64Float {
    fn from_float_literal(literal: &str) -> Self { i64Float(literal.parse::<f64>().unwrap()) }
    fn from_int(value: i64) -> Self { i64Float(value as f64) }
    fn to_int(self) -> i64 { self.0 as i64 }
    fn to_display_string(self) -> String { format!("{}", self.0) }
    fn min_value() -> Self { i64Float(f64::NEG_INFINITY) }
    fn max_value() -> Self { i64Float(f64::INFINITY) }
    fn add(self, other: Self) -> Self { i64Float(self.0 + other.0) }
    fn sub(self, other: Self) -> Self { i64Float(self.0 - other.0) }
    fn mul(self, other: Self) -> Self { i64Float(self.0 * other.0) }
    fn div(self, other: Self) -> Self { i64Float(self.0 / other.0) }
    fn rem(self, other: Self) -> Self { i64Float(self.0 % other.0) }
    fn neg(self) -> Self { i64Float(-self.0) }
    fn float_eq(self, other: Self) -> bool { self.0 == other.0 }
    fn float_lt(self, other: Self) -> bool { self.0 < other.0 }
    fn float_le(self, other: Self) -> bool { self.0 <= other.0 }
    fn pow(self, exponent: Self) -> Self { i64Float(self.0.powf(exponent.0)) }
    fn powi(self, exponent: i32) -> Self { i64Float(self.0.powi(exponent)) }
    fn ln(self) -> Self { i64Float(self.0.ln()) }
    fn log(self, base: Self) -> Self { i64Float(self.0.log(base.0)) }
    fn log2(self) -> Self { i64Float(self.0.log2()) }
    fn log10(self) -> Self { i64Float(self.0.log10()) }
    fn exp(self) -> Self { i64Float(self.0.exp()) }
    fn exp2(self) -> Self { i64Float(self.0.exp2()) }
    fn cos(self) -> Self { i64Float(self.0.cos()) }
    fn cosh(self) -> Self { i64Float(self.0.cosh()) }
    fn acos(self) -> Self { i64Float(self.0.acos()) }
    fn acosh(self) -> Self { i64Float(self.0.acosh()) }
    fn sin(self) -> Self { i64Float(self.0.sin()) }
    fn sinh(self) -> Self { i64Float(self.0.sinh()) }
    fn asin(self) -> Self { i64Float(self.0.asin()) }
    fn asinh(self) -> Self { i64Float(self.0.asinh()) }
    fn tan(self) -> Self { i64Float(self.0.tan()) }
    fn tanh(self) -> Self { i64Float(self.0.tanh()) }
    fn atan(self) -> Self { i64Float(self.0.atan()) }
    fn atanh(self) -> Self { i64Float(self.0.atanh()) }
    fn atan2(self, x: Self) -> Self { i64Float(self.0.atan2(x.0)) }
    fn sqrt(self) -> Self { i64Float(self.0.sqrt()) }
    fn cbrt(self) -> Self { i64Float(self.0.cbrt()) }
    fn hypot(self, other: Self) -> Self { i64Float(self.0.hypot(other.0)) }
    fn floor(self) -> Self { i64Float(self.0.floor()) }
    fn round(self) -> Self { i64Float(self.0.round()) }
    fn ceil(self) -> Self { i64Float(self.0.ceil()) }
    fn is_nan(self) -> bool { self.0.is_nan() }
    fn is_finite(self) -> bool { self.0.is_finite() }
    fn is_infinite(self) -> bool { self.0.is_infinite() }
    fn is_normal(self) -> bool { self.0.is_normal() }
    fn abs(self) -> Self { i64Float(self.0.abs()) }
    fn min(self, other: Self) -> Self { i64Float(self.0.min(other.0)) }
    fn max(self, other: Self) -> Self { i64Float(self.0.max(other.0)) }

    // The spec functions of the trait, each as the operation it describes.
    fn spec_from_float_literal(_literal: evalexpr::numeric::LiteralText) -> Self {
        unreachable!("spec functions are not called at run time")
    }
    fn spec_to_display_string(self) -> evalexpr::numeric::LiteralText {
        unreachable!("spec functions are not called at run time")
    }
    fn spec_from_int(value: i64) -> Self {
        Self::from_int(value)
    }
    fn spec_to_int(self) -> i64 {
        Self::to_int(self)
    }
    fn spec_min_value() -> Self {
        Self::min_value()
    }
    fn spec_max_value() -> Self {
        Self::max_value()
    }
    fn spec_add(self, other: Self) -> Self {
        Self::add(self, other)
    }
    fn spec_sub(self, other: Self) -> Self {
        Self::sub(self, other)
    }
    fn spec_mul(self, other: Self) -> Self {
        Self::mul(self, other)
    }
    fn spec_div(self, other: Self) -> Self {
        Self::div(self, other)
    }
    fn spec_rem(self, other: Self) -> Self {
        Self::rem(self, other)
    }
    fn spec_neg(self) -> Self {
        Self::neg(self)
    }
    fn spec_float_eq(self, other: Self) -> bool {
        Self::float_eq(self, other)
    }
    fn spec_float_lt(self, other: Self) -> bool {
        Self::float_lt(self, other)
    }
    fn spec_float_le(self, other: Self) -> bool {
        Self::float_le(self, other)
    }
    fn spec_pow(self, exponent: Self) -> Self {
        Self::pow(self, exponent)
    }
    fn spec_powi(self, exponent: i32) -> Self {
        Self::powi(self, exponent)
    }
    fn spec_ln(self) -> Self {
        Self::ln(self)
    }
    fn spec_log(self, base: Self) -> Self {
        Self::log(self, base)
    }
    fn spec_log2(self) -> Self {
        Self::log2(self)
    }
    fn spec_log10(self) -> Self {
        Self::log10(self)
    }
    fn spec_exp(self) -> Self {
        Self::exp(self)
    }
    fn spec_exp2(self) -> Self {
        Self::exp2(self)
    }
    fn spec_cos(self) -> Self {
        Self::cos(self)
    }
    fn spec_cosh(self) -> Self {
        Self::cosh(self)
    }
    fn spec_acos(self) -> Self {
        Self::acos(self)
    }
    fn spec_acosh(self) -> Self {
        Self::acosh(self)
    }
    fn spec_sin(self) -> Self {
        Self::sin(self)
    }
    fn spec_sinh(self) -> Self {
        Self::sinh(self)
    }
    fn spec_asin(self) -> Self {
        Self::asin(self)
    }
    fn spec_asinh(self) -> Self {
        Self::asinh(self)
    }
    fn spec_tan(self) -> Self {
        Self::tan(self)
    }
    fn spec_tanh(self) -> Self {
        Self::tanh(self)
    }
    fn spec_atan(self) -> Self {
        Self::atan(self)
    }
    fn spec_atanh(self) -> Self {
        Self::atanh(self)
    }
    fn spec_atan2(self, x: Self) -> Self {
        Self::atan2(self, x)
    }
    fn spec_sqrt(self) -> Self {
        Self::sqrt(self)
    }
    fn spec_cbrt(self) -> Self {
        Self::cbrt(self)
    }
    fn spec_hypot(self, other: Self) -> Self {
        Self::hypot(self, other)
    }
    fn spec_floor(self) -> Self {
        Self::floor(self)
    }
    fn spec_round(self) -> Self {
        Self::round(self)
    }
    fn spec_ceil(self) -> Self {
        Self::ceil(self)
    }
    fn spec_is_nan(self) -> bool {
        Self::is_nan(self)
    }
    fn spec_is_finite(self) -> bool {
        Self::is_finite(self)
    }
    fn spec_is_infinite(self) -> bool {
        Self::is_infinite(self)
    }
    fn spec_is_normal(self) -> bool {
        Self::is_normal(self)
    }
    fn spec_abs(self) -> Self {
        Self::abs(self)
    }
    fn spec_min(self, other: Self) -> Self {
        Self::min(self, other)
    }
    fn spec_max(self, other: Self) -> Self {
        Self::max(self, other)
    }
}

#[test]
fn error_codes_round_trip() {
    let errors = vec![
        Error::UnsupportedArithmeticBetweenTypes,
        Error::UnsupportedOperation,
        Error::DivisionByZero,
        Error::NonNumericType,
        Error::InvalidArgumentType,
        Error::InvalidInputString,
        Error::InvalidDateFormat,
        Error::CustomError("boom".to_string()),
    ];
    for e in errors {
        let back = Error::from_error_code(e.to_error_code(), e.to_error_message());
        assert_eq!(format!("{:?}", back), format!("{:?}", e));
    }
    assert_eq!(Error::DivisionByZero.to_error_code(), 2);
    assert!(matches!(Error::from_error_code(99, None), Error::UnsupportedOperation));
    assert!(matches!(Error::from_error_code(8, None), Error::CustomError(m) if m == "Custom error"));
}

#[test]
fn ffi_results() {
    let ok = to_ffi_result::<i32, Error>(Ok(7));
    assert_eq!((ok.value, ok.error_code, ok.error_message.as_str()), (7, 0, ""));
    let err = to_ffi_result::<i32, Error>(Err(Error::CustomError("bad".to_string())));
    assert_eq!((err.value, err.error_code, err.error_message.as_str()), (0, 8, "bad"));
    let plain = to_ffi_result::<i32, Error>(Err(Error::DivisionByZero));
    assert_eq!((plain.value, plain.error_code, plain.error_message.as_str()), (0, 2, ""));
    let panicked = to_nested_ffi_result::<i32, Error>(Err("it broke".to_string()));
    assert_eq!((panicked.value, panicked.error_code, panicked.error_message.as_str()), (0, 8, "it broke"));
    let nested = to_nested_ffi_result::<i32, Error>(Ok(Ok(3)));
    assert_eq!((nested.value, nested.error_code), (3, 0));
}

#[test]
fn panic_messages() {
    assert_eq!(extract_message_from_any_error(Some("a".to_string()), None), "a");
    assert_eq!(extract_message_from_any_error(None, Some("b".to_string())), "b");
    assert_eq!(extract_message_from_any_error(None, None), "Caught a panic with an unknown type.");
}

#[test]
fn context_helpers() {
    assert_eq!(context(Some(4), "missing").unwrap(), 4);
    assert!(matches!(context::<i32>(None, "missing"), Err(Error::CustomError(m)) if m == "missing"));
    assert!(matches!(context_result::<i32, &str>(Err("why"), "failed"), Err(Error::CustomError(m)) if m == "failed - \"why\""));
    assert_eq!(context_result::<i32, &str>(Ok(1), "failed").unwrap(), 1);
}

#[test]
fn report_keys_and_parameters() {
    assert_eq!(extract_report_key("xxabc/def"), "abc");
    assert_eq!(extract_report_key("abc/def/ghi"), "abc");
    assert_eq!(extract_report_key("xxplain"), "plain");
    assert_eq!(extract_report_key("x/y"), "x");
    let mut params = extract_parameters("xxkey/params a yyy 1 bbb b yyy 2 bbb bad bbb a yyy 3");
    params.sort();
    assert_eq!(params, vec![("a".to_string(), "3".to_string()), ("b".to_string(), "2".to_string())]);
    assert!(extract_parameters("no parameters here").is_empty());
    assert!(extract_parameters("paramsx yyy y yyy z").is_empty());
    let uri: V = Value::String("xxkey/params".to_string());
    assert_eq!(extract_report_key_from_operator_uri(uri), Ok(Value::String("xxkey/params".to_string())));
    assert_eq!(
        extract_report_key_from_operator_uri::<i64Float>(Value::Int(1)),
        Err(EvalexprError::ExpectedString { actual: Value::Int(1) })
    );
}

#[test]
fn ranges() {
    assert!(is_range("1..5"));
    assert!(is_range("a..b"));
    assert!(!is_range("1.5"));
    assert!(!is_range(""));
}

#[test]
fn column_names() {
    assert_eq!(sanitize_with_char("a--b c", 'x'), "axbxc");
    assert_eq!(sanitize_with_char("ab", '_'), "ab");
    assert_eq!(sanitize_with_char("a.b", '_'), "a_b");
    assert_eq!(sanitize_with_char("!!!", '_'), "__");
    assert_eq!(generate_column_name::<i64Float>("field", &Value::String("date1".to_string())), "field__date1");
    assert_eq!(generate_column_name::<i64Float>("f", &Value::Int(-3)), "f__x3");
    assert_eq!(get_string::<i64Float>(&Value::Empty), "null");
    assert_eq!(get_string::<i64Float>(&Value::Boolean(true)), "true");
}

#[test]
fn template_columns() {
    assert_eq!(to_bucket_field_name("price"), "pricebucket");
    assert_eq!(to_bucket_range_field_name("price"), "pricebucketRange");
    assert_eq!(to_zscore_output_field_name("price"), "pricezscore");
    let bucket = BucketData::new(vec!["a", "b"], 0);
    assert_eq!(bucket.dependencies(), vec!["a".to_string(), "b".to_string()]);
    assert_eq!(
        bucket.schema(),
        vec![
            ("abucket".to_string(), ValueType::Int),
            ("abucketRange".to_string(), ValueType::String),
            ("bbucket".to_string(), ValueType::Int),
            ("bbucketRange".to_string(), ValueType::String),
        ]
    );
    let three = BucketData::new(vec!["a"], 3);
    assert_eq!(three.bucket_number(0, 3), 3);
    assert_eq!(three.bucket_number(2, 3), 1);
    assert_eq!(three.bucket_number(0, 1), 3);
    let zscore = RollingZScore::new(vec!["p"], 0);
    assert_eq!(zscore.schema().len(), 4);
    assert_eq!(zscore.dependencies(), vec!["p".to_string()]);
    let monitor = ChannelMonitor::new("low", "high", "v", "out");
    assert_eq!(monitor.dependencies(), vec!["low".to_string(), "high".to_string(), "v".to_string()]);
    let flags = ChannelMonitor::flags(true, true, false, false, Some(true), None);
    assert!(flags.within_bounds && flags.re_entered_above && !flags.re_entered_below);
    let outside = ChannelMonitor::flags(true, false, true, false, Some(false), Some(true));
    assert!(!outside.within_bounds && outside.left_above && !outside.re_entered_below);
    let model = SimpleTradeModel::new("i", "s", "p", "sl", "tp", "c", 5, 2);
    assert_eq!(model.dependencies().len(), 6);
    let correlation = CorrelationAnalysis::new("y", vec!["x1", "x2"]);
    assert_eq!(correlation.dependencies(), vec!["x1".to_string(), "x2".to_string(), "y".to_string()]);
    assert_eq!(correlation.schema()[0], ("x1coefficient".to_string(), ValueType::Float));
}

#[test]
fn cow_text() {
    let owned = CowData::Owned("héllo".to_string());
    assert_eq!(owned.len(), 6);
    assert_eq!(owned.as_ref(), "héllo");
    let borrowed = CowData::Borrowed("abc");
    assert_eq!(borrowed.ref_into_owned(), "abc");
    assert_eq!(borrowed.into_owned(), "abc");
}

#[test]
fn indirect_row_access() {
    let mut values: Vec<V> = vec![Value::Int(1), Value::Int(2), Value::Int(3)];
    let mut dirty: Vec<usize> = Vec::new();
    let index = vec![2usize, 0, 7];
    assert_eq!(get_value_indirect(&values, &index, 0).unwrap(), &Value::Int(3));
    assert!(matches!(get_value_indirect(&values, &index, 3), Err(Error::CustomError(m)) if m == "Column not found in index3"));
    assert!(matches!(get_value_indirect(&values, &index, 2), Err(Error::CustomError(m)) if m == "Column 7 not found in row"));
    set_value_indirect(&mut values, &mut dirty, &index, 1, Value::Int(10)).unwrap();
    assert_eq!(values, vec![Value::Int(10), Value::Int(2), Value::Int(3)]);
    assert_eq!(dirty, vec![0]);
    assert!(set_value_indirect(&mut values, &mut dirty, &index, 2, Value::Int(5)).is_err());
    assert_eq!(dirty, vec![0]);
    set_value_indirect_if_some(&mut values, &mut dirty, &index, 0, None).unwrap();
    assert_eq!(dirty, vec![0]);
    set_value_indirect_if_some(&mut values, &mut dirty, &index, 0, Some(Value::Boolean(true))).unwrap();
    assert_eq!(values, vec![Value::Int(10), Value::Int(2), Value::Boolean(true)]);
    assert_eq!(dirty, vec![0, 2]);
}

fn fresh_trade_state() -> TradeState {
    TradeState { active: None, has_initiation_price: false, trade_age: None, days_since_last_trade: None, prev_signal: None }
}

fn event(signal: bool, below_stop: bool, above_take_profit: bool) -> TradeEvent {
    TradeEvent { signal, at_or_below_stop_loss: below_stop, at_or_above_take_profit: above_take_profit }
}

#[test]
fn trade_opens_on_a_new_signal_and_closes_on_stop_loss() {
    let model = SimpleTradeModel::new("instrument", "signal", "price", "stop_loss_initial", "take_profit_initial", "conviction", 10, 5);
    let (opened, action) = model.step(fresh_trade_state(), event(true, false, false)).unwrap();
    assert_eq!(action, TradeAction::Open);
    assert_eq!(opened, TradeState {
        active: Some(true), has_initiation_price: true, trade_age: Some(0), days_since_last_trade: Some(0), prev_signal: Some(true),
    });
    let (held, action) = model.step(opened, event(true, false, false)).unwrap();
    assert_eq!(action, TradeAction::Hold);
    assert_eq!(held.trade_age, Some(1));
    let (closed, action) = model.step(held, event(false, true, true)).unwrap();
    assert_eq!(action, TradeAction::CloseOnStopLoss);
    assert_eq!(closed, TradeState {
        active: Some(false), has_initiation_price: false, trade_age: None, days_since_last_trade: Some(0), prev_signal: Some(false),
    });
}

#[test]
fn trade_closes_on_take_profit_and_holding_period() {
    let model = SimpleTradeModel::new("i", "s", "p", "sl", "tp", "c", 2, 0);
    let (opened, _) = model.step(fresh_trade_state(), event(true, false, false)).unwrap();
    let (_, action) = model.step(opened, event(true, false, true)).unwrap();
    assert_eq!(action, TradeAction::CloseOnTakeProfit);
    let (aged, action) = model.step(opened, event(true, false, false)).unwrap();
    assert_eq!(action, TradeAction::Hold);
    let (_, action) = model.step(aged, event(true, false, false)).unwrap();
    assert_eq!(action, TradeAction::CloseOnHoldingPeriod);
}

#[test]
fn trade_waits_for_the_re_entry_time_and_a_fresh_signal() {
    let model = SimpleTradeModel::new("i", "s", "p", "sl", "tp", "c", 10, 2);
    let closed = TradeState {
        active: Some(false), has_initiation_price: false, trade_age: None, days_since_last_trade: Some(0), prev_signal: Some(false),
    };
    // Too soon after the last trade: the signal is seen but nothing opens, and no day is counted.
    let (waiting, action) = model.step(closed, event(true, false, false)).unwrap();
    assert_eq!(action, TradeAction::Hold);
    assert_eq!(waiting.days_since_last_trade, Some(0));
    // Days without a signal are counted.
    let (s1, _) = model.step(waiting, event(false, false, false)).unwrap();
    let (s2, _) = model.step(s1, event(false, false, false)).unwrap();
    assert_eq!(s2.days_since_last_trade, Some(2));
    let (_, action) = model.step(s2, event(true, false, false)).unwrap();
    assert_eq!(action, TradeAction::Open);
    // A signal that was already on in the row before opens nothing.
    let (_, action) = model.step(TradeState { prev_signal: Some(true), ..s2 }, event(true, false, false)).unwrap();
    assert_eq!(action, TradeAction::Hold);
}

#[test]
fn active_trade_needs_its_price_and_age() {
    let model = SimpleTradeModel::new("i", "s", "p", "sl", "tp", "c", 10, 2);
    let broken = TradeState { active: Some(true), has_initiation_price: false, trade_age: Some(1), days_since_last_trade: None, prev_signal: None };
    assert!(matches!(model.step(broken, event(true, false, false)),
        Err(Error::CustomError(m)) if m == "Should have trade initiation price for active trade"));
    let broken = TradeState { has_initiation_price: true, trade_age: None, ..broken };
    assert!(matches!(model.step(broken, event(true, false, false)),
        Err(Error::CustomError(m)) if m == "Should have trade age for active trade"));
}

#[test]
fn report_reference_node_json() {
    let uri: V = Value::String("xxkey/paramsayyy1bbbbyyy two".to_string());
    let result = create_report_reference_nodes_from_operator_uri(uri, Value::String("out".to_string())).unwrap();
    assert_eq!(
        result,
        Value::String(
            "[{\"name\":\"report_reference_node\",\"nodeType\":\"Persistent\",\"operatorType\":\"report_reference\",\
\"outputOperatorName\":\"out\",\"parameterValues\":{\"a\":\"1\",\"b\":\"two\"},\"reportKey\":\"key\"}]"
                .to_string()
        )
    );
    assert!(matches!(
        create_report_reference_nodes_from_operator_uri::<i64Float>(Value::Int(1), Value::String("out".to_string())),
        Err(Error::CustomError(_))
    ));
    assert!(matches!(
        create_report_reference_nodes_from_operator_uri::<i64Float>(Value::String("k".to_string()), Value::Empty),
        Err(Error::CustomError(_))
    ));
}

#[test]
fn ffi_errors_carry_the_default_value() {
    let failed = to_ffi_result::<i64, Error>(Err(Error::DivisionByZero));
    assert_eq!(failed.value, 0);
    let panicked = to_nested_ffi_result::<i64, Error>(Err("boom".to_string()));
    assert_eq!((panicked.value, panicked.error_code, panicked.error_message.as_str()), (0, 8, "boom"));
}

fn idle_adaptive_state() -> AdaptiveTradeState {
    AdaptiveTradeState {
        active: None, has_initiation_price: false, has_stop_loss: false, has_take_profit: false, trade_age: None, prev_signal: None,
    }
}

#[test]
fn adaptive_trade_opens_and_keeps_a_young_trade_past_its_stop_loss() {
    let (opened, action) = adaptive_stop_loss_step(idle_adaptive_state(), event(true, false, false)).unwrap();
    assert_eq!(action, TradeAction::Open);
    assert_eq!(opened, AdaptiveTradeState {
        active: Some(true), has_initiation_price: true, has_stop_loss: true, has_take_profit: true, trade_age: Some(0), prev_signal: Some(true),
    });
    // At or below the stop loss, a trade younger than the minimum duration stays open and ages.
    let mut state = opened;
    for age in 1..MIN_TRADE_DURATION {
        let (next, action) = adaptive_stop_loss_step(state, event(false, true, false)).unwrap();
        assert_eq!(action, TradeAction::Hold);
        assert_eq!(next.trade_age, Some(age));
        state = next;
    }
    let (closed, action) = adaptive_stop_loss_step(state, event(false, true, true)).unwrap();
    assert_eq!(action, TradeAction::CloseOnStopLoss);
    assert_eq!(closed, AdaptiveTradeState {
        active: Some(false), has_initiation_price: false, has_stop_loss: false, has_take_profit: false, trade_age: None, prev_signal: Some(false),
    });
}

#[test]
fn adaptive_trade_closes_on_take_profit_and_needs_a_fresh_signal() {
    let (opened, _) = adaptive_stop_loss_step(idle_adaptive_state(), event(true, false, false)).unwrap();
    let (closed, action) = adaptive_stop_loss_step(opened, event(true, false, true)).unwrap();
    assert_eq!(action, TradeAction::CloseOnTakeProfit);
    assert_eq!(closed.active, Some(false));
    assert_eq!(closed.prev_signal, Some(true));
    // The signal was already on in the row before: nothing opens.
    let (still, action) = adaptive_stop_loss_step(closed, event(true, false, false)).unwrap();
    assert_eq!(action, TradeAction::Hold);
    assert_eq!(still, closed);
    let (off, action) = adaptive_stop_loss_step(still, event(false, false, false)).unwrap();
    assert_eq!(action, TradeAction::Hold);
    assert_eq!(off.prev_signal, Some(false));
    let (_, action) = adaptive_stop_loss_step(off, event(true, false, false)).unwrap();
    assert_eq!(action, TradeAction::Open);
}

#[test]
fn adaptive_active_trade_needs_its_levels_and_age() {
    let complete = AdaptiveTradeState {
        active: Some(true), has_initiation_price: true, has_stop_loss: true, has_take_profit: true, trade_age: Some(2), prev_signal: None,
    };
    let cases = [
        (AdaptiveTradeState { has_initiation_price: false, ..complete }, "Should have trade initiation price for active trade"),
        (AdaptiveTradeState { has_stop_loss: false, ..complete }, "Should have stop loss for active trade"),
        (AdaptiveTradeState { has_take_profit: false, ..complete }, "Should have take profit active trade"),
        (AdaptiveTradeState { trade_age: None, ..complete }, "Should have trade age for active trade"),
    ];
    for (state, message) in cases {
        assert!(matches!(adaptive_stop_loss_step(state, event(true, true, true)),
            Err(Error::CustomError(m)) if m == message));
    }
    let (next, action) = adaptive_stop_loss_step(complete, event(true, false, false)).unwrap();
    assert_eq!(action, TradeAction::Hold);
    assert_eq!(next.trade_age, Some(3));
}
