//! How the calculation templates compare values: numbers by value, strings and booleans in Rust's
//! order, the empty value above everything, tuples not at all.
use vstd::prelude::*;
use core::cmp::Ordering;
use crate::numeric::EvalexprFloat;
use crate::value::{Value, VModel, float_of};
use crate::operator::{lex_less, str_less};

verus! {

/// The number that stands for an ordering: -1 for less, 0 for equal, 1 for greater.
pub open spec fn order_code(o: Ordering) -> int {
    match o {
        Ordering::Less => -1,
        Ordering::Equal => 0,
        Ordering::Greater => 1,
    }
}

/// The code of an optional ordering.
pub open spec fn option_order_code(o: Option<Ordering>) -> Option<int> {
    match o {
        Some(x) => Some(order_code(x)),
        None => None,
    }
}

/// The code of the ordering of two integers.
pub open spec fn int_order(a: int, b: int) -> int {
    if a < b { -1 } else if a == b { 0 } else { 1 }
}

/// The code of the ordering of two floats by the float type's comparisons: less where `x < y`,
/// else equal where `x == y`, else greater.
pub open spec fn float_code<F: EvalexprFloat>(x: F, y: F) -> int {
    if x.spec_float_lt(y) { -1 } else if x.spec_float_eq(y) { 0 } else { 1 }
}

/// How two values are ordered, by code (`Some(None)` where they are incomparable); numbers of
/// which one is a float are ordered as floats (an integer converted by `from_int`).
pub open spec fn values_order<F: EvalexprFloat>(a: VModel<F>, b: VModel<F>) -> Option<Option<int>> {
    match (a, b) {
        (VModel::Str(x), VModel::Str(y)) => Some(Some(if lex_less(x, y) { -1 } else if lex_less(y, x) { 1 } else { 0 })),
        (VModel::Int(x), VModel::Int(y)) => Some(Some(int_order(x, y))),
        (VModel::Float(_), VModel::Float(_)) => Some(Some(float_code(float_of(a), float_of(b)))),
        (VModel::Float(_), VModel::Int(_)) => Some(Some(float_code(float_of(a), float_of(b)))),
        (VModel::Int(_), VModel::Float(_)) => Some(Some(float_code(float_of(a), float_of(b)))),
        (VModel::Boolean(x), VModel::Boolean(y)) => Some(Some(int_order(if x { 1 } else { 0 }, if y { 1 } else { 0 }))),
        (VModel::Tuple(_), VModel::Tuple(_)) => Some(None),
        (VModel::Empty, VModel::Empty) => Some(Some(0)),
        (_, VModel::Empty) => Some(Some(1)),
        (VModel::Empty, _) => Some(Some(1)),
        _ => Some(None),
    }
}

/// The ordering of two floats, by the float type's comparisons.
fn float_order<F: EvalexprFloat>(a: F, b: F) -> (r: Option<Ordering>)
    ensures
        option_order_code(r) == Some(float_code(a, b)),
{
    if a.float_lt(b) {
        Some(Ordering::Less)
    } else if a.float_eq(b) {
        Some(Ordering::Equal)
    } else {
        Some(Ordering::Greater)
    }
}

/// The ordering of two integers.
fn int_ordering(a: i64, b: i64) -> (r: Ordering)
    ensures
        (r == Ordering::Less) == (a < b),
        (r == Ordering::Equal) == (a == b),
        (r == Ordering::Greater) == (a > b),
{
    if a < b {
        Ordering::Less
    } else if a == b {
        Ordering::Equal
    } else {
        Ordering::Greater
    }
}

/// Compares two values: strings, integers and booleans in Rust's order, numbers by value
/// (through the float type where a float takes part), two empty values are equal and an empty
/// value is greater than anything else (on either side); tuples and values of different kinds are
/// incomparable.
pub fn compare_values<F: EvalexprFloat>(a: &Value<F>, b: &Value<F>) -> (r: Option<Ordering>)
    ensures
        match values_order(a@, b@) {
            Some(o) => option_order_code(r) == o,
            None => r is Some,
        },
{
    match (a, b) {
        (Value::String(x), Value::String(y)) => {
            if str_less(x.as_str(), y.as_str()) {
                Some(Ordering::Less)
            } else if str_less(y.as_str(), x.as_str()) {
                Some(Ordering::Greater)
            } else {
                Some(Ordering::Equal)
            }
        },
        (Value::Float(x), Value::Float(y)) => float_order(*x, *y),
        (Value::Int(x), Value::Int(y)) => Some(int_ordering(*x, *y)),
        (Value::Float(x), Value::Int(y)) => float_order(*x, F::from_int(*y)),
        (Value::Int(x), Value::Float(y)) => float_order(F::from_int(*x), *y),
        (Value::Boolean(x), Value::Boolean(y)) => {
            if *x == *y {
                Some(Ordering::Equal)
            } else if *y {
                Some(Ordering::Less)
            } else {
                Some(Ordering::Greater)
            }
        },
        (Value::Tuple(_), Value::Tuple(_)) => None,
        (Value::Empty, Value::Empty) => Some(Ordering::Equal),
        (_, Value::Empty) => Some(Ordering::Greater),
        (Value::Empty, _) => Some(Ordering::Greater),
        _ => None,
    }
}

/// Whether `a` is greater than `b` (`a > b`).
pub open spec fn spec_greater<F: EvalexprFloat>(a: VModel<F>, b: VModel<F>) -> Option<bool> {
    match values_order(a, b) {
        Some(o) => Some(o == Some(1int)),
        None => None,
    }
}

/// Whether `a` is less than `b` (`a < b`).
pub open spec fn spec_less<F: EvalexprFloat>(a: VModel<F>, b: VModel<F>) -> Option<bool> {
    match values_order(a, b) {
        Some(o) => Some(o == Some(-1int)),
        None => None,
    }
}

/// Whether `a` is less than or equal to `b` (`a <= b`).
pub open spec fn spec_less_or_equal<F: EvalexprFloat>(a: VModel<F>, b: VModel<F>) -> Option<bool> {
    match values_order(a, b) {
        Some(o) => Some(o == Some(-1int) || o == Some(0int)),
        None => None,
    }
}

/// `a <= b` on values.
pub fn value_less_or_equal<F: EvalexprFloat>(a: &Value<F>, b: &Value<F>) -> (r: bool)
    ensures
        spec_less_or_equal(a@, b@) matches Some(l) ==> r == l,
{
    match compare_values(a, b) {
        Some(Ordering::Less) => true,
        Some(Ordering::Equal) => true,
        _ => false,
    }
}

/// `a > b` on values.
pub fn value_greater<F: EvalexprFloat>(a: &Value<F>, b: &Value<F>) -> (r: bool)
    ensures
        spec_greater(a@, b@) matches Some(g) ==> r == g,
{
    match compare_values(a, b) {
        Some(Ordering::Greater) => true,
        _ => false,
    }
}

/// `a < b` on values.
pub fn value_less<F: EvalexprFloat>(a: &Value<F>, b: &Value<F>) -> (r: bool)
    ensures
        spec_less(a@, b@) matches Some(l) ==> r == l,
{
    match compare_values(a, b) {
        Some(Ordering::Less) => true,
        _ => false,
    }
}

/// Whether two values can be compared for equality: values of the same kind, two numbers, or
/// anything beside an empty value. Other pairs are refused.
pub open spec fn equality_defined<F>(a: VModel<F>, b: VModel<F>) -> bool {
    ||| (a is Str && b is Str)
    ||| ((a is Int || a is Float) && (b is Int || b is Float))
    ||| (a is Boolean && b is Boolean)
    ||| (a is Tuple && b is Tuple)
    ||| a is Empty
    ||| b is Empty
}

/// Whether two values are equal: strings, integers and booleans by their content, two tuples
/// never, two empty values always, an empty value and another never; numbers of which one is a
/// float by the float type's equality (an integer converted by `from_int`). `None` for other pairs.
pub open spec fn spec_equals<F: EvalexprFloat>(a: VModel<F>, b: VModel<F>) -> Option<bool> {
    match (a, b) {
        (VModel::Str(x), VModel::Str(y)) => Some(x == y),
        (VModel::Int(x), VModel::Int(y)) => Some(x == y),
        (VModel::Boolean(x), VModel::Boolean(y)) => Some(x == y),
        (VModel::Float(_), VModel::Float(_)) => Some(float_of(a).spec_float_eq(float_of(b))),
        (VModel::Float(_), VModel::Int(_)) => Some(float_of(a).spec_float_eq(float_of(b))),
        (VModel::Int(_), VModel::Float(_)) => Some(float_of(a).spec_float_eq(float_of(b))),
        (VModel::Tuple(_), VModel::Tuple(_)) => Some(false),
        (VModel::Empty, VModel::Empty) => Some(true),
        (_, VModel::Empty) => Some(false),
        (VModel::Empty, _) => Some(false),
        _ => None,
    }
}

impl<F: EvalexprFloat> Value<F> {
    /// Whether this value equals another one: numbers by value (through the float type where a
    /// float takes part), strings and booleans by content; two tuples are never equal, two empty
    /// values always.
    pub fn equals(&self, other: &Value<F>) -> (r: bool)
        requires
            equality_defined(self@, other@),
        ensures
            spec_equals(self@, other@) matches Some(e) ==> r == e,
    {
        match (self, other) {
            (Value::String(a), Value::String(b)) => crate::text::str_equal(a.as_str(), b.as_str()),
            (Value::Float(a), Value::Float(b)) => a.float_eq(*b),
            (Value::Float(a), Value::Int(b)) => a.float_eq(F::from_int(*b)),
            (Value::Int(a), Value::Float(b)) => F::from_int(*a).float_eq(*b),
            (Value::Int(a), Value::Int(b)) => *a == *b,
            (Value::Boolean(a), Value::Boolean(b)) => *a == *b,
            (Value::Tuple(_), Value::Tuple(_)) => false,
            (Value::Empty, Value::Empty) => true,
            (_, Value::Empty) => false,
            (Value::Empty, _) => false,
            _ => false,
        }
    }
}

} // verus!
