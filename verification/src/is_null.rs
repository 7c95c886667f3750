//! Checks on values that hand out references to them.
use vstd::prelude::*;
use crate::numeric::EvalexprFloat;
use crate::value::{Value, VModel};
use crate::comparison::{value_greater, value_less, spec_greater, spec_less};
use crate::expression_functions::null_as_zero;

verus! {

/// The value, with the empty value replaced by the integer zero.
pub fn is_null<'a, F: EvalexprFloat>(value: &'a Value<F>) -> (r: &'a Value<F>)
    ensures
        r@ == null_as_zero(value@),
{
    match value {
        Value::Empty => &Value::Int(0),
        _ => value,
    }
}

/// The greater of two values (`value1` if it is greater than `value2`, else `value2`).
pub fn max<'a, F: EvalexprFloat>(value1: &'a Value<F>, value2: &'a Value<F>) -> (r: &'a Value<F>)
    ensures
        *r == *value1 || *r == *value2,
        spec_greater(value1@, value2@) matches Some(g) ==> *r == (if g { *value1 } else { *value2 }),
{
    if value_greater(value1, value2) { value1 } else { value2 }
}

/// The lesser of two values (`value1` if it is less than `value2`, else `value2`).
pub fn min<'a, F: EvalexprFloat>(value1: &'a Value<F>, value2: &'a Value<F>) -> (r: &'a Value<F>)
    ensures
        *r == *value1 || *r == *value2,
        spec_less(value1@, value2@) matches Some(l) ==> *r == (if l { *value1 } else { *value2 }),
{
    if value_less(value1, value2) { value1 } else { value2 }
}

} // verus!
