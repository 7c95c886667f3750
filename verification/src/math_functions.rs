//! Mathematical functions on values: power, square root and arctangent.
use vstd::prelude::*;
use crate::numeric::EvalexprFloat;
use crate::value::{Value, VModel};
use crate::ffi::{Error, ErrorModel};
use crate::arithmetic::{Outcome, outcome_holds, fits};

verus! {

/// `b` to the power of `e`.
pub open spec fn int_pow(b: int, e: nat) -> int
    decreases e,
{
    if e == 0 { 1 } else { b * int_pow(b, (e - 1) as nat) }
}

/// The magnitude of an integer.
pub open spec fn magnitude(i: int) -> int {
    if i < 0 { -i } else { i }
}

/// A lower power has no greater magnitude than a higher one, unless it is at most 1 in magnitude.
proof fn lemma_pow_magnitude(b: int, k: nat, e: nat)
    requires
        k <= e,
    ensures
        magnitude(int_pow(b, k)) <= magnitude(int_pow(b, e)) || magnitude(int_pow(b, k)) <= 1,
    decreases e,
{
    if k < e {
        lemma_pow_magnitude(b, k, (e - 1) as nat);
        let p = int_pow(b, (e - 1) as nat);
        assert(int_pow(b, e) == b * p);
        if b == 0 {
            if k > 0 {
                assert(int_pow(b, k) == b * int_pow(b, (k - 1) as nat));
            }
        } else {
            assert(magnitude(b * p) >= magnitude(p)) by (nonlinear_arith)
                requires b != 0;
        }
    }
}

/// A power of `b` below one that fits in an `i64` fits too.
proof fn lemma_lower_power_fits(b: int, k: nat, e: nat)
    requires
        k <= e,
        fits(int_pow(b, e)),
    ensures
        fits(int_pow(b, k)),
{
    if k < e {
        let q = int_pow(b, (e - 1) as nat);
        let x = int_pow(b, k);
        lemma_pow_magnitude(b, k, (e - 1) as nat);
        assert(int_pow(b, e) == b * q);
        if b == 0 || b == 1 || b == -1 {
            assert(magnitude(x) <= 1) by {
                lemma_unit_power(b, k);
            }
        } else {
            assert(magnitude(b * q) >= 2 * magnitude(q)) by (nonlinear_arith)
                requires b >= 2 || b <= -2;
        }
    }
}

/// The powers of 0, 1 and -1 are at most 1 in magnitude.
proof fn lemma_unit_power(b: int, k: nat)
    requires
        b == 0 || b == 1 || b == -1,
    ensures
        magnitude(int_pow(b, k)) <= 1,
    decreases k,
{
    if k > 0 {
        lemma_unit_power(b, (k - 1) as nat);
    }
}

/// The exponent that `i64::pow` is given for the integer `e`: `e` as a `u32`, wrapped.
pub open spec fn wrapped_exponent(e: int) -> nat {
    (e as u32) as nat
}

/// `base ^ exp`: integers raise to an integer power (the exponent taken as a `u32`); a float on
/// either side gives a float; anything else is an `InvalidArgumentType`.
pub open spec fn pow_outcome<F: EvalexprFloat>(base: VModel<F>, exp: VModel<F>) -> Outcome<F> {
    match (base, exp) {
        (VModel::Int(b), VModel::Int(e)) => Outcome::Exact(VModel::Int(int_pow(b, wrapped_exponent(e)))),
        (VModel::Float(b), VModel::Float(e)) => Outcome::Exact(VModel::Float(b.spec_pow(e))),
        (VModel::Float(b), VModel::Int(e)) => Outcome::Exact(VModel::Float(b.spec_powi(e as i32))),
        (VModel::Int(b), VModel::Float(e)) => Outcome::Exact(VModel::Float(F::spec_from_int(b as i64).spec_pow(e))),
        _ => Outcome::Fails(ErrorModel::InvalidArgumentType),
    }
}

/// `b` to the power of `e` for integers whose power fits in an `i64`.
fn int_power(b: i64, e: u32) -> (r: i64)
    requires
        fits(int_pow(b as int, e as nat)),
    ensures
        r as int == int_pow(b as int, e as nat),
{
    let mut result: i64 = 1;
    let mut k: u32 = 0;
    while k < e
        invariant
            k <= e,
            result as int == int_pow(b as int, k as nat),
            fits(int_pow(b as int, e as nat)),
        decreases e - k,
    {
        proof {
            lemma_lower_power_fits(b as int, (k + 1) as nat, e as nat);
            assert(int_pow(b as int, (k + 1) as nat) == b * int_pow(b as int, k as nat));
        }
        result = result * b;
        k += 1;
    }
    result
}

/// Raises `base` to the power `exp`: integers to an integer power (the exponent taken as a `u32`),
/// a float on either side to a float.
pub fn pow<F: EvalexprFloat>(base: Value<F>, exp: Value<F>) -> (r: Result<Value<F>, Error>)
    requires
        (base@ is Int && exp@ is Int) ==> fits(int_pow(base@->Int_0, wrapped_exponent(exp@->Int_0))),
    ensures
        outcome_holds(pow_outcome(base@, exp@), r),
{
    match (base, exp) {
        (Value::Float(bf), Value::Float(ef)) => Ok(Value::Float(bf.pow(ef))),
        (Value::Int(bi), Value::Int(ei)) => Ok(Value::Int(int_power(bi, ei as u32))),
        (Value::Float(bf), Value::Int(ei)) => Ok(Value::Float(bf.powi(ei as i32))),
        (Value::Int(bi), Value::Float(ef)) => Ok(Value::Float(F::from_int(bi).pow(ef))),
        _ => Err(Error::InvalidArgumentType),
    }
}

/// The square root of a value: of a number that is not negative, a float; the empty value stays
/// empty; a negative number, or anything else, is an `InvalidArgumentType`.
pub open spec fn sqrt_outcome<F: EvalexprFloat>(v: VModel<F>) -> Outcome<F> {
    match v {
        VModel::Float(f) => if f.spec_float_lt(F::spec_from_int(0)) {
            Outcome::Fails(ErrorModel::InvalidArgumentType)
        } else {
            Outcome::Exact(VModel::Float(f.spec_sqrt()))
        },
        VModel::Int(n) => if n < 0 {
            Outcome::Fails(ErrorModel::InvalidArgumentType)
        } else {
            Outcome::Exact(VModel::Float(F::spec_from_int(n as i64).spec_sqrt()))
        },
        VModel::Empty => Outcome::Exact(VModel::Empty),
        _ => Outcome::Fails(ErrorModel::InvalidArgumentType),
    }
}

/// The square root of a number that is not negative; the empty value stays empty.
pub fn sqrt<F: EvalexprFloat>(value: Value<F>) -> (r: Result<Value<F>, Error>)
    ensures
        outcome_holds(sqrt_outcome(value@), r),
{
    match value {
        Value::Float(fl) => {
            if fl.float_lt(F::from_int(0)) {
                Err(Error::InvalidArgumentType)
            } else {
                Ok(Value::Float(fl.sqrt()))
            }
        },
        Value::Int(nn) => {
            if nn < 0 {
                Err(Error::InvalidArgumentType)
            } else {
                Ok(Value::Float(F::from_int(nn).sqrt()))
            }
        },
        Value::Empty => Ok(Value::Empty),
        _ => Err(Error::InvalidArgumentType),
    }
}

/// The message of the error for a value that has no arctangent.
pub open spec fn atan_argument_message() -> Seq<char> {
    "Invalid argument type passed to atan function"@
}

/// The arctangent of a value: of a number, a float; the empty value stays empty; anything else is
/// a custom error.
pub open spec fn atan_outcome<F: EvalexprFloat>(v: VModel<F>) -> Outcome<F> {
    match v {
        VModel::Float(f) => Outcome::Exact(VModel::Float(f.spec_atan())),
        VModel::Int(n) => Outcome::Exact(VModel::Float(F::spec_from_int(n as i64).spec_atan())),
        VModel::Empty => Outcome::Exact(VModel::Empty),
        _ => Outcome::Fails(ErrorModel::CustomError(atan_argument_message())),
    }
}

/// The arctangent of a number; the empty value stays empty.
pub fn atan<F: EvalexprFloat>(value: Value<F>) -> (r: Result<Value<F>, Error>)
    ensures
        outcome_holds(atan_outcome(value@), r),
{
    match value {
        Value::Float(fl) => Ok(Value::Float(fl.atan())),
        Value::Int(nn) => Ok(Value::Float(F::from_int(nn).atan())),
        Value::Empty => Ok(Value::Empty),
        _ => Err(Error::CustomError("Invalid argument type passed to atan function".to_owned())),
    }
}

} // verus!
