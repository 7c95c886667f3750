//! Arithmetic between values as the calculation templates use it: the empty value absorbs any
//! operand, integers stay integers, and a float on either side makes the result a float.
use vstd::prelude::*;
use crate::numeric::EvalexprFloat;
use crate::value::{Value, VModel, float_of};
use crate::ffi::{Error, ErrorModel};
use crate::text::{decimal_string, int_to_string, push_str};

verus! {

/// What an arithmetic operation on values gives: a value or an error.
pub ghost enum Outcome<F> {
    /// This value.
    Exact(VModel<F>),
    /// This error.
    Fails(ErrorModel),
}

/// Whether a result is the one that the outcome gives.
pub open spec fn outcome_holds<F>(o: Outcome<F>, r: Result<Value<F>, Error>) -> bool {
    match o {
        Outcome::Exact(v) => r matches Ok(x) && x@ == v,
        Outcome::Fails(e) => r matches Err(x) && x@ == e,
    }
}

/// Whether an integer fits in an `i64`.
pub open spec fn fits(i: int) -> bool {
    i64::MIN <= i <= i64::MAX
}

/// Whether a number is a float.
pub open spec fn is_float<F>(v: VModel<F>) -> bool {
    v is Float
}

/// Whether a value is a number.
pub open spec fn is_num<F>(v: VModel<F>) -> bool {
    v is Int || v is Float
}

/// `a + b`: strings are concatenated; an integer beside a string is written in decimal before it
/// (on either side); a float beside a string gives the float's text followed by the string.
pub open spec fn add_outcome<F: EvalexprFloat>(a: VModel<F>, b: VModel<F>) -> Outcome<F> {
    if a is Empty || b is Empty {
        Outcome::Exact(VModel::Empty)
    } else if a is Int && b is Int {
        Outcome::Exact(VModel::Int(a->Int_0 + b->Int_0))
    } else if is_num(a) && is_num(b) {
        Outcome::Exact(VModel::Float(float_of(a).spec_add(float_of(b))))
    } else if a is Str && b is Str {
        Outcome::Exact(VModel::Str(a->Str_0 + b->Str_0))
    } else if a is Int && b is Str {
        Outcome::Exact(VModel::Str(decimal_string(a->Int_0) + b->Str_0))
    } else if a is Str && b is Int {
        Outcome::Exact(VModel::Str(decimal_string(b->Int_0) + a->Str_0))
    } else if a is Float && b is Str {
        Outcome::Exact(VModel::Str(a->Float_0.spec_to_display_string() + b->Str_0))
    } else if a is Str && b is Float {
        Outcome::Exact(VModel::Str(b->Float_0.spec_to_display_string() + a->Str_0))
    } else {
        Outcome::Fails(ErrorModel::UnsupportedArithmeticBetweenTypes)
    }
}

/// `a - b`, `a * b`, `a % b` (by `op`: `-`, `*`, `%`) on numbers; the remainder of integers is
/// that of truncating division (as `i64::checked_rem` computes it).
pub open spec fn numeric_outcome<F: EvalexprFloat>(op: char, a: VModel<F>, b: VModel<F>) -> Outcome<F> {
    if a is Empty || b is Empty {
        Outcome::Exact(VModel::Empty)
    } else if a is Int && b is Int {
        Outcome::Exact(VModel::Int(
            if op == '-' { a->Int_0 - b->Int_0 }
            else if op == '*' { a->Int_0 * b->Int_0 }
            else { (a->Int_0 as i64).checked_rem(b->Int_0 as i64).unwrap() as int },
        ))
    } else if is_num(a) && is_num(b) {
        let (x, y) = (float_of(a), float_of(b));
        Outcome::Exact(VModel::Float(
            if op == '-' { x.spec_sub(y) }
            else if op == '*' { if a is Float && b is Int { y.spec_mul(x) } else { x.spec_mul(y) } }
            else { x.spec_rem(y) },
        ))
    } else {
        Outcome::Fails(ErrorModel::UnsupportedArithmeticBetweenTypes)
    }
}

/// `a / b`: division by an integer zero fails; integers divide with truncation (as `i64::checked_div`
/// does).
pub open spec fn div_outcome<F: EvalexprFloat>(a: VModel<F>, b: VModel<F>) -> Outcome<F> {
    if a is Empty || b is Empty {
        Outcome::Exact(VModel::Empty)
    } else if is_num(a) && b == VModel::<F>::Int(0) {
        Outcome::Fails(ErrorModel::DivisionByZero)
    } else if a is Int && b is Int {
        Outcome::Exact(VModel::Int((a->Int_0 as i64).checked_div(b->Int_0 as i64).unwrap() as int))
    } else if a is Float && b is Int {
        Outcome::Exact(VModel::Float(float_of(a).spec_div(float_of(b))))
    } else if is_num(a) && b is Float {
        if b->Float_0.spec_float_eq(F::spec_from_int(0)) {
            Outcome::Fails(ErrorModel::DivisionByZero)
        } else {
            Outcome::Exact(VModel::Float(float_of(a).spec_div(float_of(b))))
        }
    } else {
        Outcome::Fails(ErrorModel::UnsupportedArithmeticBetweenTypes)
    }
}

/// `-a`.
pub open spec fn neg_outcome<F: EvalexprFloat>(a: VModel<F>) -> Outcome<F> {
    match a {
        VModel::Empty => Outcome::Exact(VModel::Empty),
        VModel::Int(i) => Outcome::Exact(VModel::Int(-i)),
        VModel::Float(f) => Outcome::Exact(VModel::Float(f.spec_neg())),
        _ => Outcome::Fails(ErrorModel::UnsupportedArithmeticBetweenTypes),
    }
}

/// Whether the integer operation that `op` (`+`, `-`, `*`, `/`, `%`) does on two integers stays
/// within `i64` and does not divide by zero where that panics (`%` by zero; `/` by zero is an
/// error). Other operands always qualify.
pub open spec fn int_op_defined<F>(op: char, a: VModel<F>, b: VModel<F>) -> bool {
    (a is Int && b is Int) ==> {
        let x = a->Int_0;
        let y = b->Int_0;
        if op == '+' { fits(x + y) }
        else if op == '-' { fits(x - y) }
        else if op == '*' { fits(x * y) }
        else if op == '/' { !(x == i64::MIN && y == -1) }
        else { y != 0 && !(x == i64::MIN && y == -1) }
    }
}

/// The quotient of two natural numbers is at most the dividend, and at most half of it where the
/// divisor is at least 2.
proof fn lemma_quotient_bound(x: int, d: int)
    requires
        x >= 0,
        d >= 1,
    ensures
        0 <= x / d <= x,
        d >= 2 ==> x / d <= x / 2,
{
    assert(0 <= x / d <= x) by (nonlinear_arith)
        requires x >= 0, d >= 1;
    if d >= 2 {
        assert(x / d <= x / 2) by (nonlinear_arith)
            requires x >= 0, d >= 2;
    }
}

/// Integer division that neither divides by zero nor divides `i64::MIN` by `-1` stays in `i64`.
pub proof fn lemma_checked_div_defined(x: i64, y: i64)
    requires
        y != 0,
        !(x == i64::MIN && y == -1),
    ensures
        x.checked_div(y) is Some,
{
    let a: int = if x < 0 { -(x as int) } else { x as int };
    let b: int = if y < 0 { -(y as int) } else { y as int };
    lemma_quotient_bound(a, b);
}

impl<F: EvalexprFloat> Value<F> {
    /// `self + other`: the empty value absorbs the other operand; integers add as integers;
    /// a float on either side gives a float; strings concatenate; an integer or a float beside a
    /// string is written before it, on either side. Anything else is
    /// `UnsupportedArithmeticBetweenTypes`.
    pub fn add_value(&self, other: &Value<F>) -> (r: Result<Value<F>, Error>)
        requires
            int_op_defined('+', self@, other@),
        ensures
            outcome_holds(add_outcome(self@, other@), r),
    {
        match (self, other) {
            (Value::Empty, _) => Ok(Value::Empty),
            (_, Value::Empty) => Ok(Value::Empty),
            (Value::Int(a), Value::Int(b)) => Ok(Value::Int(a + b)),
            (Value::Float(a), Value::Int(b)) => Ok(Value::Float(a.add(F::from_int(*b)))),
            (Value::Float(a), Value::Float(b)) => Ok(Value::Float(a.add(*b))),
            (Value::Int(a), Value::Float(b)) => Ok(Value::Float(F::from_int(*a).add(*b))),
            (Value::String(a), Value::String(b)) => {
                let mut s = a.clone();
                push_str(&mut s, b.as_str());
                Ok(Value::String(s))
            },
            (Value::Int(a), Value::String(b)) | (Value::String(b), Value::Int(a)) => {
                let mut s = int_to_string(*a);
                push_str(&mut s, b.as_str());
                Ok(Value::String(s))
            },
            (Value::Float(a), Value::String(b)) | (Value::String(b), Value::Float(a)) => {
                let mut s = a.to_display_string();
                let ghost front = s@;
                push_str(&mut s, b.as_str());
                proof {
                    assert(s@.subrange(s@.len() - b@.len(), s@.len() as int) =~= b@);
                }
                Ok(Value::String(s))
            },
            _ => Err(Error::UnsupportedArithmeticBetweenTypes),
        }
    }

    /// `self - other`: the empty value absorbs the other operand; integers subtract as integers;
    /// a float on either side gives a float. Anything else is `UnsupportedArithmeticBetweenTypes`.
    pub fn sub_value(&self, other: &Value<F>) -> (r: Result<Value<F>, Error>)
        requires
            int_op_defined('-', self@, other@),
        ensures
            outcome_holds(numeric_outcome('-', self@, other@), r),
    {
        match (self, other) {
            (Value::Empty, _) => Ok(Value::Empty),
            (_, Value::Empty) => Ok(Value::Empty),
            (Value::Int(a), Value::Int(b)) => Ok(Value::Int(a - b)),
            (Value::Float(a), Value::Float(b)) => Ok(Value::Float(a.sub(*b))),
            (Value::Int(a), Value::Float(b)) => Ok(Value::Float(F::from_int(*a).sub(*b))),
            (Value::Float(a), Value::Int(b)) => Ok(Value::Float(a.sub(F::from_int(*b)))),
            _ => Err(Error::UnsupportedArithmeticBetweenTypes),
        }
    }

    /// `self * other`: the empty value absorbs the other operand; integers multiply as integers;
    /// a float on either side gives a float. Anything else is `UnsupportedArithmeticBetweenTypes`.
    pub fn mul_value(&self, other: &Value<F>) -> (r: Result<Value<F>, Error>)
        requires
            int_op_defined('*', self@, other@),
        ensures
            outcome_holds(numeric_outcome('*', self@, other@), r),
    {
        match (self, other) {
            (Value::Empty, _) => Ok(Value::Empty),
            (_, Value::Empty) => Ok(Value::Empty),
            (Value::Int(a), Value::Int(b)) => Ok(Value::Int(a * b)),
            (Value::Float(a), Value::Float(b)) => Ok(Value::Float(a.mul(*b))),
            (Value::Int(a), Value::Float(b)) | (Value::Float(b), Value::Int(a)) => Ok(Value::Float(F::from_int(*a).mul(*b))),
            _ => Err(Error::UnsupportedArithmeticBetweenTypes),
        }
    }

    /// `self / other`: the empty value absorbs the other operand; a zero divisor is
    /// `DivisionByZero`; integers divide with truncation; a float on either side gives a float.
    /// Anything else is `UnsupportedArithmeticBetweenTypes`.
    pub fn div_value(&self, other: &Value<F>) -> (r: Result<Value<F>, Error>)
        requires
            int_op_defined('/', self@, other@),
        ensures
            outcome_holds(div_outcome(self@, other@), r),
    {
        match (self, other) {
            (Value::Empty, _) => Ok(Value::Empty),
            (_, Value::Empty) => Ok(Value::Empty),
            (Value::Int(a), Value::Int(b)) => {
                if *b == 0 {
                    Err(Error::DivisionByZero)
                } else {
                    proof {
                        lemma_checked_div_defined(*a, *b);
                    }
                    match a.checked_div(*b) {
                        Some(q) => Ok(Value::Int(q)),
                        None => Err(Error::DivisionByZero),
                    }
                }
            },
            (Value::Float(a), Value::Float(b)) => {
                if b.float_eq(F::from_int(0)) {
                    Err(Error::DivisionByZero)
                } else {
                    Ok(Value::Float(a.div(*b)))
                }
            },
            (Value::Int(a), Value::Float(b)) => {
                if b.float_eq(F::from_int(0)) {
                    Err(Error::DivisionByZero)
                } else {
                    Ok(Value::Float(F::from_int(*a).div(*b)))
                }
            },
            (Value::Float(a), Value::Int(b)) => {
                if *b == 0 {
                    Err(Error::DivisionByZero)
                } else {
                    Ok(Value::Float(a.div(F::from_int(*b))))
                }
            },
            _ => Err(Error::UnsupportedArithmeticBetweenTypes),
        }
    }

    /// `self % other`: the empty value absorbs the other operand; integers take the remainder of
    /// truncating division; a float on either side gives a float. Anything else is
    /// `UnsupportedArithmeticBetweenTypes`.
    pub fn rem_value(&self, other: &Value<F>) -> (r: Result<Value<F>, Error>)
        requires
            int_op_defined('%', self@, other@),
        ensures
            outcome_holds(numeric_outcome('%', self@, other@), r),
    {
        match (self, other) {
            (Value::Empty, _) => Ok(Value::Empty),
            (_, Value::Empty) => Ok(Value::Empty),
            (Value::Int(a), Value::Int(b)) => match a.checked_rem(*b) {
                Some(m) => Ok(Value::Int(m)),
                None => Err(Error::DivisionByZero),
            },
            (Value::Float(a), Value::Float(b)) => Ok(Value::Float(a.rem(*b))),
            (Value::Int(a), Value::Float(b)) => Ok(Value::Float(F::from_int(*a).rem(*b))),
            (Value::Float(a), Value::Int(b)) => Ok(Value::Float(a.rem(F::from_int(*b)))),
            _ => Err(Error::UnsupportedArithmeticBetweenTypes),
        }
    }

    /// `-self`: the empty value stays empty; numbers are negated. Anything else is
    /// `UnsupportedArithmeticBetweenTypes`.
    pub fn neg_value(&self) -> (r: Result<Value<F>, Error>)
        requires
            self@ matches VModel::Int(i) ==> i != i64::MIN,
        ensures
            outcome_holds(neg_outcome(self@), r),
    {
        match self {
            Value::Empty => Ok(Value::Empty),
            Value::Int(a) => Ok(Value::Int(-*a)),
            Value::Float(a) => Ok(Value::Float(a.neg())),
            _ => Err(Error::UnsupportedArithmeticBetweenTypes),
        }
    }
}

} // verus!
