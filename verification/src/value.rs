use vstd::prelude::*;
use crate::numeric::EvalexprFloat;
use crate::error::{EvalexprError, EvalexprResult, EModel};
use crate::text::{decimal_string, int_to_string, push_char, push_str, string_of_chars};


verus! {

/// The type used to represent integers in `Value::Int`.
pub type IntType = i64;

/// The value type used by the parser.
/// Values can be of different subtypes that are the variants of this enum.
#[derive(Debug, PartialEq)]
pub enum Value<F> {
    /// A string value.
    String(String),
    /// A float value.
    Float(F),
    /// An integer value.
    Int(IntType),
    /// A boolean value.
    Boolean(bool),
    /// A tuple value.
    Tuple(Vec<Value<F>>),
    /// An empty value.
    Empty,
}

/// The mathematical model of a `Value`: strings are character sequences
/// and tuples are sequences of models.
pub ghost enum VModel<F> {
    Str(Seq<char>),
    Float(F),
    Int(int),
    Boolean(bool),
    Tuple(Seq<VModel<F>>),
    Empty,
}

pub open spec fn model_of<F>(v: Value<F>) -> VModel<F>
    decreases v, 0nat,
{
    match v {
        Value::String(s) => VModel::Str(s@),
        Value::Float(f) => VModel::Float(f),
        Value::Int(i) => VModel::Int(i as int),
        Value::Boolean(b) => VModel::Boolean(b),
        Value::Tuple(t) => VModel::Tuple(models_of(t@)),
        Value::Empty => VModel::Empty,
    }
}

pub open spec fn models_of<F>(s: Seq<Value<F>>) -> Seq<VModel<F>>
    decreases s, 1nat,
{
    if s.len() == 0 {
        Seq::empty()
    } else {
        models_of(s.drop_last()).push(model_of(s.last()))
    }
}

/// The models of a sequence of values are the values' models, one for one.
pub proof fn lemma_models_of<F>(s: Seq<Value<F>>)
    ensures
        models_of(s).len() == s.len(),
        forall|i: int| 0 <= i < s.len() ==> #[trigger] models_of(s)[i] == s[i]@,
    decreases s.len(),
{
    if s.len() > 0 {
        lemma_models_of(s.drop_last());
        assert forall|i: int| 0 <= i < s.len() implies #[trigger] models_of(s)[i] == s[i]@ by {
            if i < s.len() - 1 {
                assert(s.drop_last()[i] == s[i]);
            }
        }
    }
}

/// Whether a value holds a float somewhere (itself or inside a tuple).
pub open spec fn has_float<F>(v: VModel<F>) -> bool
    decreases v, 0nat,
{
    match v {
        VModel::Float(_) => true,
        VModel::Tuple(s) => seq_has_float(s),
        _ => false,
    }
}

/// Whether one of the values holds a float.
pub open spec fn seq_has_float<F>(s: Seq<VModel<F>>) -> bool
    decreases s, 1nat,
{
    if s.len() == 0 {
        false
    } else {
        seq_has_float(s.drop_last()) || has_float(s.last())
    }
}

pub proof fn lemma_seq_has_float<F>(s: Seq<VModel<F>>)
    ensures
        seq_has_float(s) <==> exists|i: int| 0 <= i < s.len() && #[trigger] has_float(s[i]),
    decreases s.len(),
{
    if s.len() > 0 {
        let t = s.drop_last();
        lemma_seq_has_float(t);
        assert forall|i: int| 0 <= i < t.len() implies #[trigger] t[i] == s[i] by {}
        if has_float(s.last()) {
            assert(has_float(s[s.len() - 1]));
        }
        if exists|i: int| 0 <= i < s.len() && #[trigger] has_float(s[i]) {
            let i = choose|i: int| 0 <= i < s.len() && #[trigger] has_float(s[i]);
            if i < s.len() - 1 {
                assert(has_float(t[i]));
            }
        }
        if seq_has_float(t) {
            let i = choose|i: int| 0 <= i < t.len() && #[trigger] has_float(t[i]);
            assert(has_float(s[i]));
        }
    }
}

impl<F> View for Value<F> {
    type V = VModel<F>;

    open spec fn view(&self) -> VModel<F> {
        model_of(*self)
    }
}

impl<F: Copy> Value<F> {
    /// Duplicates the value.
    pub fn copy_value(&self) -> (r: Value<F>)
        ensures
            r@ == self@,
        decreases self,
    {
        match self {
            Value::String(s) => Value::String(s.clone()),
            Value::Float(f) => Value::Float(*f),
            Value::Int(i) => Value::Int(*i),
            Value::Boolean(b) => Value::Boolean(*b),
            Value::Tuple(t) => Value::Tuple(copy_values(t)),
            Value::Empty => Value::Empty,
        }
    }
}

/// Duplicates a vector of values.
pub fn copy_values<F: Copy>(values: &Vec<Value<F>>) -> (r: Vec<Value<F>>)
    ensures
        models_of(r@) == models_of(values@),
        r@.len() == values@.len(),
    decreases values,
{
    let mut result: Vec<Value<F>> = Vec::new();
    let mut i: usize = 0;
    while i < values.len()
        invariant
            i <= values@.len(),
            result@.len() == i,
            models_of(result@) == models_of(values@.subrange(0, i as int)),
        decreases values@.len() - i,
    {
        let v = values[i].copy_value();
        let ghost before = result@;
        result.push(v);
        proof {
            assert(result@.drop_last() == before);
            assert(values@.subrange(0, i + 1).drop_last() == values@.subrange(0, i as int));
        }
        i += 1;
    }
    assert(values@.subrange(0, values@.len() as int) == values@);
    result
}

impl<F: Copy> Clone for Value<F> {
    fn clone(&self) -> (r: Self)
        ensures
            r@ == self@,
    {
        self.copy_value()
    }
}

/// The type of a `Value`.
#[derive(Clone, Copy, Eq, PartialEq, Debug, Structural)]
pub enum ValueType {
    /// The `Value::String` type.
    String,
    /// The `Value::Float` type.
    Float,
    /// The `Value::Int` type.
    Int,
    /// The `Value::Boolean` type.
    Boolean,
    /// The `Value::Tuple` type.
    Tuple,
    /// The `Value::Empty` type.
    Empty,
}

/// The type of a value.
pub open spec fn value_type_of<F>(v: Value<F>) -> ValueType {
    match v {
        Value::String(_) => ValueType::String,
        Value::Float(_) => ValueType::Float,
        Value::Int(_) => ValueType::Int,
        Value::Boolean(_) => ValueType::Boolean,
        Value::Tuple(_) => ValueType::Tuple,
        Value::Empty => ValueType::Empty,
    }
}

/// The type of a value model.
pub open spec fn model_type<F>(v: VModel<F>) -> ValueType {
    match v {
        VModel::Str(_) => ValueType::String,
        VModel::Float(_) => ValueType::Float,
        VModel::Int(_) => ValueType::Int,
        VModel::Boolean(_) => ValueType::Boolean,
        VModel::Tuple(_) => ValueType::Tuple,
        VModel::Empty => ValueType::Empty,
    }
}

impl ValueType {
    /// The type of the given value.
    pub fn from_value<F>(value: &Value<F>) -> (r: ValueType)
        ensures
            r == value_type_of(*value),
            r == model_type(value@),
    {
        match value {
            Value::String(_) => ValueType::String,
            Value::Float(_) => ValueType::Float,
            Value::Int(_) => ValueType::Int,
            Value::Boolean(_) => ValueType::Boolean,
            Value::Tuple(_) => ValueType::Tuple,
            Value::Empty => ValueType::Empty,
        }
    }
}

impl<F: EvalexprFloat> Value<F> {
    /// Returns true if `self` is a `Value::String`.
    pub fn is_string(&self) -> (r: bool)
        ensures
            r == (*self is String),
    {
        matches!(self, Value::String(_))
    }

    /// Returns true if `self` is a `Value::Int`.
    pub fn is_int(&self) -> (r: bool)
        ensures
            r == (*self is Int),
    {
        matches!(self, Value::Int(_))
    }

    /// Returns true if `self` is a `Value::Float`.
    pub fn is_float(&self) -> (r: bool)
        ensures
            r == (*self is Float),
    {
        matches!(self, Value::Float(_))
    }

    /// Returns true if `self` is a `Value::Int` or `Value::Float`.
    pub fn is_number(&self) -> (r: bool)
        ensures
            r == (*self is Int || *self is Float),
    {
        matches!(self, Value::Int(_) | Value::Float(_))
    }

    /// Returns true if `self` is a `Value::Boolean`.
    pub fn is_boolean(&self) -> (r: bool)
        ensures
            r == (*self is Boolean),
    {
        matches!(self, Value::Boolean(_))
    }

    /// Returns true if `self` is a `Value::Tuple`.
    pub fn is_tuple(&self) -> (r: bool)
        ensures
            r == (*self is Tuple),
    {
        matches!(self, Value::Tuple(_))
    }

    /// Returns true if `self` is a `Value::Empty`.
    pub fn is_empty(&self) -> (r: bool)
        ensures
            r == (*self is Empty),
    {
        matches!(self, Value::Empty)
    }

    /// Clones the value stored in `self` as `String`, or returns `Err` if `self` is not a `Value::String`.
    pub fn as_string(&self) -> (r: EvalexprResult<String, F>)
        ensures
            match *self {
                Value::String(s) => r matches Ok(x) && x@ == s@,
                _ => r matches Err(e) && e@ == EModel::<F>::ExpectedString { actual: self@ },
            },
    {
        match self {
            Value::String(string) => Ok(string.clone()),
            value => Err(EvalexprError::expected_string(value.copy_value())),
        }
    }

    /// Clones the value stored in `self` as `String`, `None` for `Value::Empty`, or returns `Err` otherwise.
    pub fn as_string_or_none(&self) -> (r: EvalexprResult<Option<String>, F>)
        ensures
            match *self {
                Value::String(s) => r matches Ok(Some(x)) && x@ == s@,
                Value::Empty => r == Ok::<Option<String>, EvalexprError<F>>(None),
                _ => r matches Err(e) && e@ == EModel::<F>::ExpectedString { actual: self@ },
            },
    {
        match self {
            Value::String(string) => Ok(Some(string.clone())),
            Value::Empty => Ok(None),
            value => Err(EvalexprError::expected_string(value.copy_value())),
        }
    }

    /// Returns the value stored in `self` as `IntType`, or returns `Err` if `self` is not a `Value::Int`.
    pub fn as_int(&self) -> (r: EvalexprResult<IntType, F>)
        ensures
            match *self {
                Value::Int(i) => r == Ok::<IntType, EvalexprError<F>>(i),
                _ => r matches Err(e) && e@ == EModel::<F>::ExpectedInt { actual: self@ },
            },
    {
        match self {
            Value::Int(i) => Ok(*i),
            value => Err(EvalexprError::expected_int(value.copy_value())),
        }
    }

    /// Returns the value stored in `self` as `IntType`, `None` for `Value::Empty`, or returns `Err` otherwise.
    pub fn as_int_or_none(&self) -> (r: EvalexprResult<Option<IntType>, F>)
        ensures
            match *self {
                Value::Int(i) => r == Ok::<Option<IntType>, EvalexprError<F>>(Some(i)),
                Value::Empty => r == Ok::<Option<IntType>, EvalexprError<F>>(None),
                _ => r matches Err(e) && e@ == EModel::<F>::ExpectedInt { actual: self@ },
            },
    {
        match self {
            Value::Int(i) => Ok(Some(*i)),
            Value::Empty => Ok(None),
            value => Err(EvalexprError::expected_int(value.copy_value())),
        }
    }

    /// Returns the value stored in `self` as a float; an integer is converted to a float.
    /// Returns `Err` if `self` is neither a `Value::Float` nor a `Value::Int`.
    pub fn as_float(&self) -> (r: EvalexprResult<F, F>)
        ensures
            match *self {
                Value::Float(f) => r == Ok::<F, EvalexprError<F>>(f),
                Value::Int(i) => r == Ok::<F, EvalexprError<F>>(F::spec_from_int(i)),
                _ => r matches Err(e) && e@ == EModel::<F>::ExpectedFloat { actual: self@ },
            },
    {
        match self {
            Value::Float(f) => Ok(*f),
            Value::Int(i) => Ok(F::from_int(*i)),
            value => Err(EvalexprError::expected_float(value.copy_value())),
        }
    }

    /// Like `as_float`, but returns `None` for `Value::Empty`.
    pub fn as_float_or_none(&self) -> (r: EvalexprResult<Option<F>, F>)
        ensures
            match *self {
                Value::Float(f) => r == Ok::<Option<F>, EvalexprError<F>>(Some(f)),
                Value::Int(i) => r == Ok::<Option<F>, EvalexprError<F>>(Some(F::spec_from_int(i))),
                Value::Empty => r == Ok::<Option<F>, EvalexprError<F>>(None),
                _ => r matches Err(e) && e@ == EModel::<F>::ExpectedFloat { actual: self@ },
            },
    {
        match self {
            Value::Float(f) => Ok(Some(*f)),
            Value::Int(i) => Ok(Some(F::from_int(*i))),
            Value::Empty => Ok(None),
            value => Err(EvalexprError::expected_float(value.copy_value())),
        }
    }

    /// Returns the value stored in `self` as a float, converting an integer,
    /// or returns `Err` if `self` is not a `Value::Float` or `Value::Int`.
    pub fn as_number(&self) -> (r: EvalexprResult<F, F>)
        ensures
            match *self {
                Value::Float(f) => r == Ok::<F, EvalexprError<F>>(f),
                Value::Int(i) => r == Ok::<F, EvalexprError<F>>(F::spec_from_int(i)),
                _ => r matches Err(e) && e@ == EModel::<F>::ExpectedNumber { actual: self@ },
            },
    {
        match self {
            Value::Float(f) => Ok(*f),
            Value::Int(i) => Ok(F::from_int(*i)),
            value => Err(EvalexprError::expected_number(value.copy_value())),
        }
    }

    /// Like `as_number`, but returns `None` for `Value::Empty`.
    pub fn as_number_or_none(&self) -> (r: EvalexprResult<Option<F>, F>)
        ensures
            match *self {
                Value::Float(f) => r == Ok::<Option<F>, EvalexprError<F>>(Some(f)),
                Value::Int(i) => r == Ok::<Option<F>, EvalexprError<F>>(Some(F::spec_from_int(i))),
                Value::Empty => r == Ok::<Option<F>, EvalexprError<F>>(None),
                _ => r matches Err(e) && e@ == EModel::<F>::ExpectedNumber { actual: self@ },
            },
    {
        match self {
            Value::Float(f) => Ok(Some(*f)),
            Value::Int(i) => Ok(Some(F::from_int(*i))),
            Value::Empty => Ok(None),
            value => Err(EvalexprError::expected_number(value.copy_value())),
        }
    }

    /// Returns the value stored in `self` as `bool`, or returns `Err` if `self` is not a `Value::Boolean`.
    pub fn as_boolean(&self) -> (r: EvalexprResult<bool, F>)
        ensures
            match *self {
                Value::Boolean(b) => r == Ok::<bool, EvalexprError<F>>(b),
                _ => r matches Err(e) && e@ == EModel::<F>::ExpectedBoolean { actual: self@ },
            },
    {
        match self {
            Value::Boolean(boolean) => Ok(*boolean),
            value => Err(EvalexprError::expected_boolean(value.copy_value())),
        }
    }

    /// Like `as_boolean`, but returns `None` for `Value::Empty`.
    pub fn as_boolean_or_none(&self) -> (r: EvalexprResult<Option<bool>, F>)
        ensures
            match *self {
                Value::Boolean(b) => r == Ok::<Option<bool>, EvalexprError<F>>(Some(b)),
                Value::Empty => r == Ok::<Option<bool>, EvalexprError<F>>(None),
                _ => r matches Err(e) && e@ == EModel::<F>::ExpectedBoolean { actual: self@ },
            },
    {
        match self {
            Value::Boolean(boolean) => Ok(Some(*boolean)),
            Value::Empty => Ok(None),
            value => Err(EvalexprError::expected_boolean(value.copy_value())),
        }
    }

    /// Clones the value stored in `self` as a tuple, or returns `Err` if `self` is not a `Value::Tuple`.
    pub fn as_tuple(&self) -> (r: EvalexprResult<Vec<Value<F>>, F>)
        ensures
            match *self {
                Value::Tuple(t) => r matches Ok(x) && models_of(x@) == models_of(t@),
                _ => r matches Err(e) && e@ == EModel::<F>::ExpectedTuple { actual: self@ },
            },
    {
        match self {
            Value::Tuple(tuple) => Ok(copy_values(tuple)),
            value => Err(EvalexprError::expected_tuple(value.copy_value())),
        }
    }

    /// Clones the value stored in `self` as a tuple, or returns `Err` if `self` is not a `Value::Tuple` of the required length.
    pub fn as_fixed_len_tuple(&self, len: usize) -> (r: EvalexprResult<Vec<Value<F>>, F>)
        ensures
            match *self {
                Value::Tuple(t) => if t@.len() == len {
                    r matches Ok(x) && models_of(x@) == models_of(t@) && x@.len() == len
                } else {
                    r matches Err(e) && e@ == EModel::<F>::ExpectedFixedLengthTuple { expected_length: len as nat, actual: self@ }
                },
                _ => r matches Err(e) && e@ == EModel::<F>::ExpectedTuple { actual: self@ },
            },
    {
        match self {
            Value::Tuple(tuple) => {
                if tuple.len() == len {
                    Ok(copy_values(tuple))
                } else {
                    Err(EvalexprError::expected_fixed_len_tuple(len, self.copy_value()))
                }
            },
            value => Err(EvalexprError::expected_tuple(value.copy_value())),
        }
    }

    /// Clones the value stored in `self` as a tuple, or returns `Err` if `self` is not a `Value::Tuple`
    /// whose length lies in `min..=max`.
    pub fn as_ranged_len_tuple(&self, min: usize, max: usize) -> (r: EvalexprResult<Vec<Value<F>>, F>)
        ensures
            match *self {
                Value::Tuple(t) => if min <= t@.len() <= max {
                    r matches Ok(x) && models_of(x@) == models_of(t@) && x@.len() == t@.len()
                } else {
                    r matches Err(e) && e@ == EModel::<F>::ExpectedRangedLengthTuple {
                        expected_min: min as nat, expected_max: max as nat, actual: self@ }
                },
                _ => r matches Err(e) && e@ == EModel::<F>::ExpectedTuple { actual: self@ },
            },
    {
        match self {
            Value::Tuple(tuple) => {
                if min <= tuple.len() && tuple.len() <= max {
                    Ok(copy_values(tuple))
                } else {
                    Err(EvalexprError::expected_ranged_len_tuple(min, max, self.copy_value()))
                }
            },
            value => Err(EvalexprError::expected_tuple(value.copy_value())),
        }
    }

    /// Returns `()`, or returns `Err` if `self` is not a `Value::Empty`.
    pub fn as_empty(&self) -> (r: EvalexprResult<(), F>)
        ensures
            match *self {
                Value::Empty => r is Ok,
                _ => r matches Err(e) && e@ == EModel::<F>::ExpectedEmpty { actual: self@ },
            },
    {
        match self {
            Value::Empty => Ok(()),
            value => Err(EvalexprError::expected_empty(value.copy_value())),
        }
    }

    /// Creates a `Value::Int`.
    pub fn from_int(value: IntType) -> (r: Self)
        ensures
            r == Value::<F>::Int(value),
    {
        Value::Int(value)
    }

    /// Creates a `Value::Float`.
    pub fn from_float(float: F) -> (r: Self)
        ensures
            r == Value::<F>::Float(float),
    {
        Value::Float(float)
    }
}

/// The float a number stands for: a float itself, an integer converted by `from_int`.
pub open spec fn float_of<F: EvalexprFloat>(v: VModel<F>) -> F {
    match v {
        VModel::Float(f) => f,
        VModel::Int(i) => F::spec_from_int(i as i64),
        _ => F::spec_from_int(0),
    }
}

/// Whether two values are equal as `==` on values compares them: of the same variant and with
/// equal contents, floats by the float type's equality.
pub open spec fn spec_values_equal<F: EvalexprFloat>(a: VModel<F>, b: VModel<F>) -> bool
    decreases a, 0nat,
{
    match a {
        VModel::Float(x) => match b {
            VModel::Float(y) => x.spec_float_eq(y),
            _ => false,
        },
        VModel::Tuple(x) => match b {
            VModel::Tuple(y) => spec_items_equal(x, y),
            _ => false,
        },
        _ => a == b,
    }
}

/// Whether two sequences of values have the same length and are equal item by item.
pub open spec fn spec_items_equal<F: EvalexprFloat>(x: Seq<VModel<F>>, y: Seq<VModel<F>>) -> bool
    decreases x, 1nat,
{
    if x.len() != y.len() {
        false
    } else if x.len() == 0 {
        true
    } else {
        spec_items_equal(x.drop_last(), y.drop_last()) && spec_values_equal(x.last(), y.last())
    }
}

pub proof fn lemma_items_equal<F: EvalexprFloat>(x: Seq<VModel<F>>, y: Seq<VModel<F>>)
    ensures
        spec_items_equal(x, y) <==> (x.len() == y.len()
            && forall|j: int| 0 <= j < x.len() ==> #[trigger] spec_values_equal(x[j], y[j])),
    decreases x.len(),
{
    if x.len() == y.len() && x.len() > 0 {
        let (xs, ys) = (x.drop_last(), y.drop_last());
        lemma_items_equal(xs, ys);
        if forall|j: int| 0 <= j < x.len() ==> #[trigger] spec_values_equal(x[j], y[j]) {
            assert forall|j: int| 0 <= j < xs.len() implies #[trigger] spec_values_equal(xs[j], ys[j]) by {
                assert(xs[j] == x[j] && ys[j] == y[j]);
            }
            assert(spec_values_equal(x[x.len() - 1], y[y.len() - 1]));
        }
        if spec_items_equal(x, y) {
            assert forall|j: int| 0 <= j < x.len() implies #[trigger] spec_values_equal(x[j], y[j]) by {
                if j < x.len() - 1 {
                    assert(xs[j] == x[j] && ys[j] == y[j]);
                    assert(spec_values_equal(xs[j], ys[j]));
                }
            }
        }
    }
}

/// Compares two values the way `==` on values does: of the same variant and with equal contents.
/// Floats compare by `EvalexprFloat::float_eq`.
pub fn values_equal<F: EvalexprFloat>(a: &Value<F>, b: &Value<F>) -> (r: bool)
    ensures
        !has_float(a@) && !has_float(b@) ==> r == (a@ == b@),
        r == spec_values_equal(a@, b@),
    decreases a, 0nat,
{
    match (a, b) {
        (Value::String(x), Value::String(y)) => crate::text::str_equal(x.as_str(), y.as_str()),
        (Value::Float(x), Value::Float(y)) => x.float_eq(*y),
        (Value::Int(x), Value::Int(y)) => *x == *y,
        (Value::Boolean(x), Value::Boolean(y)) => *x == *y,
        (Value::Tuple(x), Value::Tuple(y)) => tuples_equal(x, y),
        (Value::Empty, Value::Empty) => true,
        _ => false,
    }
}

/// Compares two tuples element by element.
pub fn tuples_equal<F: EvalexprFloat>(x: &Vec<Value<F>>, y: &Vec<Value<F>>) -> (r: bool)
    ensures
        !seq_has_float(models_of(x@)) && !seq_has_float(models_of(y@)) ==> r == (models_of(x@) == models_of(y@)),
        r == spec_items_equal(models_of(x@), models_of(y@)),
    decreases x, 1nat,
{
    proof {
        lemma_items_equal(models_of(x@), models_of(y@));
        lemma_models_of(x@);
        lemma_models_of(y@);
        lemma_seq_has_float(models_of(x@));
        lemma_seq_has_float(models_of(y@));
    }
    if x.len() != y.len() {
        return false;
    }
    let mut i: usize = 0;
    while i < x.len()
        invariant
            x@.len() == y@.len(),
            i <= x@.len(),
            models_of(x@).len() == x@.len(),
            models_of(y@).len() == y@.len(),
            forall|j: int| 0 <= j < x@.len() ==> #[trigger] models_of(x@)[j] == x@[j]@,
            forall|j: int| 0 <= j < y@.len() ==> #[trigger] models_of(y@)[j] == y@[j]@,
            seq_has_float(models_of(x@)) <==> exists|j: int| 0 <= j < models_of(x@).len() && #[trigger] has_float(models_of(x@)[j]),
            seq_has_float(models_of(y@)) <==> exists|j: int| 0 <= j < models_of(y@).len() && #[trigger] has_float(models_of(y@)[j]),
            forall|j: int| 0 <= j < i ==> (!has_float(#[trigger] x@[j]@) && !has_float(y@[j]@) ==> x@[j]@ == y@[j]@),
            forall|j: int| 0 <= j < i ==> spec_values_equal(#[trigger] models_of(x@)[j], models_of(y@)[j]),
            spec_items_equal(models_of(x@), models_of(y@)) <==> (models_of(x@).len() == models_of(y@).len()
                && forall|j: int| 0 <= j < models_of(x@).len() ==> #[trigger] spec_values_equal(models_of(x@)[j], models_of(y@)[j])),
        decreases x@.len() - i,
    {
        let e = values_equal(&x[i], &y[i]);
        if !e {
            proof {
                if !seq_has_float(models_of(x@)) && !seq_has_float(models_of(y@)) {
                    assert(!has_float(models_of(x@)[i as int]));
                    assert(!has_float(models_of(y@)[i as int]));
                    assert(models_of(x@)[i as int] != models_of(y@)[i as int]);
                }
            }
            proof {
                assert(!spec_values_equal(models_of(x@)[i as int], models_of(y@)[i as int]));
            }
            return false;
        }
        i += 1;
    }
    proof {
        if !seq_has_float(models_of(x@)) && !seq_has_float(models_of(y@)) {
            assert forall|j: int| 0 <= j < x@.len() implies models_of(x@)[j] == models_of(y@)[j] by {
                assert(!has_float(models_of(x@)[j]));
                assert(!has_float(models_of(y@)[j]));
            }
            assert(models_of(x@) =~= models_of(y@));
        }
    }
    true
}

/// The text of a boolean.
pub open spec fn bool_text(b: bool) -> Seq<char> {
    if b { seq!['t', 'r', 'u', 'e'] } else { seq!['f', 'a', 'l', 's', 'e'] }
}

/// How a value is displayed: strings in double quotes, integers in decimal, floats as the float
/// type's `to_display_string` writes them, tuples as their items separated by `, ` in parentheses,
/// the empty value as `()`.
pub open spec fn display_model<F: EvalexprFloat>(v: VModel<F>) -> Option<Seq<char>>
    decreases v, 1nat,
{
    match v {
        VModel::Str(s) => Some(seq!['"'] + s + seq!['"']),
        VModel::Float(f) => Some(f.spec_to_display_string()),
        VModel::Int(i) => Some(decimal_string(i)),
        VModel::Boolean(b) => Some(bool_text(b)),
        VModel::Tuple(t) => match display_items(t) {
            Some(inner) => Some(seq!['('] + inner + seq![')']),
            None => None,
        },
        VModel::Empty => Some(seq!['(', ')']),
    }
}

/// How the items of a tuple are displayed: separated by `, `.
pub open spec fn display_items<F: EvalexprFloat>(t: Seq<VModel<F>>) -> Option<Seq<char>>
    decreases t, 0nat,
{
    if t.len() == 0 {
        Some(Seq::empty())
    } else {
        match display_items(t.drop_last()) {
            Some(prefix) => match display_model(t.last()) {
                Some(item) => Some(if t.len() == 1 { item } else { prefix + seq![',', ' '] + item }),
                None => None,
            },
            None => None,
        }
    }
}

/// The text that `str::from` makes of a value: a string as it is, anything else as it is displayed.
pub open spec fn str_from_model<F: EvalexprFloat>(v: VModel<F>) -> Option<Seq<char>> {
    match v {
        VModel::Str(s) => Some(s),
        _ => display_model(v),
    }
}

/// The text of a boolean.
pub fn bool_to_string(b: bool) -> (r: String)
    ensures
        r@ == bool_text(b),
{
    if b {
        let r = string_of_chars(&['t', 'r', 'u', 'e']);
        assert(r@ =~= bool_text(true));
        r
    } else {
        let r = string_of_chars(&['f', 'a', 'l', 's', 'e']);
        assert(r@ =~= bool_text(false));
        r
    }
}

impl<F: EvalexprFloat> Value<F> {
    /// Renders the value as text, the way it is displayed.
    pub fn to_display_string(&self) -> (r: String)
        ensures
            display_model(self@) matches Some(s) ==> r@ == s,
        decreases self, 1nat,
    {
        match self {
            Value::String(string) => {
                let mut r = String::new();
                push_char(&mut r, '"');
                push_str(&mut r, string.as_str());
                push_char(&mut r, '"');
                proof { assert(r@ =~= seq!['"'] + string@ + seq!['"']); }
                r
            },
            Value::Float(float) => float.to_display_string(),
            Value::Int(n) => int_to_string(*n),
            Value::Boolean(boolean) => bool_to_string(*boolean),
            Value::Tuple(tuple) => {
                let mut r = String::new();
                push_char(&mut r, '(');
                let inner = display_tuple_items(tuple);
                push_str(&mut r, inner.as_str());
                push_char(&mut r, ')');
                proof {
                    if display_model(self@) is Some {
                        assert(r@ =~= seq!['('] + inner@ + seq![')']);
                    }
                }
                r
            },
            Value::Empty => {
                let r = string_of_chars(&['(', ')']);
                assert(r@ =~= seq!['(', ')']);
                r
            },
        }
    }

    /// The text that the builtin function `str::from` makes of the value: a string as it is,
    /// anything else as it is displayed.
    pub fn str_from(&self) -> (r: String)
        ensures
            str_from_model(self@) matches Some(s) ==> r@ == s,
    {
        match self {
            Value::String(string) => string.clone(),
            _ => self.to_display_string(),
        }
    }
}

/// The items of a tuple as they are displayed, separated by `, `.
fn display_tuple_items<F: EvalexprFloat>(tuple: &Vec<Value<F>>) -> (r: String)
    ensures
        display_items(models_of(tuple@)) matches Some(s) ==> r@ == s,
    decreases tuple, 0nat,
{
    proof { lemma_models_of(tuple@); }
    let ghost m = models_of(tuple@);
    let mut r = String::new();
    let mut i: usize = 0;
    while i < tuple.len()
        invariant
            i <= tuple@.len(),
            m == models_of(tuple@),
            m.len() == tuple@.len(),
            forall|j: int| 0 <= j < tuple@.len() ==> #[trigger] m[j] == tuple@[j]@,
            display_items(m.subrange(0, i as int)) matches Some(s) ==> r@ == s,
        decreases tuple@.len() - i,
    {
        let ghost before = r@;
        let item = tuple[i].to_display_string();
        if i > 0 {
            push_char(&mut r, ',');
            push_char(&mut r, ' ');
        }
        push_str(&mut r, item.as_str());
        proof {
            let next = m.subrange(0, i + 1);
            assert(next.drop_last() =~= m.subrange(0, i as int));
            assert(next.last() == tuple@[i as int]@);
            if display_items(next) is Some {
                if i > 0 {
                    assert(r@ =~= before + seq![',', ' '] + item@);
                } else {
                    assert(r@ =~= item@);
                }
            }
        }
        i += 1;
    }
    proof {
        assert(m.subrange(0, tuple@.len() as int) =~= m);
    }
    r
}

impl<F> From<IntType> for Value<F> {
    fn from(integer: IntType) -> (r: Self) {
        Value::Int(integer)
    }
}

impl<F> vstd::std_specs::convert::FromSpecImpl<IntType> for Value<F> {
    open spec fn obeys_from_spec() -> bool {
        true
    }

    open spec fn from_spec(v: IntType) -> Self {
        Value::Int(v)
    }
}

impl<F> From<bool> for Value<F> {
    fn from(boolean: bool) -> (r: Self) {
        Value::Boolean(boolean)
    }
}

impl<F> vstd::std_specs::convert::FromSpecImpl<bool> for Value<F> {
    open spec fn obeys_from_spec() -> bool {
        true
    }

    open spec fn from_spec(v: bool) -> Self {
        Value::Boolean(v)
    }
}

impl<F> From<String> for Value<F> {
    fn from(string: String) -> (r: Self) {
        Value::String(string)
    }
}

impl<F> vstd::std_specs::convert::FromSpecImpl<String> for Value<F> {
    open spec fn obeys_from_spec() -> bool {
        true
    }

    open spec fn from_spec(v: String) -> Self {
        Value::String(v)
    }
}

impl<F> From<Vec<Value<F>>> for Value<F> {
    fn from(tuple: Vec<Value<F>>) -> (r: Self) {
        Value::Tuple(tuple)
    }
}

impl<F> vstd::std_specs::convert::FromSpecImpl<Vec<Value<F>>> for Value<F> {
    open spec fn obeys_from_spec() -> bool {
        true
    }

    open spec fn from_spec(v: Vec<Value<F>>) -> Self {
        Value::Tuple(v)
    }
}

impl<F> From<()> for Value<F> {
    fn from(unit: ()) -> (r: Self) {
        Value::Empty
    }
}

impl<F> vstd::std_specs::convert::FromSpecImpl<()> for Value<F> {
    open spec fn obeys_from_spec() -> bool {
        true
    }

    open spec fn from_spec(v: ()) -> Self {
        Value::Empty
    }
}

} // verus!
