//! The builtin functions of the expression language.
use vstd::prelude::*;
use crate::numeric::EvalexprFloat;
use crate::value::{float_of, spec_values_equal, Value, VModel, ValueType, IntType, models_of, lemma_models_of, has_float, seq_has_float,
    lemma_seq_has_float, values_equal, copy_values, str_from_model};
use crate::error::{EvalexprError, EvalexprResult, EModel, RModel, result_model};
use crate::text::{str_equal, chars_of, string_from_range, string_of_chars, spec_is_whitespace, is_whitespace};

verus! {

/// What the specification says of a call of a builtin function.
pub ghost enum BuiltinOutcome<F> {
    /// There is no builtin function of that name.
    NotBuiltin,
    /// The call returns this result.
    Returns(RModel<F>),
    /// The call returns some string: the text of a value that holds a float, which the float
    /// type's `to_display_string` writes.
    SomeString,
}

/// The least (`is_min`) or greatest integer among the items of `t`, starting from `i64::MAX`
/// (`i64::MIN`), as `min` (`max`) folds them.
pub open spec fn int_extreme<F>(t: Seq<VModel<F>>, is_min: bool) -> int
    decreases t.len(),
{
    if t.len() == 0 {
        if is_min { i64::MAX as int } else { i64::MIN as int }
    } else {
        let e = int_extreme(t.drop_last(), is_min);
        match t.last() {
            VModel::Int(n) => if is_min { if n < e { n } else { e } } else { if n > e { n } else { e } },
            _ => e,
        }
    }
}

/// The least (`is_min`) or greatest float among the float items of `t`, starting from the float
/// type's largest (smallest) value, as `min` (`max`) folds them with the float type's `min` (`max`).
pub open spec fn float_extreme<F: EvalexprFloat>(t: Seq<VModel<F>>, is_min: bool) -> F
    decreases t.len(),
{
    if t.len() == 0 {
        if is_min { F::spec_max_value() } else { F::spec_min_value() }
    } else {
        let e = float_extreme(t.drop_last(), is_min);
        match t.last() {
            VModel::Float(f) => if is_min { e.spec_min(f) } else { e.spec_max(f) },
            _ => e,
        }
    }
}

/// What `min` (`max`) gives on a tuple of numbers: the extreme integer where it is less (greater)
/// than the extreme float, by the float type's `<` on the integer converted to a float; else the
/// extreme float.
pub open spec fn min_max_value<F: EvalexprFloat>(t: Seq<VModel<F>>, is_min: bool) -> VModel<F> {
    let k = int_extreme(t, is_min);
    let fe = float_extreme(t, is_min);
    let as_float = F::spec_from_int(k as i64);
    if (if is_min { as_float.spec_float_lt(fe) } else { fe.spec_float_lt(as_float) }) {
        VModel::Int(k)
    } else {
        VModel::Float(fe)
    }
}

/// How `regex::Regex::new` answers the pattern: `None` where it accepts it, else the text of the
/// error with which it refuses it.
pub uninterp spec fn regex_new_error(pattern: Seq<char>) -> Option<Seq<char>>;

/// Whether `regex::Regex::new` accepts the pattern.
pub open spec fn regex_accepts(pattern: Seq<char>) -> bool {
    regex_new_error(pattern) is None
}

/// The text of the error with which `regex::Regex::new` refuses the pattern.
pub open spec fn regex_error_message(pattern: Seq<char>) -> Seq<char> {
    regex_new_error(pattern)->Some_0
}

/// What `regex::Regex::is_match` answers, for the regex of `pattern`, on `subject`.
pub uninterp spec fn regex_is_match(pattern: Seq<char>, subject: Seq<char>) -> bool;

/// What `regex::Regex::replace_all` makes of `subject`, for the regex of `pattern` and the replacement.
pub uninterp spec fn regex_replace_all(pattern: Seq<char>, subject: Seq<char>, replacement: Seq<char>) -> Seq<char>;

/// What `str::to_lowercase` makes of a string (the Unicode lowercase mapping).
pub uninterp spec fn lowercase_of(s: Seq<char>) -> Seq<char>;

/// What `str::to_uppercase` makes of a string (the Unicode uppercase mapping).
pub uninterp spec fn uppercase_of(s: Seq<char>) -> Seq<char>;

/// Compiles `pattern` with `regex::Regex::new` and returns the error's text where it refuses it.
/// Trusted: the answer is the crate's, named `regex_new_error` (the error by its `Display` text).
#[verifier::external_body]
fn regex_compile_error(pattern: &str) -> (r: Option<String>)
    ensures
        match r {
            Some(m) => regex_new_error(pattern@) == Some(m@),
            None => regex_new_error(pattern@) is None,
        },
{
    match regex::Regex::new(pattern) {
        Ok(_) => None,
        Err(err) => Some(format!("{}", err)),
    }
}

/// Compiles `pattern` with `regex::Regex::new` and asks `Regex::is_match` whether it matches somewhere in `subject`.
/// Trusted: the answer is the crate's, named `regex_is_match`.
#[verifier::external_body]
fn regex_matches(pattern: &str, subject: &str) -> (r: bool)
    requires
        regex_accepts(pattern@),
    ensures
        r == regex_is_match(pattern@, subject@),
{
    match regex::Regex::new(pattern) {
        Ok(re) => re.is_match(subject),
        Err(_) => false,
    }
}

/// Compiles `pattern` with `regex::Regex::new` and replaces all its matches in `subject` with `Regex::replace_all`.
/// Trusted: the result is the crate's, named `regex_replace_all`; where nothing matches, the crate's
/// documentation says that the subject comes back unchanged.
#[verifier::external_body]
fn regex_replace(pattern: &str, subject: &str, replacement: &str) -> (r: String)
    requires
        regex_accepts(pattern@),
    ensures
        r@ == regex_replace_all(pattern@, subject@, replacement@),
        !regex_is_match(pattern@, subject@) ==> r@ == subject@,
{
    match regex::Regex::new(pattern) {
        Ok(re) => re.replace_all(subject, replacement).to_string(),
        Err(_) => subject.to_string(),
    }
}

/// `str::to_lowercase`. Trusted: the result is std's, named `lowercase_of`.
#[verifier::external_body]
pub(crate) fn to_lowercase(s: &str) -> (r: String)
    ensures
        r@ == lowercase_of(s@),
{
    s.to_lowercase()
}

/// `str::to_uppercase`. Trusted: the result is std's, named `uppercase_of`.
#[verifier::external_body]
fn to_uppercase(s: &str) -> (r: String)
    ensures
        r@ == uppercase_of(s@),
{
    s.to_uppercase()
}

/// The name of the type of a value, as `typeof` answers it.
pub open spec fn kind_name<F>(v: VModel<F>) -> Seq<char> {
    match v {
        VModel::Str(_) => seq!['s', 't', 'r', 'i', 'n', 'g'],
        VModel::Float(_) => seq!['f', 'l', 'o', 'a', 't'],
        VModel::Int(_) => seq!['i', 'n', 't'],
        VModel::Boolean(_) => seq!['b', 'o', 'o', 'l', 'e', 'a', 'n'],
        VModel::Tuple(_) => seq!['t', 'u', 'p', 'l', 'e'],
        VModel::Empty => seq!['e', 'm', 'p', 't', 'y'],
    }
}

/// Whether `v` is a number.
pub open spec fn is_num<F>(v: VModel<F>) -> bool {
    v is Int || v is Float
}

/// The items of `v` if it is a tuple of length `n`, else the error `as_fixed_len_tuple` answers with.
pub open spec fn tuple_of_len<F>(v: VModel<F>, n: nat) -> Result<Seq<VModel<F>>, EModel<F>> {
    match v {
        VModel::Tuple(t) => if t.len() == n {
            Ok(t)
        } else {
            Err(EModel::ExpectedFixedLengthTuple { expected_length: n, actual: v })
        },
        _ => Err(EModel::ExpectedTuple { actual: v }),
    }
}

/// The first item of `t` that is not a number.
pub open spec fn first_non_number<F>(t: Seq<VModel<F>>) -> Option<VModel<F>>
    decreases t.len(),
{
    if t.len() == 0 {
        None
    } else if !is_num(t[0]) {
        Some(t[0])
    } else {
        first_non_number(t.drop_first())
    }
}

/// Whether `v` is a string, a number or a boolean.
pub open spec fn is_primitive<F>(v: VModel<F>) -> bool {
    v is Str || v is Int || v is Float || v is Boolean
}

/// The first item of `t` that is neither a string, a number nor a boolean.
pub open spec fn first_non_primitive<F>(t: Seq<VModel<F>>) -> Option<VModel<F>>
    decreases t.len(),
{
    if t.len() == 0 {
        None
    } else if !is_primitive(t[0]) {
        Some(t[0])
    } else {
        first_non_primitive(t.drop_first())
    }
}

/// The error that `contains` and `contains_any` answer for a value that cannot be looked for.
pub open spec fn not_primitive_error<F>(v: VModel<F>) -> EModel<F> {
    EModel::TypeError { expected: seq![ValueType::String, ValueType::Int, ValueType::Float, ValueType::Boolean], actual: v }
}

/// The number of bytes of the UTF-8 encoding of a character.
pub open spec fn utf8_width(c: char) -> nat {
    if (c as u32) < 0x80 { 1 } else if (c as u32) < 0x800 { 2 } else if (c as u32) < 0x10000 { 3 } else { 4 }
}

/// The number of bytes of the UTF-8 encoding of the first `k` characters of `s`.
pub open spec fn byte_offset(s: Seq<char>, k: int) -> nat
    decreases k,
{
    if k <= 0 || k > s.len() {
        0
    } else {
        byte_offset(s, k - 1) + utf8_width(s[k - 1])
    }
}

/// The number of bytes of the UTF-8 encoding of `s`.
pub open spec fn byte_len(s: Seq<char>) -> nat {
    byte_offset(s, s.len() as int)
}

/// The result of converting a length into an integer value.
pub open spec fn int_of_len<F>(n: nat) -> RModel<F> {
    if n > i64::MAX {
        Err(EModel::IntFromUsize { usize_int: (n as usize) as nat })
    } else {
        Ok(VModel::Int(n as int))
    }
}

/// The index of the first character of `s` at or after `i` that is not whitespace.
pub open spec fn trim_start_index(s: Seq<char>, i: int) -> int
    decreases s.len() - i,
{
    if i < 0 || i >= s.len() || !spec_is_whitespace(s[i]) {
        i
    } else {
        trim_start_index(s, i + 1)
    }
}

/// The index after the last character of `s` before `j` that is not whitespace (0 if there is none).
pub open spec fn trim_end_index(s: Seq<char>, j: int) -> int
    decreases j,
{
    if j <= 0 || j > s.len() || !spec_is_whitespace(s[j - 1]) {
        j
    } else {
        trim_end_index(s, j - 1)
    }
}

/// `s` without whitespace at its start and at its end.
pub open spec fn trimmed(s: Seq<char>) -> Seq<char> {
    let a = trim_start_index(s, 0);
    let b = trim_end_index(s, s.len() as int);
    if a < b { s.subrange(a, b) } else { Seq::empty() }
}

/// Whether a character index `k` of `s` starts at byte `b`.
pub open spec fn starts_at_byte(s: Seq<char>, k: int, b: int) -> bool {
    0 <= k <= s.len() && byte_offset(s, k) == b
}

/// The result of `str::substring` on `subject` between the byte offsets `start` and `end`:
/// the characters between them, or `OutOfBoundsAccess` where the range is empty the wrong way round,
/// leaves the string, or does not fall on character boundaries.
pub open spec fn substring_model<F>(subject: Seq<char>, start: int, end: int) -> RModel<F> {
    if start > end || end > byte_len(subject) {
        Err(EModel::OutOfBoundsAccess)
    } else if exists|k1: int, k2: int| starts_at_byte(subject, k1, start) && starts_at_byte(subject, k2, end) {
        let (k1, k2) = choose|k1: int, k2: int| starts_at_byte(subject, k1, start) && starts_at_byte(subject, k2, end);
        Ok(VModel::Str(subject.subrange(k1, k2)))
    } else {
        Err(EModel::OutOfBoundsAccess)
    }
}

/// Whether an integer is out of the range of `usize`.
pub open spec fn not_a_usize(i: int) -> bool {
    i < 0 || i > usize::MAX
}

/// The result of `str::substring` on its argument.
pub open spec fn spec_substring<F>(arg: VModel<F>) -> RModel<F> {
    match arg {
        VModel::Tuple(t) => if !(2 <= t.len() <= 3) {
            Err(EModel::ExpectedRangedLengthTuple { expected_min: 2, expected_max: 3, actual: arg })
        } else if !(t[0] is Str) {
            Err(EModel::ExpectedString { actual: t[0] })
        } else if !(t[1] is Int) {
            Err(EModel::ExpectedInt { actual: t[1] })
        } else if not_a_usize(t[1]->Int_0) {
            Err(EModel::OutOfBoundsAccess)
        } else if t.len() == 3 && !(t[2] is Int) {
            Err(EModel::ExpectedInt { actual: t[2] })
        } else if t.len() == 3 && not_a_usize(t[2]->Int_0) {
            Err(EModel::OutOfBoundsAccess)
        } else {
            let subject = t[0]->Str_0;
            let end = if t.len() == 3 { t[2]->Int_0 } else { byte_len(subject) as int };
            substring_model(subject, t[1]->Int_0, end)
        },
        _ => Err(EModel::ExpectedTuple { actual: arg }),
    }
}

/// The result of a bitwise function on two integers.
pub open spec fn spec_bitwise2<F>(op: int, arg: VModel<F>) -> RModel<F> {
    match tuple_of_len(arg, 2) {
        Ok(t) => if !(t[0] is Int) {
            Err(EModel::ExpectedInt { actual: t[0] })
        } else if !(t[1] is Int) {
            Err(EModel::ExpectedInt { actual: t[1] })
        } else {
            let a = t[0]->Int_0 as i64;
            let b = t[1]->Int_0 as i64;
            Ok(VModel::Int((if op == 0 { a & b } else if op == 1 { a | b } else if op == 2 { a ^ b }
                else if op == 3 { a.wrapping_shl(b as u32) } else { a.wrapping_shr(b as u32) }) as int))
        },
        Err(e) => Err(e),
    }
}

/// What the builtin function `id` of one number gives on the float `x`.
pub open spec fn unary_float_value<F: EvalexprFloat>(id: Seq<char>, x: F) -> VModel<F> {
    if id == "math::ln"@ { VModel::Float(x.spec_ln()) }
    else if id == "math::log2"@ { VModel::Float(x.spec_log2()) }
    else if id == "math::log10"@ { VModel::Float(x.spec_log10()) }
    else if id == "math::exp"@ { VModel::Float(x.spec_exp()) }
    else if id == "math::exp2"@ { VModel::Float(x.spec_exp2()) }
    else if id == "math::cos"@ { VModel::Float(x.spec_cos()) }
    else if id == "math::acos"@ { VModel::Float(x.spec_acos()) }
    else if id == "math::cosh"@ { VModel::Float(x.spec_cosh()) }
    else if id == "math::acosh"@ { VModel::Float(x.spec_acosh()) }
    else if id == "math::sin"@ { VModel::Float(x.spec_sin()) }
    else if id == "math::asin"@ { VModel::Float(x.spec_asin()) }
    else if id == "math::sinh"@ { VModel::Float(x.spec_sinh()) }
    else if id == "math::asinh"@ { VModel::Float(x.spec_asinh()) }
    else if id == "math::tan"@ { VModel::Float(x.spec_tan()) }
    else if id == "math::atan"@ { VModel::Float(x.spec_atan()) }
    else if id == "math::tanh"@ { VModel::Float(x.spec_tanh()) }
    else if id == "math::atanh"@ { VModel::Float(x.spec_atanh()) }
    else if id == "math::sqrt"@ { VModel::Float(x.spec_sqrt()) }
    else if id == "math::cbrt"@ { VModel::Float(x.spec_cbrt()) }
    else if id == "floor"@ { VModel::Float(x.spec_floor()) }
    else if id == "round"@ { VModel::Float(x.spec_round()) }
    else if id == "ceil"@ { VModel::Float(x.spec_ceil()) }
    else if id == "math::is_nan"@ { VModel::Boolean(x.spec_is_nan()) }
    else if id == "math::is_finite"@ { VModel::Boolean(x.spec_is_finite()) }
    else if id == "math::is_infinite"@ { VModel::Boolean(x.spec_is_infinite()) }
    else { VModel::Boolean(x.spec_is_normal()) }
}

/// What the builtin function `id` of two numbers gives on the floats `a` and `b`.
pub open spec fn binary_float_value<F: EvalexprFloat>(id: Seq<char>, a: F, b: F) -> F {
    if id == "math::log"@ { a.spec_log(b) }
    else if id == "math::pow"@ { a.spec_pow(b) }
    else if id == "math::atan2"@ { a.spec_atan2(b) }
    else { a.spec_hypot(b) }
}

/// The result of the builtin function `id` that takes a number and computes with floats.
pub open spec fn float_of_number<F: EvalexprFloat>(id: Seq<char>, arg: VModel<F>) -> RModel<F> {
    if is_num(arg) { Ok(unary_float_value(id, float_of(arg))) } else { Err(EModel::ExpectedNumber { actual: arg }) }
}

/// The result of the builtin function `id` that takes a pair of numbers and computes with floats.
pub open spec fn float_of_numbers<F: EvalexprFloat>(id: Seq<char>, arg: VModel<F>) -> RModel<F> {
    match tuple_of_len(arg, 2) {
        Ok(t) => if !is_num(t[0]) {
            Err(EModel::ExpectedNumber { actual: t[0] })
        } else if !is_num(t[1]) {
            Err(EModel::ExpectedNumber { actual: t[1] })
        } else {
            Ok(VModel::Float(binary_float_value(id, float_of(t[0]), float_of(t[1]))))
        },
        Err(e) => Err(e),
    }
}

/// Whether `id` names a builtin function of one number that computes a float.
pub open spec fn is_unary_float_function(id: Seq<char>) -> bool {
    id == "math::ln"@ || id == "math::log2"@ || id == "math::log10"@ || id == "math::exp"@ || id == "math::exp2"@
        || id == "math::cos"@ || id == "math::acos"@ || id == "math::cosh"@ || id == "math::acosh"@
        || id == "math::sin"@ || id == "math::asin"@ || id == "math::sinh"@ || id == "math::asinh"@
        || id == "math::tan"@ || id == "math::atan"@ || id == "math::tanh"@ || id == "math::atanh"@
        || id == "math::sqrt"@ || id == "math::cbrt"@ || id == "floor"@ || id == "round"@ || id == "ceil"@
        || id == "math::is_nan"@ || id == "math::is_finite"@ || id == "math::is_infinite"@ || id == "math::is_normal"@
}

/// Whether `id` names a builtin function of two numbers that computes a float.
pub open spec fn is_binary_float_function(id: Seq<char>) -> bool {
    id == "math::log"@ || id == "math::pow"@ || id == "math::atan2"@ || id == "math::hypot"@
}

/// What a call of the builtin function `identifier` with `arg` gives.
pub open spec fn spec_builtin<F: EvalexprFloat>(identifier: Seq<char>, arg: VModel<F>) -> BuiltinOutcome<F> {
    if is_unary_float_function(identifier) {
        BuiltinOutcome::Returns(float_of_number(identifier, arg))
    } else if is_binary_float_function(identifier) {
        BuiltinOutcome::Returns(float_of_numbers(identifier, arg))
    } else if identifier == "math::abs"@ {
        match arg {
            VModel::Int(i) => BuiltinOutcome::Returns(if i == i64::MIN {
                Err(EModel::NegationError { argument: arg })
            } else {
                Ok(VModel::Int(if i < 0 { -i } else { i }))
            }),
            VModel::Float(f) => BuiltinOutcome::Returns(Ok(VModel::Float(f.spec_abs()))),
            _ => BuiltinOutcome::Returns(Err(EModel::ExpectedNumber { actual: arg })),
        }
    } else if identifier == "typeof"@ {
        BuiltinOutcome::Returns(Ok(VModel::Str(kind_name(arg))))
    } else if identifier == "min"@ || identifier == "max"@ {
        match arg {
            VModel::Tuple(t) => match first_non_number(t) {
                Some(v) => BuiltinOutcome::Returns(Err(EModel::ExpectedNumber { actual: v })),
                None => BuiltinOutcome::Returns(Ok(min_max_value(t, identifier == "min"@))),
            },
            _ => BuiltinOutcome::Returns(Err(EModel::ExpectedTuple { actual: arg })),
        }
    } else if identifier == "if"@ {
        BuiltinOutcome::Returns(match tuple_of_len(arg, 3) {
            Ok(t) => match t[0] {
                VModel::Boolean(b) => Ok(if b { t[1] } else { t[2] }),
                _ => Err(EModel::ExpectedBoolean { actual: t[0] }),
            },
            Err(e) => Err(e),
        })
    } else if identifier == "contains"@ {
        match tuple_of_len(arg, 2) {
            Ok(t) => match t[0] {
                VModel::Tuple(a) => if !is_primitive(t[1]) {
                    BuiltinOutcome::Returns(Err(not_primitive_error(t[1])))
                } else if seq_has_float(a) || has_float(t[1]) {
                    BuiltinOutcome::Returns(Ok(VModel::Boolean(exists|j: int| 0 <= j < a.len() && #[trigger] spec_values_equal(a[j], t[1]))))
                } else {
                    BuiltinOutcome::Returns(Ok(VModel::Boolean(a.contains(t[1]))))
                },
                _ => BuiltinOutcome::Returns(Err(EModel::ExpectedTuple { actual: t[0] })),
            },
            Err(e) => BuiltinOutcome::Returns(Err(e)),
        }
    } else if identifier == "contains_any"@ {
        match tuple_of_len(arg, 2) {
            Ok(t) => match (t[0], t[1]) {
                (VModel::Tuple(a), VModel::Tuple(b)) => match first_non_primitive(b) {
                    Some(v) => BuiltinOutcome::Returns(Err(not_primitive_error(v))),
                    None => if seq_has_float(a) || seq_has_float(b) {
                        BuiltinOutcome::Returns(Ok(VModel::Boolean(exists|j: int, k: int| 0 <= j < b.len() && 0 <= k < a.len()
                            && #[trigger] spec_values_equal(a[k], b[j]))))
                    } else {
                        BuiltinOutcome::Returns(Ok(VModel::Boolean(exists|j: int| 0 <= j < b.len() && a.contains(#[trigger] b[j]))))
                    },
                },
                (VModel::Tuple(_), _) => BuiltinOutcome::Returns(Err(EModel::ExpectedTuple { actual: t[1] })),
                _ => BuiltinOutcome::Returns(Err(EModel::ExpectedTuple { actual: t[0] })),
            },
            Err(e) => BuiltinOutcome::Returns(Err(e)),
        }
    } else if identifier == "len"@ {
        BuiltinOutcome::Returns(match arg {
            VModel::Str(s) => int_of_len(s.len()),
            VModel::Tuple(t) => int_of_len(t.len()),
            _ => Err(EModel::TypeError { expected: seq![ValueType::String, ValueType::Tuple], actual: arg }),
        })
    } else if identifier == "str::regex_matches"@ {
        BuiltinOutcome::Returns(match tuple_of_len(arg, 2) {
            Ok(t) => if !(t[0] is Str) {
                Err(EModel::ExpectedString { actual: t[0] })
            } else if !(t[1] is Str) {
                Err(EModel::ExpectedString { actual: t[1] })
            } else if regex_accepts(t[1]->Str_0) {
                Ok(VModel::Boolean(regex_is_match(t[1]->Str_0, t[0]->Str_0)))
            } else {
                Err(EModel::InvalidRegex { regex: t[1]->Str_0, message: regex_error_message(t[1]->Str_0) })
            },
            Err(e) => Err(e),
        })
    } else if identifier == "str::regex_replace"@ {
        BuiltinOutcome::Returns(match tuple_of_len(arg, 3) {
            Ok(t) => if !(t[0] is Str) {
                Err(EModel::ExpectedString { actual: t[0] })
            } else if !(t[1] is Str) {
                Err(EModel::ExpectedString { actual: t[1] })
            } else if !(t[2] is Str) {
                Err(EModel::ExpectedString { actual: t[2] })
            } else if regex_accepts(t[1]->Str_0) {
                Ok(VModel::Str(regex_replace_all(t[1]->Str_0, t[0]->Str_0, t[2]->Str_0)))
            } else {
                Err(EModel::InvalidRegex { regex: t[1]->Str_0, message: regex_error_message(t[1]->Str_0) })
            },
            Err(e) => Err(e),
        })
    } else if identifier == "str::to_lowercase"@ {
        BuiltinOutcome::Returns(match arg {
            VModel::Str(s) => Ok(VModel::Str(lowercase_of(s))),
            _ => Err(EModel::ExpectedString { actual: arg }),
        })
    } else if identifier == "str::to_uppercase"@ {
        BuiltinOutcome::Returns(match arg {
            VModel::Str(s) => Ok(VModel::Str(uppercase_of(s))),
            _ => Err(EModel::ExpectedString { actual: arg }),
        })
    } else if identifier == "str::trim"@ {
        BuiltinOutcome::Returns(match arg {
            VModel::Str(s) => Ok(VModel::Str(trimmed(s))),
            _ => Err(EModel::ExpectedString { actual: arg }),
        })
    } else if identifier == "str::from"@ {
        match str_from_model(arg) {
            Some(s) => BuiltinOutcome::Returns(Ok(VModel::Str(s))),
            None => BuiltinOutcome::SomeString,
        }
    } else if identifier == "str::substring"@ {
        BuiltinOutcome::Returns(spec_substring(arg))
    } else if identifier == "bitand"@ {
        BuiltinOutcome::Returns(spec_bitwise2(0, arg))
    } else if identifier == "bitor"@ {
        BuiltinOutcome::Returns(spec_bitwise2(1, arg))
    } else if identifier == "bitxor"@ {
        BuiltinOutcome::Returns(spec_bitwise2(2, arg))
    } else if identifier == "bitnot"@ {
        BuiltinOutcome::Returns(match arg {
            VModel::Int(i) => Ok(VModel::Int(-i - 1)),
            _ => Err(EModel::ExpectedInt { actual: arg }),
        })
    } else if identifier == "shl"@ {
        BuiltinOutcome::Returns(spec_bitwise2(3, arg))
    } else if identifier == "shr"@ {
        BuiltinOutcome::Returns(spec_bitwise2(4, arg))
    } else {
        BuiltinOutcome::NotBuiltin
    }
}

proof fn lemma_first_non_number_skip<F>(t: Seq<VModel<F>>, i: int)
    requires
        0 <= i <= t.len(),
        forall|j: int| 0 <= j < i ==> is_num(#[trigger] t[j]),
    ensures
        first_non_number(t) == first_non_number(t.skip(i)),
    decreases i,
{
    if i == 0 {
        assert(t.skip(0) =~= t);
    } else {
        assert(is_num(t[0]));
        let u = t.drop_first();
        assert forall|j: int| 0 <= j < i - 1 implies is_num(#[trigger] u[j]) by {
            assert(u[j] == t[j + 1]);
        }
        lemma_first_non_number_skip(u, i - 1);
        assert(u.skip(i - 1) =~= t.skip(i));
    }
}

proof fn lemma_first_non_primitive_skip<F>(t: Seq<VModel<F>>, i: int)
    requires
        0 <= i <= t.len(),
        forall|j: int| 0 <= j < i ==> is_primitive(#[trigger] t[j]),
    ensures
        first_non_primitive(t) == first_non_primitive(t.skip(i)),
    decreases i,
{
    if i == 0 {
        assert(t.skip(0) =~= t);
    } else {
        assert(is_primitive(t[0]));
        let u = t.drop_first();
        assert forall|j: int| 0 <= j < i - 1 implies is_primitive(#[trigger] u[j]) by {
            assert(u[j] == t[j + 1]);
        }
        lemma_first_non_primitive_skip(u, i - 1);
        assert(u.skip(i - 1) =~= t.skip(i));
    }
}

/// The number a value holds, as a float, or `ExpectedNumber`.
fn number_of<F: EvalexprFloat>(v: &Value<F>) -> (r: EvalexprResult<F, F>)
    ensures
        r is Ok <==> is_num(v@),
        r matches Ok(x) ==> x == float_of(v@),
        !is_num(v@) ==> (r matches Err(e) && e@ == EModel::<F>::ExpectedNumber { actual: v@ }),
{
    match v {
        Value::Float(f) => Ok(*f),
        Value::Int(i) => Ok(F::from_int(*i)),
        _ => Err(EvalexprError::expected_number(v.copy_value())),
    }
}

/// The items of a value that is a tuple of length `n`.
fn tuple_items<F: EvalexprFloat>(v: &Value<F>, n: usize) -> (r: EvalexprResult<Vec<Value<F>>, F>)
    ensures
        match tuple_of_len(v@, n as nat) {
            Ok(t) => r matches Ok(x) && models_of(x@) == t && x@.len() == n,
            Err(e) => r matches Err(x) && x@ == e,
        },
{
    match v {
        Value::Tuple(t) => {
            proof { lemma_models_of(t@); }
        },
        _ => {},
    }
    v.as_fixed_len_tuple(n)
}

/// The builtin functions of one number that compute a float (or a property of a float).
fn unary_float_function<F: EvalexprFloat>(identifier: &str, argument: &Value<F>) -> (r: Option<EvalexprResult<Value<F>, F>>)
    ensures
        r is Some <==> is_unary_float_function(identifier@),
        r matches Some(x) ==> result_model(x) == float_of_number(identifier@, argument@),
{
    let k: u8 = if str_equal(identifier, "math::ln") { 1 }
        else if str_equal(identifier, "math::log2") { 2 }
        else if str_equal(identifier, "math::log10") { 3 }
        else if str_equal(identifier, "math::exp") { 4 }
        else if str_equal(identifier, "math::exp2") { 5 }
        else if str_equal(identifier, "math::cos") { 6 }
        else if str_equal(identifier, "math::acos") { 7 }
        else if str_equal(identifier, "math::cosh") { 8 }
        else if str_equal(identifier, "math::acosh") { 9 }
        else if str_equal(identifier, "math::sin") { 10 }
        else if str_equal(identifier, "math::asin") { 11 }
        else if str_equal(identifier, "math::sinh") { 12 }
        else if str_equal(identifier, "math::asinh") { 13 }
        else if str_equal(identifier, "math::tan") { 14 }
        else if str_equal(identifier, "math::atan") { 15 }
        else if str_equal(identifier, "math::tanh") { 16 }
        else if str_equal(identifier, "math::atanh") { 17 }
        else if str_equal(identifier, "math::sqrt") { 18 }
        else if str_equal(identifier, "math::cbrt") { 19 }
        else if str_equal(identifier, "floor") { 20 }
        else if str_equal(identifier, "round") { 21 }
        else if str_equal(identifier, "ceil") { 22 }
        else if str_equal(identifier, "math::is_nan") { 23 }
        else if str_equal(identifier, "math::is_finite") { 24 }
        else if str_equal(identifier, "math::is_infinite") { 25 }
        else if str_equal(identifier, "math::is_normal") { 26 }
        else { 0 };
    if k == 0 {
        return None;
    }
    let x = match number_of(argument) {
        Ok(x) => x,
        Err(e) => return Some(Err(e)),
    };
    let value = if k == 1 { Value::Float(x.ln()) }
        else if k == 2 { Value::Float(x.log2()) }
        else if k == 3 { Value::Float(x.log10()) }
        else if k == 4 { Value::Float(x.exp()) }
        else if k == 5 { Value::Float(x.exp2()) }
        else if k == 6 { Value::Float(x.cos()) }
        else if k == 7 { Value::Float(x.acos()) }
        else if k == 8 { Value::Float(x.cosh()) }
        else if k == 9 { Value::Float(x.acosh()) }
        else if k == 10 { Value::Float(x.sin()) }
        else if k == 11 { Value::Float(x.asin()) }
        else if k == 12 { Value::Float(x.sinh()) }
        else if k == 13 { Value::Float(x.asinh()) }
        else if k == 14 { Value::Float(x.tan()) }
        else if k == 15 { Value::Float(x.atan()) }
        else if k == 16 { Value::Float(x.tanh()) }
        else if k == 17 { Value::Float(x.atanh()) }
        else if k == 18 { Value::Float(x.sqrt()) }
        else if k == 19 { Value::Float(x.cbrt()) }
        else if k == 20 { Value::Float(x.floor()) }
        else if k == 21 { Value::Float(x.round()) }
        else if k == 22 { Value::Float(x.ceil()) }
        else if k == 23 { Value::Boolean(x.is_nan()) }
        else if k == 24 { Value::Boolean(x.is_finite()) }
        else if k == 25 { Value::Boolean(x.is_infinite()) }
        else { Value::Boolean(x.is_normal()) };
    Some(Ok(value))
}

/// The builtin functions of two numbers that compute a float.
fn binary_float_function<F: EvalexprFloat>(identifier: &str, argument: &Value<F>) -> (r: Option<EvalexprResult<Value<F>, F>>)
    ensures
        r is Some <==> is_binary_float_function(identifier@),
        r matches Some(x) ==> result_model(x) == float_of_numbers(identifier@, argument@),
{
    let k: u8 = if str_equal(identifier, "math::log") { 1 }
        else if str_equal(identifier, "math::pow") { 2 }
        else if str_equal(identifier, "math::atan2") { 3 }
        else if str_equal(identifier, "math::hypot") { 4 }
        else { 0 };
    if k == 0 {
        return None;
    }
    let items = match tuple_items(argument, 2) {
        Ok(items) => items,
        Err(e) => return Some(Err(e)),
    };
    proof { lemma_models_of(items@); }
    let a = match number_of(&items[0]) {
        Ok(a) => a,
        Err(e) => return Some(Err(e)),
    };
    let b = match number_of(&items[1]) {
        Ok(b) => b,
        Err(e) => return Some(Err(e)),
    };
    let result = if k == 1 { a.log(b) } else if k == 2 { a.pow(b) } else if k == 3 { a.atan2(b) } else { a.hypot(b) };
    Some(Ok(Value::Float(result)))
}

/// `min` and `max`: the least (greatest) of the numbers of a tuple; an integer if the extreme
/// is an integer, else a float.
fn min_max<F: EvalexprFloat>(is_min: bool, argument: &Value<F>) -> (r: EvalexprResult<Value<F>, F>)
    ensures
        match argument@ {
            VModel::Tuple(t) => match first_non_number(t) {
                Some(v) => r matches Err(e) && e@ == EModel::<F>::ExpectedNumber { actual: v },
                None => r matches Ok(v) && v@ == min_max_value(t, is_min),
            },
            _ => r matches Err(e) && e@ == EModel::<F>::ExpectedTuple { actual: argument@ },
        },
{
    let arguments = match argument {
        Value::Tuple(t) => t,
        _ => return Err(EvalexprError::expected_tuple(argument.copy_value())),
    };
    proof { lemma_models_of(arguments@); }
    let ghost t = models_of(arguments@);
    let mut extreme_int: i64 = if is_min { i64::MAX } else { i64::MIN };
    let mut extreme_float: F = if is_min { F::max_value() } else { F::min_value() };
    let mut i: usize = 0;
    while i < arguments.len()
        invariant
            i <= arguments@.len(),
            t == models_of(arguments@),
            argument@ == VModel::<F>::Tuple(t),
            t.len() == arguments@.len(),
            forall|j: int| 0 <= j < arguments@.len() ==> #[trigger] t[j] == arguments@[j]@,
            forall|j: int| 0 <= j < i ==> is_num(#[trigger] t[j]),
            extreme_int as int == int_extreme(t.take(i as int), is_min),
            extreme_float == float_extreme(t.take(i as int), is_min),
        decreases arguments@.len() - i,
    {
        proof {
            assert(t.take(i + 1).drop_last() =~= t.take(i as int));
            assert(t.take(i + 1).last() == t[i as int]);
        }
        match &arguments[i] {
            Value::Float(float) => {
                extreme_float = if is_min { extreme_float.min(*float) } else { extreme_float.max(*float) };
            },
            Value::Int(n) => {
                if is_min {
                    if *n < extreme_int {
                        extreme_int = *n;
                    }
                } else {
                    if *n > extreme_int {
                        extreme_int = *n;
                    }
                }
            },
            v => {
                proof {
                    assert(t[i as int] == arguments@[i as int]@);
                    assert(!is_num(t[i as int]));
                    lemma_first_non_number_skip(t, i as int);
                    assert(t.skip(i as int)[0] == t[i as int]);
                    assert(first_non_number(t.skip(i as int)) == Some(t[i as int]));
                }
                return Err(EvalexprError::expected_number(v.copy_value()));
            },
        }
        i += 1;
    }
    proof {
        lemma_first_non_number_skip(t, t.len() as int);
        assert(t.take(t.len() as int) =~= t);
    }
    let as_float = F::from_int(extreme_int);
    let int_wins = if is_min { as_float.float_lt(extreme_float) } else { extreme_float.float_lt(as_float) };
    if int_wins {
        Ok(Value::Int(extreme_int))
    } else {
        Ok(Value::Float(extreme_float))
    }
}

/// Whether `a` holds a value equal to `b`.
fn tuple_contains<F: EvalexprFloat>(a: &Vec<Value<F>>, b: &Value<F>) -> (r: bool)
    ensures
        !seq_has_float(models_of(a@)) && !has_float(b@) ==> r == models_of(a@).contains(b@),
        r == exists|j: int| 0 <= j < models_of(a@).len() && #[trigger] spec_values_equal(models_of(a@)[j], b@),
{
    proof {
        lemma_models_of(a@);
        lemma_seq_has_float(models_of(a@));
    }
    let ghost m = models_of(a@);
    let mut i: usize = 0;
    while i < a.len()
        invariant
            i <= a@.len(),
            m == models_of(a@),
            m.len() == a@.len(),
            forall|j: int| 0 <= j < a@.len() ==> #[trigger] m[j] == a@[j]@,
            seq_has_float(m) <==> exists|j: int| 0 <= j < m.len() && #[trigger] has_float(m[j]),
            !seq_has_float(m) && !has_float(b@) ==> forall|j: int| 0 <= j < i ==> #[trigger] m[j] != b@,
            forall|j: int| 0 <= j < i ==> !#[trigger] spec_values_equal(m[j], b@),
        decreases a@.len() - i,
    {
        if values_equal(&a[i], b) {
            proof {
                if !seq_has_float(m) && !has_float(b@) {
                    assert(!has_float(m[i as int]));
                    assert(m[i as int] == b@);
                }
                assert(spec_values_equal(m[i as int], b@));
            }
            return true;
        }
        proof {
            if !seq_has_float(m) && !has_float(b@) {
                assert(!has_float(m[i as int]));
            }
        }
        i += 1;
    }
    false
}

fn is_primitive_exec<F: EvalexprFloat>(v: &Value<F>) -> (r: bool)
    ensures
        r == is_primitive(v@),
{
    matches!(v, Value::String(_) | Value::Int(_) | Value::Float(_) | Value::Boolean(_))
}

fn not_primitive<F: EvalexprFloat>(v: &Value<F>) -> (r: EvalexprError<F>)
    ensures
        r@ == not_primitive_error(v@),
{
    let expected = vec![ValueType::String, ValueType::Int, ValueType::Float, ValueType::Boolean];
    assert(expected@ =~= seq![ValueType::String, ValueType::Int, ValueType::Float, ValueType::Boolean]);
    EvalexprError::type_error(v.copy_value(), expected)
}

/// `contains`: whether the tuple that is the first argument holds the second one.
fn builtin_contains<F: EvalexprFloat>(argument: &Value<F>) -> (r: EvalexprResult<Value<F>, F>)
    ensures
        match tuple_of_len(argument@, 2) {
            Ok(t) => match t[0] {
                VModel::Tuple(a) => if !is_primitive(t[1]) {
                    r matches Err(e) && e@ == not_primitive_error(t[1])
                } else if seq_has_float(a) || has_float(t[1]) {
                    r matches Ok(x) && x@ == VModel::<F>::Boolean(exists|j: int| 0 <= j < a.len() && #[trigger] spec_values_equal(a[j], t[1]))
                } else {
                    r matches Ok(x) && x@ == VModel::<F>::Boolean(a.contains(t[1]))
                },
                _ => r matches Err(e) && e@ == EModel::<F>::ExpectedTuple { actual: t[0] },
            },
            Err(e) => r matches Err(x) && x@ == e,
        },
{
    let items = match tuple_items(argument, 2) {
        Ok(items) => items,
        Err(e) => return Err(e),
    };
    proof { lemma_models_of(items@); }
    match &items[0] {
        Value::Tuple(a) => {
            if is_primitive_exec(&items[1]) {
                Ok(Value::Boolean(tuple_contains(a, &items[1])))
            } else {
                Err(not_primitive(&items[1]))
            }
        },
        _ => Err(EvalexprError::expected_tuple(items[0].copy_value())),
    }
}

/// `contains_any`: whether the tuple that is the first argument holds one of the values of the second.
fn builtin_contains_any<F: EvalexprFloat>(argument: &Value<F>) -> (r: EvalexprResult<Value<F>, F>)
    ensures
        match tuple_of_len(argument@, 2) {
            Ok(t) => match (t[0], t[1]) {
                (VModel::Tuple(a), VModel::Tuple(b)) => match first_non_primitive(b) {
                    Some(v) => r matches Err(e) && e@ == not_primitive_error(v),
                    None => if seq_has_float(a) || seq_has_float(b) {
                        r matches Ok(x) && x@ == VModel::<F>::Boolean(exists|j: int, k: int| 0 <= j < b.len() && 0 <= k < a.len()
                            && #[trigger] spec_values_equal(a[k], b[j]))
                    } else {
                        r matches Ok(x) && x@ == VModel::<F>::Boolean(exists|j: int| 0 <= j < b.len() && a.contains(#[trigger] b[j]))
                    },
                },
                (VModel::Tuple(_), _) => r matches Err(e) && e@ == EModel::<F>::ExpectedTuple { actual: t[1] },
                _ => r matches Err(e) && e@ == EModel::<F>::ExpectedTuple { actual: t[0] },
            },
            Err(e) => r matches Err(x) && x@ == e,
        },
{
    let items = match tuple_items(argument, 2) {
        Ok(items) => items,
        Err(e) => return Err(e),
    };
    proof { lemma_models_of(items@); }
    let a = match &items[0] {
        Value::Tuple(a) => a,
        _ => return Err(EvalexprError::expected_tuple(items[0].copy_value())),
    };
    let b = match &items[1] {
        Value::Tuple(b) => b,
        _ => return Err(EvalexprError::expected_tuple(items[1].copy_value())),
    };
    proof {
        lemma_models_of(a@);
        lemma_models_of(b@);
        lemma_seq_has_float(models_of(b@));
    }
    let ghost ma = models_of(a@);
    let ghost mb = models_of(b@);
    let mut contains = false;
    let mut j: usize = 0;
    while j < b.len()
        invariant
            j <= b@.len(),
            tuple_of_len(argument@, 2) matches Ok(t) && t[0] == VModel::<F>::Tuple(ma) && t[1] == VModel::<F>::Tuple(mb),
            ma == models_of(a@),
            mb == models_of(b@),
            mb.len() == b@.len(),
            forall|k: int| 0 <= k < b@.len() ==> #[trigger] mb[k] == b@[k]@,
            seq_has_float(mb) <==> exists|k: int| 0 <= k < mb.len() && #[trigger] has_float(mb[k]),
            forall|k: int| 0 <= k < j ==> is_primitive(#[trigger] mb[k]),
            !seq_has_float(ma) && !seq_has_float(mb) ==> contains == exists|k: int| 0 <= k < j && ma.contains(#[trigger] mb[k]),
            contains == exists|k: int, l: int| 0 <= k < j && 0 <= l < ma.len() && #[trigger] spec_values_equal(ma[l], mb[k]),
        decreases b@.len() - j,
    {
        let value = &b[j];
        if !is_primitive_exec(value) {
            proof {
                assert(mb[j as int] == value@);
                lemma_first_non_primitive_skip(mb, j as int);
                assert(mb.skip(j as int)[0] == mb[j as int]);
                assert(first_non_primitive(mb.skip(j as int)) == Some(mb[j as int]));
            }
            return Err(not_primitive(value));
        }
        if tuple_contains(a, value) {
            contains = true;
        }
        proof {
            if !seq_has_float(ma) && !seq_has_float(mb) {
                assert(!has_float(mb[j as int]));
                if ma.contains(mb[j as int]) {
                    assert(contains);
                }
                assert(contains == exists|k: int| 0 <= k < j + 1 && ma.contains(#[trigger] mb[k]));
            }
            if contains {
                if exists|l: int| 0 <= l < ma.len() && #[trigger] spec_values_equal(ma[l], mb[j as int]) {
                    let l = choose|l: int| 0 <= l < ma.len() && #[trigger] spec_values_equal(ma[l], mb[j as int]);
                    assert(spec_values_equal(ma[l], mb[j as int]));
                }
            }
            assert(contains == exists|k: int, l: int| 0 <= k < j + 1 && 0 <= l < ma.len() && #[trigger] spec_values_equal(ma[l], mb[k]));
        }
        j += 1;
    }
    proof {
        lemma_first_non_primitive_skip(mb, mb.len() as int);
    }
    Ok(Value::Boolean(contains))
}

/// The number of bytes of the UTF-8 encoding of a character.
fn utf8_width_exec(c: char) -> (r: u8)
    ensures
        r as nat == utf8_width(c),
{
    let n = c as u32;
    if n < 0x80 { 1 } else if n < 0x800 { 2 } else if n < 0x10000 { 3 } else { 4 }
}

/// The byte offsets of the characters of `chars`: entry `k` is where character `k` starts,
/// and the last entry is the byte length.
pub(crate) fn byte_offsets(chars: &Vec<char>) -> (r: Vec<u128>)
    ensures
        r@.len() == chars@.len() + 1,
        forall|k: int| 0 <= k <= chars@.len() ==> #[trigger] r@[k] as nat == byte_offset(chars@, k),
{
    let mut offsets: Vec<u128> = Vec::new();
    let mut total: u128 = 0;
    offsets.push(0);
    let mut i: usize = 0;
    while i < chars.len()
        invariant
            i <= chars@.len(),
            offsets@.len() == i + 1,
            total as nat == byte_offset(chars@, i as int),
            total <= 4 * i,
            forall|k: int| 0 <= k <= i ==> #[trigger] offsets@[k] as nat == byte_offset(chars@, k),
        decreases chars@.len() - i,
    {
        total = total + utf8_width_exec(chars[i]) as u128;
        offsets.push(total);
        i += 1;
    }
    offsets
}

/// A length as an integer value, or the error for a length out of range.
fn int_of_length<F: EvalexprFloat>(n: u128) -> (r: EvalexprResult<Value<F>, F>)
    ensures
        result_model(r) == int_of_len::<F>(n as nat),
{
    if n > 9223372036854775807u128 {
        Err(EvalexprError::IntFromUsize { usize_int: n as usize })
    } else {
        Ok(Value::Int(n as i64))
    }
}

/// `len`: the number of characters of a string, or the number of items of a tuple.
fn builtin_len<F: EvalexprFloat>(argument: &Value<F>) -> (r: EvalexprResult<Value<F>, F>)
    ensures
        result_model(r) == match argument@ {
            VModel::Str(s) => int_of_len::<F>(s.len()),
            VModel::Tuple(t) => int_of_len::<F>(t.len()),
            _ => Err(EModel::TypeError { expected: seq![ValueType::String, ValueType::Tuple], actual: argument@ }),
        },
{
    match argument {
        Value::String(s) => {
            let chars = chars_of(s.as_str());
            int_of_length(chars.len() as u128)
        },
        Value::Tuple(t) => {
            proof { lemma_models_of(t@); }
            int_of_length(t.len() as u128)
        },
        _ => {
            let expected = vec![ValueType::String, ValueType::Tuple];
            assert(expected@ =~= seq![ValueType::String, ValueType::Tuple]);
            Err(EvalexprError::type_error(argument.copy_value(), expected))
        },
    }
}

/// The string a value holds, or `ExpectedString`.
fn string_of<F: EvalexprFloat>(v: &Value<F>) -> (r: EvalexprResult<&String, F>)
    ensures
        match v@ {
            VModel::Str(s) => r matches Ok(x) && x@ == s,
            _ => r matches Err(e) && e@ == EModel::<F>::ExpectedString { actual: v@ },
        },
{
    match v {
        Value::String(s) => Ok(s),
        _ => Err(EvalexprError::expected_string(v.copy_value())),
    }
}

/// `str::regex_matches` and `str::regex_replace`.
fn builtin_regex<F: EvalexprFloat>(replace: bool, argument: &Value<F>) -> (r: EvalexprResult<Value<F>, F>)
    ensures
        !replace ==> result_model(r) == match tuple_of_len(argument@, 2) {
            Ok(t) => if !(t[0] is Str) {
                Err(EModel::ExpectedString { actual: t[0] })
            } else if !(t[1] is Str) {
                Err(EModel::ExpectedString { actual: t[1] })
            } else if regex_accepts(t[1]->Str_0) {
                Ok(VModel::<F>::Boolean(regex_is_match(t[1]->Str_0, t[0]->Str_0)))
            } else {
                Err(EModel::InvalidRegex { regex: t[1]->Str_0, message: regex_error_message(t[1]->Str_0) })
            },
            Err(e) => Err(e),
        },
        replace ==> result_model(r) == match tuple_of_len(argument@, 3) {
            Ok(t) => if !(t[0] is Str) {
                Err(EModel::ExpectedString { actual: t[0] })
            } else if !(t[1] is Str) {
                Err(EModel::ExpectedString { actual: t[1] })
            } else if !(t[2] is Str) {
                Err(EModel::ExpectedString { actual: t[2] })
            } else if regex_accepts(t[1]->Str_0) {
                Ok(VModel::<F>::Str(regex_replace_all(t[1]->Str_0, t[0]->Str_0, t[2]->Str_0)))
            } else {
                Err(EModel::InvalidRegex { regex: t[1]->Str_0, message: regex_error_message(t[1]->Str_0) })
            },
            Err(e) => Err(e),
        },
{
    let items = match tuple_items(argument, if replace { 3 } else { 2 }) {
        Ok(items) => items,
        Err(e) => return Err(e),
    };
    proof { lemma_models_of(items@); }
    let subject = match string_of(&items[0]) {
        Ok(s) => s,
        Err(e) => return Err(e),
    };
    let pattern = match string_of(&items[1]) {
        Ok(s) => s,
        Err(e) => return Err(e),
    };
    if replace {
        let replacement = match string_of(&items[2]) {
            Ok(s) => s,
            Err(e) => return Err(e),
        };
        match regex_compile_error(pattern.as_str()) {
            None => Ok(Value::String(regex_replace(pattern.as_str(), subject.as_str(), replacement.as_str()))),
            Some(message) => Err(EvalexprError::invalid_regex(pattern.clone(), message)),
        }
    } else {
        match regex_compile_error(pattern.as_str()) {
            None => Ok(Value::Boolean(regex_matches(pattern.as_str(), subject.as_str()))),
            Some(message) => Err(EvalexprError::invalid_regex(pattern.clone(), message)),
        }
    }
}

/// `str::trim`: the string without whitespace at its start and its end.
pub fn trim(s: &str) -> (r: String)
    ensures
        r@ == trimmed(s@),
{
    let chars = chars_of(s);
    let mut a: usize = 0;
    while a < chars.len() && is_whitespace(chars[a])
        invariant
            a <= chars@.len(),
            chars@ == s@,
            trim_start_index(s@, 0) == trim_start_index(s@, a as int),
        decreases chars@.len() - a,
    {
        a += 1;
    }
    let mut b: usize = chars.len();
    while b > 0 && is_whitespace(chars[b - 1])
        invariant
            b <= chars@.len(),
            chars@ == s@,
            trim_end_index(s@, s@.len() as int) == trim_end_index(s@, b as int),
        decreases b,
    {
        b -= 1;
    }
    if a < b {
        string_from_range(&chars, a, b)
    } else {
        String::new()
    }
}

/// The byte offset a substring bound stands for, or `None` if it is no `usize`.
fn usize_of(i: i64) -> (r: Option<usize>)
    ensures
        match r {
            Some(u) => !not_a_usize(i as int) && u as int == i as int,
            None => not_a_usize(i as int),
        },
{
    if i < 0 {
        None
    } else if (i as u64) as u128 > usize::MAX as u128 {
        None
    } else {
        Some(i as usize)
    }
}

/// The character index that starts at byte `b`, if there is one.
pub(crate) fn char_index_at_byte(offsets: &Vec<u128>, chars: &Vec<char>, b: u128) -> (r: Option<usize>)
    requires
        offsets@.len() == chars@.len() + 1,
        forall|k: int| 0 <= k <= chars@.len() ==> #[trigger] offsets@[k] as nat == byte_offset(chars@, k),
    ensures
        match r {
            Some(k) => starts_at_byte(chars@, k as int, b as int),
            None => forall|k: int| !starts_at_byte(chars@, k, b as int),
        },
{
    let mut k: usize = 0;
    while k < offsets.len()
        invariant
            k <= offsets@.len(),
            offsets@.len() == chars@.len() + 1,
            forall|j: int| 0 <= j <= chars@.len() ==> #[trigger] offsets@[j] as nat == byte_offset(chars@, j),
            forall|j: int| 0 <= j < k ==> offsets@[j] != b,
        decreases offsets@.len() - k,
    {
        if offsets[k] == b {
            return Some(k);
        }
        k += 1;
    }
    proof {
        assert forall|j: int| !starts_at_byte(chars@, j, b as int) by {
            if 0 <= j <= chars@.len() {
                assert(offsets@[j] as nat == byte_offset(chars@, j));
            }
        }
    }
    None
}

/// `str::substring`: the characters between two byte offsets of a string.
fn builtin_substring<F: EvalexprFloat>(argument: &Value<F>) -> (r: EvalexprResult<Value<F>, F>)
    ensures
        result_model(r) == spec_substring(argument@),
{
    let items = match argument {
        Value::Tuple(t) => {
            proof { lemma_models_of(t@); }
            if !(2 <= t.len() && t.len() <= 3) {
                return Err(EvalexprError::expected_ranged_len_tuple(2, 3, argument.copy_value()));
            }
            t
        },
        _ => return Err(EvalexprError::expected_tuple(argument.copy_value())),
    };
    let subject = match string_of(&items[0]) {
        Ok(s) => s,
        Err(e) => return Err(e),
    };
    let start_int = match &items[1] {
        Value::Int(i) => *i,
        v => return Err(EvalexprError::expected_int(v.copy_value())),
    };
    let start = match usize_of(start_int) {
        Some(u) => u,
        None => return Err(EvalexprError::OutOfBoundsAccess),
    };
    let chars = chars_of(subject.as_str());
    let offsets = byte_offsets(&chars);
    let length = offsets[chars.len()];
    let end: u128 = if items.len() == 3 {
        let end_int = match &items[2] {
            Value::Int(i) => *i,
            v => return Err(EvalexprError::expected_int(v.copy_value())),
        };
        match usize_of(end_int) {
            Some(u) => u as u128,
            None => return Err(EvalexprError::OutOfBoundsAccess),
        }
    } else {
        length
    };
    if start as u128 > end || end > length {
        return Err(EvalexprError::OutOfBoundsAccess);
    }
    let k1 = char_index_at_byte(&offsets, &chars, start as u128);
    let k2 = char_index_at_byte(&offsets, &chars, end);
    match (k1, k2) {
        (Some(k1), Some(k2)) => {
            proof {
                assert(starts_at_byte(chars@, k1 as int, start as int) && starts_at_byte(chars@, k2 as int, end as int));
                let (c1, c2) = choose|c1: int, c2: int| starts_at_byte(chars@, c1, start as int) && starts_at_byte(chars@, c2, end as int);
                lemma_byte_offset_injective(chars@, c1, k1 as int);
                lemma_byte_offset_injective(chars@, c2, k2 as int);
            }
            if k1 <= k2 {
                Ok(Value::String(string_from_range(&chars, k1, k2)))
            } else {
                proof { lemma_byte_offset_monotone(chars@, k2 as int, k1 as int); }
                Err(EvalexprError::OutOfBoundsAccess)
            }
        },
        _ => Err(EvalexprError::OutOfBoundsAccess),
    }
}

pub proof fn lemma_byte_offset_monotone(s: Seq<char>, i: int, j: int)
    requires
        0 <= i <= j <= s.len(),
    ensures
        byte_offset(s, i) <= byte_offset(s, j),
        i < j ==> byte_offset(s, i) < byte_offset(s, j),
    decreases j - i,
{
    if i < j {
        lemma_byte_offset_monotone(s, i, j - 1);
    }
}

pub proof fn lemma_byte_offset_injective(s: Seq<char>, i: int, j: int)
    requires
        0 <= i <= s.len(),
        0 <= j <= s.len(),
        byte_offset(s, i) == byte_offset(s, j),
    ensures
        i == j,
{
    if i < j {
        lemma_byte_offset_monotone(s, i, j);
    } else if j < i {
        lemma_byte_offset_monotone(s, j, i);
    }
}

/// The bitwise functions of two integers.
fn builtin_bitwise2<F: EvalexprFloat>(op: u8, argument: &Value<F>) -> (r: EvalexprResult<Value<F>, F>)
    requires
        op < 5,
    ensures
        result_model(r) == spec_bitwise2::<F>(op as int, argument@),
{
    let items = match tuple_items(argument, 2) {
        Ok(items) => items,
        Err(e) => return Err(e),
    };
    proof { lemma_models_of(items@); }
    let a = match &items[0] {
        Value::Int(i) => *i,
        v => return Err(EvalexprError::expected_int(v.copy_value())),
    };
    let b = match &items[1] {
        Value::Int(i) => *i,
        v => return Err(EvalexprError::expected_int(v.copy_value())),
    };
    let result = if op == 0 { a & b } else if op == 1 { a | b } else if op == 2 { a ^ b }
        else if op == 3 { a.wrapping_shl(b as u32) } else { a.wrapping_shr(b as u32) };
    Ok(Value::Int(result))
}

/// The name of the type of a value.
fn kind_name_of<F: EvalexprFloat>(v: &Value<F>) -> (r: String)
    ensures
        r@ == kind_name(v@),
{
    match v {
        Value::String(_) => {
            let r = string_of_chars(&['s', 't', 'r', 'i', 'n', 'g']);
            assert(r@ =~= seq!['s', 't', 'r', 'i', 'n', 'g']);
            r
        },
        Value::Float(_) => {
            let r = string_of_chars(&['f', 'l', 'o', 'a', 't']);
            assert(r@ =~= seq!['f', 'l', 'o', 'a', 't']);
            r
        },
        Value::Int(_) => {
            let r = string_of_chars(&['i', 'n', 't']);
            assert(r@ =~= seq!['i', 'n', 't']);
            r
        },
        Value::Boolean(_) => {
            let r = string_of_chars(&['b', 'o', 'o', 'l', 'e', 'a', 'n']);
            assert(r@ =~= seq!['b', 'o', 'o', 'l', 'e', 'a', 'n']);
            r
        },
        Value::Tuple(_) => {
            let r = string_of_chars(&['t', 'u', 'p', 'l', 'e']);
            assert(r@ =~= seq!['t', 'u', 'p', 'l', 'e']);
            r
        },
        Value::Empty => {
            let r = string_of_chars(&['e', 'm', 'p', 't', 'y']);
            assert(r@ =~= seq!['e', 'm', 'p', 't', 'y']);
            r
        },
    }
}

/// Calls the builtin function `identifier` with `argument`, or returns `None` if there is no
/// builtin function of that name.
pub fn builtin_function<F: EvalexprFloat>(identifier: &str, argument: &Value<F>) -> (r: Option<EvalexprResult<Value<F>, F>>)
    ensures
        match spec_builtin(identifier@, argument@) {
            BuiltinOutcome::NotBuiltin => r is None,
            BuiltinOutcome::Returns(m) => r matches Some(x) && result_model(x) == m,
            BuiltinOutcome::SomeString => r matches Some(Ok(v)) && v@ is Str,
        },
{
    if let Some(result) = unary_float_function(identifier, argument) {
        return Some(result);
    }
    if let Some(result) = binary_float_function(identifier, argument) {
        return Some(result);
    }
    let result = if str_equal(identifier, "math::abs") {
        match argument {
            Value::Float(f) => Ok(Value::Float(f.abs())),
            Value::Int(i) => {
                if *i == i64::MIN {
                    Err(EvalexprError::NegationError { argument: argument.copy_value() })
                } else if *i < 0 {
                    Ok(Value::Int(-*i))
                } else {
                    Ok(Value::Int(*i))
                }
            },
            _ => Err(EvalexprError::expected_number(argument.copy_value())),
        }
    } else if str_equal(identifier, "typeof") {
        Ok(Value::String(kind_name_of(argument)))
    } else if str_equal(identifier, "min") {
        min_max(true, argument)
    } else if str_equal(identifier, "max") {
        min_max(false, argument)
    } else if str_equal(identifier, "if") {
        match tuple_items(argument, 3) {
            Ok(items) => {
                proof { lemma_models_of(items@); }
                match &items[0] {
                    Value::Boolean(b) => Ok(if *b { items[1].copy_value() } else { items[2].copy_value() }),
                    v => Err(EvalexprError::expected_boolean(v.copy_value())),
                }
            },
            Err(e) => Err(e),
        }
    } else if str_equal(identifier, "contains") {
        builtin_contains(argument)
    } else if str_equal(identifier, "contains_any") {
        builtin_contains_any(argument)
    } else if str_equal(identifier, "len") {
        builtin_len(argument)
    } else if str_equal(identifier, "str::regex_matches") {
        builtin_regex(false, argument)
    } else if str_equal(identifier, "str::regex_replace") {
        builtin_regex(true, argument)
    } else if str_equal(identifier, "str::to_lowercase") {
        match string_of(argument) {
            Ok(s) => Ok(Value::String(to_lowercase(s.as_str()))),
            Err(e) => Err(e),
        }
    } else if str_equal(identifier, "str::to_uppercase") {
        match string_of(argument) {
            Ok(s) => Ok(Value::String(to_uppercase(s.as_str()))),
            Err(e) => Err(e),
        }
    } else if str_equal(identifier, "str::trim") {
        match string_of(argument) {
            Ok(s) => Ok(Value::String(trim(s.as_str()))),
            Err(e) => Err(e),
        }
    } else if str_equal(identifier, "str::from") {
        Ok(Value::String(argument.str_from()))
    } else if str_equal(identifier, "str::substring") {
        builtin_substring(argument)
    } else if str_equal(identifier, "bitand") {
        builtin_bitwise2(0, argument)
    } else if str_equal(identifier, "bitor") {
        builtin_bitwise2(1, argument)
    } else if str_equal(identifier, "bitxor") {
        builtin_bitwise2(2, argument)
    } else if str_equal(identifier, "bitnot") {
        match argument {
            Value::Int(i) => {
                let x: i64 = *i;
                assert(!x == -x - 1) by (bit_vector);
                Ok(Value::Int(!x))
            },
            _ => Err(EvalexprError::expected_int(argument.copy_value())),
        }
    } else if str_equal(identifier, "shl") {
        builtin_bitwise2(3, argument)
    } else if str_equal(identifier, "shr") {
        builtin_bitwise2(4, argument)
    } else {
        return None;
    };
    Some(result)
}

} // verus!
