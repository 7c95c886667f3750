//! Names of the columns that calculation templates read and write.
use vstd::prelude::*;
use crate::text::{chars_of, push_char, push_str, spec_is_ascii_alphanumeric, is_ascii_alphanumeric, decimal_string, int_to_string, string_of_chars};
use crate::numeric::EvalexprFloat;
use crate::value::{Value, VModel, bool_text, bool_to_string};
use crate::ffi::debug_text;

verus! {

/// A character as it stands in a sanitized name: itself if it is an ASCII letter or digit, else `ch`.
pub open spec fn sanitized_char(c: char, ch: char) -> char {
    if spec_is_ascii_alphanumeric(c) { c } else { ch }
}

/// `s` with each pair of `ch` that follow each other replaced by one `ch`, scanning from the left
/// (as `str::replace` of `chch` by `ch` does: `chchch` becomes `chch`).
pub open spec fn collapse_pairs(s: Seq<char>, ch: char) -> Seq<char>
    decreases s.len(),
{
    if s.len() == 0 {
        Seq::empty()
    } else if s.len() >= 2 && s[0] == ch && s[1] == ch {
        seq![ch] + collapse_pairs(s.skip(2), ch)
    } else {
        seq![s[0]] + collapse_pairs(s.skip(1), ch)
    }
}

/// The sanitized form of a text: every character that is no ASCII letter or digit becomes `ch`,
/// then pairs of `ch` are collapsed.
pub open spec fn sanitized(s: Seq<char>, ch: char) -> Seq<char> {
    collapse_pairs(s.map_values(|c: char| sanitized_char(c, ch)), ch)
}

/// Sanitizes a text for use in a column name: every character that is no ASCII letter or digit
/// becomes `ch`, then each pair of `ch` is replaced by a single one.
pub fn sanitize_with_char(value: &str, ch: char) -> (r: String)
    ensures
        r@ == sanitized(value@, ch),
{
    let chars = chars_of(value);
    let mut mapped: Vec<char> = Vec::new();
    let mut i: usize = 0;
    while i < chars.len()
        invariant
            i <= chars@.len(),
            chars@ == value@,
            mapped@ == value@.subrange(0, i as int).map_values(|c: char| sanitized_char(c, ch)),
        decreases chars@.len() - i,
    {
        let c = chars[i];
        mapped.push(if is_ascii_alphanumeric(c) { c } else { ch });
        proof {
            assert(value@.subrange(0, i + 1).map_values(|c: char| sanitized_char(c, ch))
                =~= value@.subrange(0, i as int).map_values(|c: char| sanitized_char(c, ch)).push(sanitized_char(c, ch)));
        }
        i += 1;
    }
    proof {
        assert(value@.subrange(0, value@.len() as int) =~= value@);
    }
    let ghost t = mapped@;
    let mut result = String::new();
    let mut j: usize = 0;
    proof {
        assert(t.skip(0) =~= t);
    }
    while j < mapped.len()
        invariant
            j <= mapped@.len(),
            t == mapped@,
            result@ + collapse_pairs(t.skip(j as int), ch) == collapse_pairs(t, ch),
        decreases mapped@.len() - j,
    {
        let ghost rest = t.skip(j as int);
        if j + 1 < mapped.len() && mapped[j] == ch && mapped[j + 1] == ch {
            proof {
                assert(rest[0] == ch && rest[1] == ch);
                assert(rest.skip(2) =~= t.skip(j + 2));
                assert(result@.push(ch) + collapse_pairs(t.skip(j + 2), ch) =~= result@ + (seq![ch] + collapse_pairs(rest.skip(2), ch)));
            }
            push_char(&mut result, ch);
            j += 2;
        } else {
            let c = mapped[j];
            proof {
                assert(rest[0] == c);
                assert(rest.skip(1) =~= t.skip(j + 1));
                assert(result@.push(c) + collapse_pairs(t.skip(j + 1), ch) =~= result@ + (seq![c] + collapse_pairs(rest.skip(1), ch)));
            }
            push_char(&mut result, c);
            j += 1;
        }
    }
    proof {
        assert(collapse_pairs(t.skip(j as int), ch) == Seq::<char>::empty());
        assert(result@ + Seq::<char>::empty() =~= result@);
    }
    result
}

/// The text of a value in a column name: a string as it is, a float as the float type's
/// `to_display_string` writes it, an integer in decimal, a boolean as `true` or `false`, the empty
/// value as `null`. `None` for a tuple, which is written as `{:?}` writes it.
pub open spec fn column_text<F: EvalexprFloat>(v: VModel<F>) -> Option<Seq<char>> {
    match v {
        VModel::Str(s) => Some(s),
        VModel::Float(f) => Some(f.spec_to_display_string()),
        VModel::Int(i) => Some(decimal_string(i)),
        VModel::Boolean(b) => Some(bool_text(b)),
        VModel::Empty => Some(seq!['n', 'u', 'l', 'l']),
        _ => None,
    }
}

/// The text of a value in a column name: a string as it is, a float as the float type displays
/// it, an integer in decimal, a boolean as `true` or `false`, a tuple as `{:?}` writes it, the
/// empty value as `null`.
pub fn get_string<F: EvalexprFloat + core::fmt::Debug>(value: &Value<F>) -> (r: String)
    ensures
        column_text(value@) matches Some(s) ==> r@ == s,
{
    match value {
        Value::String(v) => v.clone(),
        Value::Float(v) => v.to_display_string(),
        Value::Int(v) => int_to_string(*v),
        Value::Boolean(v) => bool_to_string(*v),
        Value::Tuple(v) => debug_text(v),
        Value::Empty => {
            let r = string_of_chars(&['n', 'u', 'l', 'l']);
            assert(r@ =~= seq!['n', 'u', 'l', 'l']);
            r
        },
    }
}

/// The name of the column that holds `field` for the value `p1`: the field, `__`, and the text of
/// the value sanitized with `x`.
pub fn generate_column_name<F: EvalexprFloat + core::fmt::Debug>(field: &str, p1: &Value<F>) -> (r: String)
    ensures
        column_text(p1@) matches Some(t) ==> r@ == field@ + seq!['_', '_'] + sanitized(t, 'x'),
{
    let mut r = field.to_owned();
    push_char(&mut r, '_');
    push_char(&mut r, '_');
    let text = get_string(p1);
    let clean = sanitize_with_char(text.as_str(), 'x');
    push_str(&mut r, clean.as_str());
    proof {
        if column_text(p1@) is Some {
            assert(r@ =~= field@ + seq!['_', '_'] + sanitized(text@, 'x'));
        }
    }
    r
}

} // verus!
