//! Recognition of the literals of the expression language: integers (decimal and
//! hexadecimal), floats (Rust's float syntax) and booleans.
use vstd::prelude::*;
use crate::text::{spec_is_digit, chars_equal};

verus! {

/// The value of a decimal digit.
pub open spec fn digit_value(c: char) -> int {
    c as int - '0' as int
}

/// The value of a hexadecimal digit (either case).
pub open spec fn hex_digit_value(c: char) -> int {
    if '0' <= c && c <= '9' {
        c as int - '0' as int
    } else if 'a' <= c && c <= 'f' {
        c as int - 'a' as int + 10
    } else {
        c as int - 'A' as int + 10
    }
}

pub open spec fn spec_is_hex_digit(c: char) -> bool {
    ('0' <= c && c <= '9') || ('a' <= c && c <= 'f') || ('A' <= c && c <= 'F')
}

/// The number that a sequence of decimal digits denotes.
pub open spec fn decimal_value(s: Seq<char>) -> int
    decreases s.len(),
{
    if s.len() == 0 {
        0
    } else {
        decimal_value(s.drop_last()) * 10 + digit_value(s.last())
    }
}

/// The number that a sequence of hexadecimal digits denotes.
pub open spec fn hex_value(s: Seq<char>) -> int
    decreases s.len(),
{
    if s.len() == 0 {
        0
    } else {
        hex_value(s.drop_last()) * 16 + hex_digit_value(s.last())
    }
}

pub open spec fn all_digits(s: Seq<char>) -> bool {
    forall|i: int| 0 <= i < s.len() ==> spec_is_digit(#[trigger] s[i])
}

pub open spec fn all_hex_digits(s: Seq<char>) -> bool {
    forall|i: int| 0 <= i < s.len() ==> spec_is_hex_digit(#[trigger] s[i])
}

pub open spec fn starts_with_hex_prefix(s: Seq<char>) -> bool {
    s.len() >= 2 && s[0] == '0' && s[1] == 'x'
}

/// The integer a literal denotes: `0x` followed by hexadecimal digits, or decimal digits,
/// provided the value fits in an `i64`.
pub open spec fn spec_int_literal(lit: Seq<char>) -> Option<int> {
    if starts_with_hex_prefix(lit) {
        let h = lit.skip(2);
        if h.len() > 0 && all_hex_digits(h) && hex_value(h) <= i64::MAX {
            Some(hex_value(h))
        } else {
            None
        }
    } else if lit.len() > 0 && all_digits(lit) && decimal_value(lit) <= i64::MAX {
        Some(decimal_value(lit))
    } else {
        None
    }
}

proof fn lemma_decimal_monotone(s: Seq<char>, i: int, j: int)
    requires
        0 <= i <= j <= s.len(),
        all_digits(s),
    ensures
        decimal_value(s.subrange(0, i)) <= decimal_value(s.subrange(0, j)),
    decreases j - i,
{
    if i < j {
        lemma_decimal_monotone(s, i, j - 1);
        assert(s.subrange(0, j).drop_last() =~= s.subrange(0, j - 1));
        assert(decimal_value(s.subrange(0, j - 1)) >= 0) by {
            lemma_decimal_nonneg(s.subrange(0, j - 1));
        }
        assert(spec_is_digit(s[j - 1]));
    }
}

proof fn lemma_decimal_nonneg(s: Seq<char>)
    requires
        all_digits(s),
    ensures
        decimal_value(s) >= 0,
    decreases s.len(),
{
    if s.len() > 0 {
        assert(all_digits(s.drop_last()));
        lemma_decimal_nonneg(s.drop_last());
        assert(spec_is_digit(s[s.len() - 1]));
    }
}

proof fn lemma_hex_monotone(s: Seq<char>, i: int, j: int)
    requires
        0 <= i <= j <= s.len(),
        all_hex_digits(s),
    ensures
        hex_value(s.subrange(0, i)) <= hex_value(s.subrange(0, j)),
    decreases j - i,
{
    if i < j {
        lemma_hex_monotone(s, i, j - 1);
        assert(s.subrange(0, j).drop_last() =~= s.subrange(0, j - 1));
        lemma_hex_nonneg(s.subrange(0, j - 1));
        assert(spec_is_hex_digit(s[j - 1]));
    }
}

proof fn lemma_hex_nonneg(s: Seq<char>)
    requires
        all_hex_digits(s),
    ensures
        hex_value(s) >= 0,
    decreases s.len(),
{
    if s.len() > 0 {
        assert(all_hex_digits(s.drop_last()));
        lemma_hex_nonneg(s.drop_last());
        assert(spec_is_hex_digit(s[s.len() - 1]));
    }
}

/// Parses the digits `chars[start..]` in the given radix (10 or 16), or returns `None`
/// if one is not a digit of that radix or the value does not fit in an `i64`.
fn parse_digits(chars: &Vec<char>, start: usize, hex: bool) -> (r: Option<i64>)
    requires
        start <= chars@.len(),
    ensures
        ({
            let s = chars@.skip(start as int);
            if hex {
                r == (if all_hex_digits(s) && hex_value(s) <= i64::MAX { Some(hex_value(s) as i64) } else { None::<i64> })
            } else {
                r == (if all_digits(s) && decimal_value(s) <= i64::MAX { Some(decimal_value(s) as i64) } else { None::<i64> })
            }
        }),
{
    let ghost s = chars@.skip(start as int);
    let mut value: i64 = 0;
    let mut i: usize = start;
    while i < chars.len()
        invariant
            start <= i <= chars@.len(),
            s == chars@.skip(start as int),
            hex ==> all_hex_digits(s.subrange(0, i - start)),
            hex ==> value as int == hex_value(s.subrange(0, i - start)),
            !hex ==> all_digits(s.subrange(0, i - start)),
            !hex ==> value as int == decimal_value(s.subrange(0, i - start)),
            value >= 0,
        decreases chars@.len() - i,
    {
        let c = chars[i];
        let ghost k = (i - start) as int;
        assert(s[k] == c);
        assert(s.subrange(0, k + 1).drop_last() =~= s.subrange(0, k));
        assert(s.subrange(0, k + 1).last() == c);
        if hex {
            let d: i64 = if '0' <= c && c <= '9' {
                (c as u32 - '0' as u32) as i64
            } else if 'a' <= c && c <= 'f' {
                (c as u32 - 'a' as u32 + 10) as i64
            } else if 'A' <= c && c <= 'F' {
                (c as u32 - 'A' as u32 + 10) as i64
            } else {
                assert(!all_hex_digits(s));
                return None;
            };
            if value > (i64::MAX - d) / 16 {
                proof {
                    assert(all_hex_digits(s.subrange(0, k + 1))) by {
                        assert forall|j: int| 0 <= j < k + 1 implies spec_is_hex_digit(#[trigger] s.subrange(0, k + 1)[j]) by {
                            if j < k {
                                assert(s.subrange(0, k + 1)[j] == s.subrange(0, k)[j]);
                            }
                        }
                    }
                    assert(hex_value(s.subrange(0, k + 1)) > i64::MAX);
                    if all_hex_digits(s) {
                        lemma_hex_monotone(s, k + 1, s.len() as int);
                        assert(s.subrange(0, s.len() as int) =~= s);
                    }
                }
                return None;
            }
            value = value * 16 + d;
            proof {
                assert forall|j: int| 0 <= j < k + 1 implies spec_is_hex_digit(#[trigger] s.subrange(0, k + 1)[j]) by {
                    if j < k {
                        assert(s.subrange(0, k + 1)[j] == s.subrange(0, k)[j]);
                    }
                }
            }
        } else {
            if !('0' <= c && c <= '9') {
                assert(!all_digits(s));
                return None;
            }
            let d: i64 = (c as u32 - '0' as u32) as i64;
            if value > (i64::MAX - d) / 10 {
                proof {
                    assert(all_digits(s.subrange(0, k + 1))) by {
                        assert forall|j: int| 0 <= j < k + 1 implies spec_is_digit(#[trigger] s.subrange(0, k + 1)[j]) by {
                            if j < k {
                                assert(s.subrange(0, k + 1)[j] == s.subrange(0, k)[j]);
                            }
                        }
                    }
                    assert(decimal_value(s.subrange(0, k + 1)) > i64::MAX);
                    if all_digits(s) {
                        lemma_decimal_monotone(s, k + 1, s.len() as int);
                        assert(s.subrange(0, s.len() as int) =~= s);
                    }
                }
                return None;
            }
            value = value * 10 + d;
            proof {
                assert forall|j: int| 0 <= j < k + 1 implies spec_is_digit(#[trigger] s.subrange(0, k + 1)[j]) by {
                    if j < k {
                        assert(s.subrange(0, k + 1)[j] == s.subrange(0, k)[j]);
                    }
                }
            }
        }
        i += 1;
    }
    proof {
        assert(s.subrange(0, s.len() as int) =~= s);
    }
    Some(value)
}

/// The value of an integer literal lies in the range of `i64`.
pub proof fn lemma_int_literal_range(lit: Seq<char>)
    ensures
        spec_int_literal(lit) matches Some(v) ==> 0 <= v <= i64::MAX,
{
    if starts_with_hex_prefix(lit) {
        if all_hex_digits(lit.skip(2)) {
            lemma_hex_nonneg(lit.skip(2));
        }
    } else if all_digits(lit) {
        lemma_decimal_nonneg(lit);
    }
}

/// Parses an integer literal: `0x` followed by hexadecimal digits, or decimal digits.
pub fn parse_int_literal(lit: &Vec<char>) -> (r: Option<i64>)
    ensures
        match spec_int_literal(lit@) {
            Some(v) => r == Some(v as i64) && v == r->0 as int,
            None => r is None,
        },
{
    proof { lemma_int_literal_range(lit@); }
    if lit.len() >= 2 && lit[0] == '0' && lit[1] == 'x' {
        if lit.len() == 2 {
            return None;
        }
        parse_digits(lit, 2, true)
    } else {
        if lit.len() == 0 {
            return None;
        }
        proof {
            assert(lit@.skip(0) =~= lit@);
        }
        parse_digits(lit, 0, false)
    }
}

/// Whether `c` equals the lower-case letter `w` up to ASCII case.
pub open spec fn char_eq_ignore_case(c: char, w: char) -> bool {
    c == w || ('A' <= c && c <= 'Z' && (c as u32) + 32 == w as u32)
}

/// Whether `s` equals `word` (given in lower case) up to ASCII case.
pub open spec fn eq_ignore_case(s: Seq<char>, word: Seq<char>) -> bool {
    s.len() == word.len() && forall|i: int| 0 <= i < s.len() ==> char_eq_ignore_case(#[trigger] s[i], word[i])
}

/// The first index at or after `i` that does not hold a decimal digit.
pub open spec fn digits_end(s: Seq<char>, i: int) -> int
    decreases s.len() - i,
{
    if i < 0 || i >= s.len() || !spec_is_digit(s[i]) {
        i
    } else {
        digits_end(s, i + 1)
    }
}

/// The unsigned float syntax of Rust's `f64::from_str`:
/// `inf`, `infinity`, `nan` (any case), or `Digit+ | Digit+ '.' Digit* | Digit* '.' Digit+`
/// followed by an optional exponent `('e' | 'E') Sign? Digit+`.
pub open spec fn is_unsigned_float(t: Seq<char>) -> bool {
    if eq_ignore_case(t, seq!['i', 'n', 'f']) || eq_ignore_case(t, seq!['i', 'n', 'f', 'i', 'n', 'i', 't', 'y'])
        || eq_ignore_case(t, seq!['n', 'a', 'n']) {
        true
    } else {
        let i1 = digits_end(t, 0);
        let has_dot = i1 < t.len() && t[i1] == '.';
        let i2 = if has_dot { digits_end(t, i1 + 1) } else { i1 };
        let mantissa_digits = if has_dot { i1 + (i2 - (i1 + 1)) } else { i1 };
        if mantissa_digits == 0 {
            false
        } else if i2 == t.len() {
            true
        } else if t[i2] == 'e' || t[i2] == 'E' {
            let i3 = if i2 + 1 < t.len() && (t[i2 + 1] == '+' || t[i2 + 1] == '-') { i2 + 2 } else { i2 + 1 };
            let i4 = digits_end(t, i3);
            i4 > i3 && i4 == t.len()
        } else {
            false
        }
    }
}

/// Rust's float syntax: an optional sign followed by an unsigned float.
pub open spec fn is_float_literal(s: Seq<char>) -> bool {
    if s.len() > 0 && (s[0] == '+' || s[0] == '-') {
        is_unsigned_float(s.skip(1))
    } else {
        is_unsigned_float(s)
    }
}

fn scan_digits(t: &Vec<char>, start: usize) -> (r: usize)
    requires
        start <= t@.len(),
    ensures
        r == digits_end(t@, start as int),
        start <= r <= t@.len(),
    decreases t@.len() - start,
{
    if start < t.len() && '0' <= t[start] && t[start] <= '9' {
        scan_digits(t, start + 1)
    } else {
        start
    }
}

fn eq_ignore_case_exec(t: &Vec<char>, start: usize, word: &Vec<char>) -> (r: bool)
    requires
        start <= t@.len(),
    ensures
        r == eq_ignore_case(t@.skip(start as int), word@),
{
    let ghost s = t@.skip(start as int);
    if t.len() - start != word.len() {
        return false;
    }
    let n = t.len();
    let mut i: usize = 0;
    while i < word.len()
        invariant
            n == t@.len(),
            s == t@.skip(start as int),
            s.len() == word@.len(),
            start + word@.len() == t@.len(),
            i <= word@.len(),
            forall|j: int| 0 <= j < i ==> char_eq_ignore_case(#[trigger] s[j], word@[j]),
        decreases word@.len() - i,
    {
        assert(start + i < t@.len());
        let c = t[start + i];
        let w = word[i];
        assert(s[i as int] == c);
        if !(c == w || ('A' <= c && c <= 'Z' && (c as u32) + 32 == w as u32)) {
            return false;
        }
        i += 1;
    }
    true
}

/// Whether `t[start..]` is an unsigned float in Rust's float syntax.
fn is_unsigned_float_exec(t: &Vec<char>, start: usize) -> (r: bool)
    requires
        start <= t@.len(),
    ensures
        r == is_unsigned_float(t@.skip(start as int)),
{
    let ghost s = t@.skip(start as int);
    let inf = vec!['i', 'n', 'f'];
    let infinity = vec!['i', 'n', 'f', 'i', 'n', 'i', 't', 'y'];
    let nan = vec!['n', 'a', 'n'];
    assert(inf@ =~= seq!['i', 'n', 'f']);
    assert(infinity@ =~= seq!['i', 'n', 'f', 'i', 'n', 'i', 't', 'y']);
    assert(nan@ =~= seq!['n', 'a', 'n']);
    if eq_ignore_case_exec(t, start, &inf) || eq_ignore_case_exec(t, start, &infinity) || eq_ignore_case_exec(t, start, &nan) {
        return true;
    }
    let i1 = scan_digits(t, start);
    proof { lemma_digits_end_shift(t@, start as int, start as int); }
    let has_dot = i1 < t.len() && t[i1] == '.';
    let i2 = if has_dot { scan_digits(t, i1 + 1) } else { i1 };
    proof {
        if has_dot {
            lemma_digits_end_shift(t@, start as int, i1 + 1);
        }
    }
    let mantissa_digits = if has_dot { (i1 - start) + (i2 - (i1 + 1)) } else { i1 - start };
    if mantissa_digits == 0 {
        false
    } else if i2 == t.len() {
        true
    } else if t[i2] == 'e' || t[i2] == 'E' {
        let i3 = if i2 + 1 < t.len() && (t[i2 + 1] == '+' || t[i2 + 1] == '-') { i2 + 2 } else { i2 + 1 };
        let i4 = scan_digits(t, i3);
        proof { lemma_digits_end_shift(t@, start as int, i3 as int); }
        i4 > i3 && i4 == t.len()
    } else {
        false
    }
}

proof fn lemma_digits_end_shift(t: Seq<char>, start: int, i: int)
    requires
        0 <= start <= i <= t.len(),
    ensures
        digits_end(t.skip(start), i - start) == digits_end(t, i) - start,
    decreases t.len() - i,
{
    if i < t.len() {
        assert(t.skip(start)[i - start] == t[i]);
        if spec_is_digit(t[i]) {
            lemma_digits_end_shift(t, start, i + 1);
        }
    }
}

/// Whether `lit` is a float literal in Rust's float syntax.
pub fn is_float_literal_exec(lit: &Vec<char>) -> (r: bool)
    ensures
        r == is_float_literal(lit@),
{
    if lit.len() > 0 && (lit[0] == '+' || lit[0] == '-') {
        is_unsigned_float_exec(lit, 1)
    } else {
        assert(lit@.skip(0) =~= lit@);
        is_unsigned_float_exec(lit, 0)
    }
}

/// The boolean a literal denotes, if it is `true` or `false`.
pub open spec fn spec_bool_literal(lit: Seq<char>) -> Option<bool> {
    if lit == seq!['t', 'r', 'u', 'e'] {
        Some(true)
    } else if lit == seq!['f', 'a', 'l', 's', 'e'] {
        Some(false)
    } else {
        None
    }
}

/// Parses `true` or `false`.
pub fn parse_bool_literal(lit: &Vec<char>) -> (r: Option<bool>)
    ensures
        r == spec_bool_literal(lit@),
{
    let t = vec!['t', 'r', 'u', 'e'];
    let f = vec!['f', 'a', 'l', 's', 'e'];
    assert(t@ =~= seq!['t', 'r', 'u', 'e']);
    assert(f@ =~= seq!['f', 'a', 'l', 's', 'e']);
    if chars_equal(lit, &t) {
        Some(true)
    } else if chars_equal(lit, &f) {
        Some(false)
    } else {
        None
    }
}

} // verus!
