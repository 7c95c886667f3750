//! Recognition of range identifiers such as `1..5`.
use vstd::prelude::*;
use crate::text::{chars_of, find_chars, find_from};

verus! {

/// Whether an identifier denotes a range: whether it contains `..`.
pub fn is_range(ident: &str) -> (r: bool)
    ensures
        r == (find_from(ident@, seq!['.', '.'], 0) is Some),
{
    let chars = chars_of(ident);
    let dots: Vec<char> = vec!['.', '.'];
    assert(dots@ =~= seq!['.', '.']);
    find_chars(&chars, &dots, 0).is_some()
}

} // verus!
