//! Reading the parts of an operator uri that name a report: its key and its parameters.
use vstd::prelude::*;
use crate::numeric::EvalexprFloat;
use crate::value::{Value, VModel};
use crate::error::{EvalexprResult, EModel};
use crate::text::{chars_of, find_chars, find_from, lemma_find_from, string_from_range, str_equal};
use crate::builtin::{trim, trimmed};
use crate::ffi::{Error, ErrorModel};
use crate::error_display::{error_text, text_holds};

verus! {

/// The word after which the parameters of a uri stand.
pub open spec fn params_word() -> Seq<char> {
    seq!['p', 'a', 'r', 'a', 'm', 's']
}

/// What separates two parameters.
pub open spec fn parameter_separator() -> Seq<char> {
    seq!['b', 'b', 'b']
}

/// What separates the name of a parameter from its value.
pub open spec fn pair_separator() -> Seq<char> {
    seq!['y', 'y', 'y']
}

/// The pieces into which `str::split` cuts `s[pos..]` at each occurrence of `sep`, from the left.
pub open spec fn pieces_from(s: Seq<char>, sep: Seq<char>, pos: int) -> Seq<Seq<char>>
    decreases s.len() - pos,
{
    if pos < 0 || pos > s.len() || sep.len() == 0 {
        seq![s.subrange(pos, s.len() as int)]
    } else {
        match find_from(s, sep, pos) {
            Some(j) => {
                proof {
                    lemma_find_from(s, sep, pos);
                }
                seq![s.subrange(pos, j)] + pieces_from(s, sep, j + sep.len())
            },
            None => seq![s.subrange(pos, s.len() as int)],
        }
    }
}

/// `str::split` gives at least one piece.
proof fn lemma_pieces_nonempty(s: Seq<char>, sep: Seq<char>, pos: int)
    ensures
        pieces_from(s, sep, pos).len() >= 1,
{
}

/// The name and the value that a piece holds: the two parts around its one `yyy`, trimmed.
/// A piece with no `yyy`, or with more than one, holds none.
pub open spec fn pair_of(piece: Seq<char>) -> Option<(Seq<char>, Seq<char>)> {
    let parts = pieces_from(piece, pair_separator(), 0);
    if parts.len() == 2 {
        Some((trimmed(parts[0]), trimmed(parts[1])))
    } else {
        None
    }
}

/// The parameters that the pieces hold, a later value of a name replacing an earlier one.
pub open spec fn params_map(pieces: Seq<Seq<char>>) -> Map<Seq<char>, Seq<char>>
    decreases pieces.len(),
{
    if pieces.len() == 0 {
        Map::empty()
    } else {
        let m = params_map(pieces.drop_last());
        match pair_of(pieces.last()) {
            Some((k, v)) => m.insert(k, v),
            None => m,
        }
    }
}

/// The parameters of a uri: what follows the first `params` is cut at each `bbb`, and each
/// piece of the form `name yyy value` gives a parameter. A uri without `params` has none.
pub open spec fn spec_extract_parameters(s: Seq<char>) -> Map<Seq<char>, Seq<char>> {
    match find_from(s, params_word(), 0) {
        Some(i) => params_map(pieces_from(s, parameter_separator(), i + 6)),
        None => Map::empty(),
    }
}

/// No two entries have the same name.
pub open spec fn names_distinct(v: Seq<(String, String)>) -> bool {
    forall|i: int, j: int| 0 <= i < j < v.len() ==> (#[trigger] v[i]).0@ != (#[trigger] v[j]).0@
}

/// The entries hold exactly the map `m`: one entry per name, with its value.
pub open spec fn represents(v: Seq<(String, String)>, m: Map<Seq<char>, Seq<char>>) -> bool {
    &&& names_distinct(v)
    &&& forall|i: int| 0 <= i < v.len() ==> m.contains_key((#[trigger] v[i]).0@) && m[v[i].0@] == v[i].1@
    &&& forall|k: Seq<char>| #[trigger] m.contains_key(k) ==> exists|i: int| 0 <= i < v.len() && (#[trigger] v[i]).0@ == k
}

/// The characters of `chars` from `start` to `end`.
fn sub_chars(chars: &Vec<char>, start: usize, end: usize) -> (r: Vec<char>)
    requires
        start <= end <= chars@.len(),
    ensures
        r@ == chars@.subrange(start as int, end as int),
{
    let mut r: Vec<char> = Vec::new();
    let mut i: usize = start;
    while i < end
        invariant
            start <= i <= end <= chars@.len(),
            r@ == chars@.subrange(start as int, i as int),
        decreases end - i,
    {
        r.push(chars[i]);
        proof {
            assert(chars@.subrange(start as int, i + 1) =~= chars@.subrange(start as int, i as int).push(chars@[i as int]));
        }
        i += 1;
    }
    r
}

/// The name and the value that a piece holds, if it holds one.
fn pair_in(piece: &Vec<char>) -> (r: Option<(String, String)>)
    ensures
        match pair_of(piece@) {
            Some((k, v)) => r matches Some(p) && p.0@ == k && p.1@ == v,
            None => r is None,
        },
{
    let sep: Vec<char> = vec!['y', 'y', 'y'];
    assert(sep@ =~= pair_separator());
    let ghost parts = pieces_from(piece@, pair_separator(), 0);
    proof {
        lemma_find_from(piece@, pair_separator(), 0);
    }
    match find_chars(piece, &sep, 0) {
        None => {
            assert(parts.len() == 1);
            None
        },
        Some(j) => {
            let n: usize = piece.len();
            assert(j + 3 <= n);
            assert(find_from(piece@, pair_separator(), 0) == Some(j as int));
            assert(pair_separator().len() == 3);
            proof {
                lemma_find_from(piece@, pair_separator(), j + 3);
            }
            let ghost rest = pieces_from(piece@, pair_separator(), j + 3);
            assert(parts == seq![piece@.subrange(0, j as int)] + rest);
            match find_chars(piece, &sep, j + 3) {
                Some(j2) => {
                    proof {
                        lemma_pieces_nonempty(piece@, pair_separator(), j2 + 3);
                    }
                    assert(rest.len() >= 2);
                    None
                },
                None => {
                    assert(rest == seq![piece@.subrange(j + 3, piece@.len() as int)]);
                    assert(parts.len() == 2);
                    let key_text = string_from_range(piece, 0, j);
                    let value_text = string_from_range(piece, j + 3, piece.len());
                    let key = trim(key_text.as_str());
                    let value = trim(value_text.as_str());
                    Some((key, value))
                },
            }
        },
    }
}

/// Sets the value of a name among the entries: replaces the value of the entry with that name,
/// or adds an entry.
fn upsert(entries: &mut Vec<(String, String)>, key: String, value: String, Ghost(m): Ghost<Map<Seq<char>, Seq<char>>>)
    requires
        represents(old(entries)@, m),
    ensures
        represents(final(entries)@, m.insert(key@, value@)),
{
    let mut i: usize = 0;
    while i < entries.len()
        invariant
            i <= entries@.len(),
            entries@ == old(entries)@,
            represents(entries@, m),
            forall|j: int| 0 <= j < i ==> (#[trigger] entries@[j]).0@ != key@,
        decreases entries@.len() - i,
    {
        if str_equal(entries[i].0.as_str(), key.as_str()) {
            let ghost before = entries@;
            let ghost name = key@;
            let ghost text = value@;
            entries.set(i, (key, value));
            proof {
                let mm = m.insert(name, text);
                assert forall|a: int, b: int| 0 <= a < b < entries@.len() implies (#[trigger] entries@[a]).0@ != (#[trigger] entries@[b]).0@ by {
                    assert(before[a].0@ != before[b].0@);
                }
                assert forall|a: int| 0 <= a < entries@.len() implies mm.contains_key((#[trigger] entries@[a]).0@) && mm[entries@[a].0@] == entries@[a].1@ by {
                    if a != i {
                        assert(before[a].0@ != before[i as int].0@);
                    }
                }
                assert forall|k: Seq<char>| #[trigger] mm.contains_key(k) implies exists|a: int| 0 <= a < entries@.len() && (#[trigger] entries@[a]).0@ == k by {
                    if k == name {
                        assert(entries@[i as int].0@ == k);
                    } else {
                        let a = choose|a: int| 0 <= a < before.len() && (#[trigger] before[a]).0@ == k;
                        assert(entries@[a].0@ == k);
                    }
                }
            }
            return;
        }
        i += 1;
    }
    let ghost before = entries@;
    let ghost name = key@;
    let ghost text = value@;
    entries.push((key, value));
    proof {
        let mm = m.insert(name, text);
        let n = before.len() as int;
        assert(entries@[n].0@ == name);
        assert forall|a: int, b: int| 0 <= a < b < entries@.len() implies (#[trigger] entries@[a]).0@ != (#[trigger] entries@[b]).0@ by {
            if b < n {
                assert(before[a].0@ != before[b].0@);
            } else {
                assert(entries@[a] == before[a]);
            }
        }
        assert forall|a: int| 0 <= a < entries@.len() implies mm.contains_key((#[trigger] entries@[a]).0@) && mm[entries@[a].0@] == entries@[a].1@ by {
            if a < n {
                assert(entries@[a] == before[a]);
                assert(before[a].0@ != name);
            }
        }
        assert forall|k: Seq<char>| #[trigger] mm.contains_key(k) implies exists|a: int| 0 <= a < entries@.len() && (#[trigger] entries@[a]).0@ == k by {
            if k == name {
                assert(entries@[n].0@ == k);
            } else {
                let a = choose|a: int| 0 <= a < before.len() && (#[trigger] before[a]).0@ == k;
                assert(entries@[a] == before[a]);
            }
        }
    }
}

/// The parameters of an operator uri, one entry per name: what follows the first `params` is cut
/// at each `bbb`, and each piece of the form `name yyy value` gives the trimmed name and value,
/// a later value of a name replacing an earlier one. A uri without `params` has none.
pub fn extract_parameters(input_string: &str) -> (r: Vec<(String, String)>)
    ensures
        represents(r@, spec_extract_parameters(input_string@)),
{
    let chars = chars_of(input_string);
    let n: usize = chars.len();
    let word: Vec<char> = vec!['p', 'a', 'r', 'a', 'm', 's'];
    assert(word@ =~= params_word());
    let mut result: Vec<(String, String)> = Vec::new();
    match find_chars(&chars, &word, 0) {
        None => {
            assert(result@.len() == 0);
            result
        },
        Some(idx) => {
            proof {
                lemma_find_from(chars@, params_word(), 0);
            }
            let sep: Vec<char> = vec!['b', 'b', 'b'];
            assert(sep@ =~= parameter_separator());
            let start = idx + 6;
            let ghost all = pieces_from(chars@, parameter_separator(), start as int);
            let ghost mut done: Seq<Seq<char>> = Seq::empty();
            let mut pos: usize = start;
            assert(done + all =~= all);
            loop
                invariant_except_break
                    start <= pos <= chars@.len(),
                    n == chars@.len(),
                    chars@ == input_string@,
                    sep@ == parameter_separator(),
                    done + pieces_from(chars@, parameter_separator(), pos as int) == all,
                    represents(result@, params_map(done)),
                ensures
                    represents(result@, params_map(all)),
                decreases chars@.len() - pos,
            {
                proof {
                    lemma_find_from(chars@, parameter_separator(), pos as int);
                }
                match find_chars(&chars, &sep, pos) {
                    Some(j) => {
                        let piece = sub_chars(&chars, pos, j);
                        let ghost next = done.push(piece@);
                        proof {
                            assert(pieces_from(chars@, parameter_separator(), pos as int)
                                == seq![piece@] + pieces_from(chars@, parameter_separator(), j + 3));
                            assert(next + pieces_from(chars@, parameter_separator(), j + 3) =~= all);
                            assert(next.drop_last() =~= done);
                        }
                        match pair_in(&piece) {
                            Some((k, v)) => {
                                upsert(&mut result, k, v, Ghost(params_map(done)));
                            },
                            None => {},
                        }
                        proof {
                            done = next;
                        }
                        pos = j + 3;
                    },
                    None => {
                        let piece = sub_chars(&chars, pos, chars.len());
                        let ghost next = done.push(piece@);
                        proof {
                            assert(pieces_from(chars@, parameter_separator(), pos as int) == seq![piece@]);
                            assert(next =~= all);
                            assert(next.drop_last() =~= done);
                        }
                        match pair_in(&piece) {
                            Some((k, v)) => {
                                upsert(&mut result, k, v, Ghost(params_map(done)));
                            },
                            None => {},
                        }
                        break;
                    },
                }
            }
            result
        },
    }
}

/// The report key of an operator uri: what stands before its first `/` (the whole uri where it
/// has none), without a leading `xx`.
pub open spec fn report_key(s: Seq<char>) -> Seq<char> {
    let prefix = match find_from(s, seq!['/'], 0) {
        Some(i) => s.subrange(0, i),
        None => s,
    };
    if prefix.len() >= 2 && prefix[0] == 'x' && prefix[1] == 'x' {
        prefix.skip(2)
    } else {
        prefix
    }
}

/// The report key of an operator uri: what stands before its first `/` (the whole uri where it
/// has none), without a leading `xx`.
pub fn extract_report_key(input_string: &str) -> (r: String)
    ensures
        r@ == report_key(input_string@),
{
    let chars = chars_of(input_string);
    let n: usize = chars.len();
    let slash: Vec<char> = vec!['/'];
    assert(slash@ =~= seq!['/']);
    let end: usize = match find_chars(&chars, &slash, 0) {
        Some(i) => i,
        None => n,
    };
    if end >= 2 && chars[0] == 'x' && chars[1] == 'x' {
        let r = string_from_range(&chars, 2, end);
        assert(r@ =~= chars@.subrange(0, end as int).skip(2));
        r
    } else {
        let r = string_from_range(&chars, 0, end);
        assert(chars@.subrange(0, chars@.len() as int) =~= chars@);
        r
    }
}

/// The operator uri that a value holds, as a string value: an error unless the value is a string.
pub fn extract_report_key_from_operator_uri<F: EvalexprFloat>(uri: Value<F>) -> (r: EvalexprResult<Value<F>, F>)
    ensures
        match uri@ {
            VModel::Str(s) => r matches Ok(v) && v@ == VModel::<F>::Str(s),
            _ => r matches Err(e) && e@ == EModel::<F>::ExpectedString { actual: uri@ },
        },
{
    match uri.as_string() {
        Ok(operator_uri) => Ok(Value::String(operator_uri)),
        Err(e) => Err(e),
    }
}

/// The pairs of strings by their characters.
pub open spec fn pair_views(v: Seq<(String, String)>) -> Seq<(Seq<char>, Seq<char>)> {
    v.map_values(|p: (String, String)| (p.0@, p.1@))
}

/// The map that inserting the pairs in order gives: a later value of a name replaces an earlier one.
pub open spec fn pairs_map(s: Seq<(Seq<char>, Seq<char>)>) -> Map<Seq<char>, Seq<char>>
    decreases s.len(),
{
    if s.len() == 0 {
        Map::empty()
    } else {
        pairs_map(s.drop_last()).insert(s.last().0, s.last().1)
    }
}

/// The JSON text (as `serde_json::to_string` writes it) of an array that holds one object: the
/// given string fields, and under `params_key` the object of the parameters. serde_json keeps the
/// entries of an object ordered by name, so the text depends on the parameters as a map.
pub uninterp spec fn report_nodes_json(fields: Seq<(Seq<char>, Seq<char>)>, params_key: Seq<char>, params: Map<Seq<char>, Seq<char>>) -> Seq<char>;

/// Builds the JSON array of one object from string fields and an object of string parameters, and
/// writes it with `serde_json::to_string`. Trusted: the text is serde_json's, named
/// `report_nodes_json` (a serde_json map inserts the pairs in order, a later value of a name
/// replacing an earlier one). serde_json documents that writing fails only for a `Serialize`
/// impl that fails or for a map with keys that are not strings; a `serde_json::Value` whose maps
/// are keyed by strings is neither, so the writing succeeds.
#[verifier::external_body]
fn report_nodes_to_json(fields: &Vec<(String, String)>, params_key: &str, params: &Vec<(String, String)>) -> (r: Result<String, String>)
    ensures
        r is Ok,
        r matches Ok(s) ==> s@ == report_nodes_json(pair_views(fields@), params_key@, pairs_map(pair_views(params@))),
{
    let string = |p: &(String, String)| (p.0.clone(), serde_json::Value::String(p.1.clone()));
    let mut object: serde_json::Map<String, serde_json::Value> = fields.iter().map(string).collect();
    let inner: serde_json::Map<String, serde_json::Value> = params.iter().map(string).collect();
    object.insert(params_key.to_string(), serde_json::Value::Object(inner));
    let array = serde_json::Value::Array(vec![serde_json::Value::Object(object)]);
    match serde_json::to_string(&array) {
        Ok(text) => Ok(text),
        Err(err) => Err(format!("{}", err)),
    }
}

/// The string fields of the report reference node of an operator uri, given the name of the
/// output property and the uri's report key.
pub open spec fn report_fields(output_name: Seq<char>, key: Seq<char>) -> Seq<(Seq<char>, Seq<char>)> {
    seq![
        ("name"@, "report_reference_node"@),
        ("operatorType"@, "report_reference"@),
        ("nodeType"@, "Persistent"@),
        ("outputOperatorName"@, output_name),
        ("reportKey"@, key),
    ]
}

/// Pairs with distinct names give the map of exactly those pairs.
proof fn lemma_pairs_map(s: Seq<(Seq<char>, Seq<char>)>)
    requires
        forall|i: int, j: int| 0 <= i < j < s.len() ==> (#[trigger] s[i]).0 != (#[trigger] s[j]).0,
    ensures
        forall|i: int| 0 <= i < s.len() ==> pairs_map(s).contains_key((#[trigger] s[i]).0) && pairs_map(s)[s[i].0] == s[i].1,
        forall|k: Seq<char>| #[trigger] pairs_map(s).contains_key(k) ==> exists|i: int| 0 <= i < s.len() && (#[trigger] s[i]).0 == k,
    decreases s.len(),
{
    if s.len() > 0 {
        let t = s.drop_last();
        assert forall|i: int, j: int| 0 <= i < j < t.len() implies (#[trigger] t[i]).0 != (#[trigger] t[j]).0 by {
            assert(t[i] == s[i] && t[j] == s[j]);
        }
        lemma_pairs_map(t);
        assert forall|i: int| 0 <= i < s.len() implies pairs_map(s).contains_key((#[trigger] s[i]).0) && pairs_map(s)[s[i].0] == s[i].1 by {
            if i < s.len() - 1 {
                assert(t[i] == s[i]);
                assert(s[i].0 != s[s.len() - 1].0);
            }
        }
        assert forall|k: Seq<char>| #[trigger] pairs_map(s).contains_key(k) implies exists|i: int| 0 <= i < s.len() && (#[trigger] s[i]).0 == k by {
            if k != s.last().0 {
                assert(pairs_map(t).contains_key(k));
                let i = choose|i: int| 0 <= i < t.len() && (#[trigger] t[i]).0 == k;
                assert(s[i] == t[i]);
            } else {
                assert(s[s.len() - 1].0 == k);
            }
        }
    }
}

/// The entries that represent a map give that map back when inserted in order.
proof fn lemma_represents_pairs_map(v: Seq<(String, String)>, m: Map<Seq<char>, Seq<char>>)
    requires
        represents(v, m),
    ensures
        pairs_map(pair_views(v)) == m,
{
    let s = pair_views(v);
    assert forall|i: int, j: int| 0 <= i < j < s.len() implies (#[trigger] s[i]).0 != (#[trigger] s[j]).0 by {
        assert(s[i].0 == v[i].0@ && s[j].0 == v[j].0@);
    }
    lemma_pairs_map(s);
    assert forall|k: Seq<char>| #[trigger] pairs_map(s).contains_key(k) <==> m.contains_key(k) by {
        if pairs_map(s).contains_key(k) {
            let i = choose|i: int| 0 <= i < s.len() && (#[trigger] s[i]).0 == k;
            assert(s[i].0 == v[i].0@);
        }
        if m.contains_key(k) {
            let i = choose|i: int| 0 <= i < v.len() && (#[trigger] v[i]).0@ == k;
            assert(s[i].0 == v[i].0@);
            assert(pairs_map(s).contains_key(s[i].0));
        }
    }
    assert forall|k: Seq<char>| #[trigger] m.contains_key(k) implies pairs_map(s)[k] == m[k] by {
        let i = choose|i: int| 0 <= i < v.len() && (#[trigger] v[i]).0@ == k;
        assert(s[i] == (v[i].0@, v[i].1@));
        assert(pairs_map(s)[s[i].0] == s[i].1);
    }
    assert(pairs_map(s) =~= m);
}

/// Builds the report reference node of an operator uri: a JSON array holding one object with
/// the node's name, operator and node types, the name of the output property, the uri's report
/// key and, under `parameterValues`, the uri's parameters. Both arguments must be strings.
pub fn create_report_reference_nodes_from_operator_uri<F: EvalexprFloat + core::fmt::Debug>(uri: Value<F>, output_property_name: Value<F>) -> (r: Result<Value<F>, Error>)
    ensures
        !(uri@ is Str) ==> (r matches Err(x) && x@ matches ErrorModel::CustomError(m)
            && text_holds(error_text(EModel::<F>::ExpectedString { actual: uri@ }), m)),
        uri@ is Str && !(output_property_name@ is Str) ==> (r matches Err(x) && x@ matches ErrorModel::CustomError(m)
            && text_holds(error_text(EModel::<F>::ExpectedString { actual: output_property_name@ }), m)),
        uri@ is Str && output_property_name@ is Str ==> (r matches Ok(v) && v@ == VModel::<F>::Str(report_nodes_json(
                report_fields(output_property_name@->Str_0, report_key(uri@->Str_0)), "parameterValues"@,
                spec_extract_parameters(uri@->Str_0)))),
{
    let operator_uri = match &uri {
        Value::String(s) => s.clone(),
        _ => return Err(crate::date_utils::not_a_string(&uri)),
    };
    let output_name = match &output_property_name {
        Value::String(s) => s.clone(),
        _ => return Err(crate::date_utils::not_a_string(&output_property_name)),
    };
    let params = extract_parameters(operator_uri.as_str());
    let key = extract_report_key(operator_uri.as_str());
    let fields = vec![
        ("name".to_owned(), "report_reference_node".to_owned()),
        ("operatorType".to_owned(), "report_reference".to_owned()),
        ("nodeType".to_owned(), "Persistent".to_owned()),
        ("outputOperatorName".to_owned(), output_name),
        ("reportKey".to_owned(), key),
    ];
    proof {
        lemma_represents_pairs_map(params@, spec_extract_parameters(operator_uri@));
        assert(pair_views(fields@) =~= report_fields(output_property_name@->Str_0, report_key(operator_uri@)));
    }
    match report_nodes_to_json(&fields, "parameterValues", &params) {
        Ok(text) => Ok(Value::String(text)),
        Err(message) => Err(Error::CustomError(message)),
    }
}

} // verus!
