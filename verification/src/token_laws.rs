//! Laws of the tokenizer: how the text of an operator between two names is read, and which
//! operator each token builds.
use vstd::prelude::*;
use crate::numeric::EvalexprFloat;
use crate::error::EModel;
use crate::literal::{spec_int_literal, is_float_literal, spec_bool_literal};
use crate::text::spec_is_whitespace;
use crate::operator::Operator;
use crate::tree::spec_token_operator;
use crate::token::{Token, TModel, PModel, spec_tokenize, spec_partial_tokens, spec_char_to_partial_token, push_partial,
    spec_resolve, spec_resolve_step};

verus! {

/// Whether `c` can stand in a name: it is no operator, brace, comma, semicolon, quote or whitespace.
pub open spec fn word_char(c: char) -> bool {
    &&& !(c == '=' || c == '!' || c == '>' || c == '<' || c == '&' || c == '|' || c == '-' || c == '+')
    &&& !(c == '*' || c == '/' || c == '%' || c == '^' || c == '(' || c == ')' || c == ',' || c == ';')
    &&& c != '"'
    &&& !spec_is_whitespace(c)
}

/// Whether `w` is a name that the tokenizer reads as an identifier: a run of characters that can
/// stand in a name, which is neither a number nor a boolean.
pub open spec fn plain_identifier(w: Seq<char>) -> bool {
    &&& w.len() > 0
    &&& forall|i: int| 0 <= i < w.len() ==> word_char(#[trigger] w[i])
    &&& spec_int_literal(w) is None
    &&& !is_float_literal(w)
    &&& spec_bool_literal(w) is None
}

/// Whether `c` is read on its own, as an operator character or whitespace, outside a string.
pub open spec fn single_char<F>(c: char) -> bool {
    c != '"' && !(spec_char_to_partial_token::<F>(c) is Literal)
}

/// The characters of a name run together into one literal partial token.
proof fn lemma_word_partials<F>(s: Seq<char>, i: int, j: int, acc: Seq<PModel<F>>, w: Seq<char>)
    requires
        0 <= i <= j <= s.len(),
        forall|m: int| i <= m < j ==> word_char(#[trigger] s[m]),
    ensures
        spec_partial_tokens::<F>(s, i, acc.push(PModel::Literal(w)))
            == spec_partial_tokens::<F>(s, j, acc.push(PModel::Literal(w + s.subrange(i, j)))),
    decreases j - i,
{
    if i < j {
        let c = s[i];
        assert(word_char(c));
        assert(spec_char_to_partial_token::<F>(c) == PModel::<F>::Literal(seq![c]));
        let before = acc.push(PModel::Literal(w));
        assert(before.last() == PModel::<F>::Literal(w));
        assert(w + seq![c] =~= w.push(c));
        assert(before.update(before.len() - 1, PModel::<F>::Literal(w.push(c))) =~= acc.push(PModel::Literal(w.push(c))));
        assert(push_partial(before, PModel::<F>::Literal(seq![c])) == acc.push(PModel::<F>::Literal(w.push(c))));
        lemma_word_partials::<F>(s, i + 1, j, acc, w.push(c));
        assert(w.push(c) + s.subrange(i + 1, j) =~= w + s.subrange(i, j));
    } else {
        assert(w + s.subrange(i, j) =~= w);
    }
}

/// Characters read on their own give one partial token each.
proof fn lemma_single_partials<F>(s: Seq<char>, i: int, j: int, acc: Seq<PModel<F>>)
    requires
        0 <= i <= j <= s.len(),
        forall|m: int| i <= m < j ==> single_char::<F>(#[trigger] s[m]),
    ensures
        spec_partial_tokens::<F>(s, i, acc)
            == spec_partial_tokens::<F>(s, j, acc + s.subrange(i, j).map_values(|c: char| spec_char_to_partial_token::<F>(c))),
    decreases j - i,
{
    let f = |c: char| spec_char_to_partial_token::<F>(c);
    if i < j {
        let c = s[i];
        assert(single_char::<F>(c));
        assert(push_partial(acc, f(c)) == acc.push(f(c)));
        lemma_single_partials::<F>(s, i + 1, j, acc.push(f(c)));
        assert(acc.push(f(c)) + s.subrange(i + 1, j).map_values(f) =~= acc + s.subrange(i, j).map_values(f));
    } else {
        assert(acc + s.subrange(i, j).map_values(f) =~= acc);
    }
}

/// The first pass over a name, a run of single characters and a name.
#[verifier::rlimit(60)]
proof fn lemma_infix_partials<F>(x: Seq<char>, mid: Seq<char>, y: Seq<char>)
    requires
        plain_identifier(x),
        plain_identifier(y),
        mid.len() > 0,
        forall|m: int| 0 <= m < mid.len() ==> single_char::<F>(#[trigger] mid[m]),
    ensures
        spec_partial_tokens::<F>(x + mid + y, 0, Seq::empty())
            == Ok::<Seq<PModel<F>>, EModel<F>>(seq![PModel::Literal(x)] + mid.map_values(|c: char| spec_char_to_partial_token::<F>(c))
                + seq![PModel::Literal(y)]),
{
    let f = |c: char| spec_char_to_partial_token::<F>(c);
    let s = x + mid + y;
    let a = x.len() as int;
    let b = a + mid.len();
    let e = s.len() as int;
    assert(s[0] == x[0]);
    assert(word_char(x[0]));
    assert(spec_char_to_partial_token::<F>(x[0]) == PModel::<F>::Literal(seq![x[0]]));
    assert(push_partial(Seq::<PModel<F>>::empty(), PModel::<F>::Literal(seq![x[0]])) =~= Seq::<PModel<F>>::empty().push(PModel::Literal(seq![x[0]])));
    assert forall|m: int| 1 <= m < a implies word_char(#[trigger] s[m]) by {
        assert(s[m] == x[m]);
    }
    lemma_word_partials::<F>(s, 1, a, Seq::empty(), seq![x[0]]);
    assert(seq![x[0]] + s.subrange(1, a) =~= x);
    let acc1 = Seq::<PModel<F>>::empty().push(PModel::Literal(x));
    assert forall|m: int| a <= m < b implies single_char::<F>(#[trigger] s[m]) by {
        assert(s[m] == mid[m - a]);
    }
    lemma_single_partials::<F>(s, a, b, acc1);
    assert(s.subrange(a, b) =~= mid);
    let acc2 = acc1 + mid.map_values(f);
    assert(s[b] == y[0]);
    assert(word_char(y[0]));
    assert(spec_char_to_partial_token::<F>(y[0]) == PModel::<F>::Literal(seq![y[0]]));
    assert(acc2.last() == f(mid[mid.len() - 1]));
    assert(push_partial(acc2, PModel::<F>::Literal(seq![y[0]])) == acc2.push(PModel::Literal(seq![y[0]])));
    assert forall|m: int| b + 1 <= m < e implies word_char(#[trigger] s[m]) by {
        assert(s[m] == y[m - b]);
    }
    lemma_word_partials::<F>(s, b + 1, e, acc2, seq![y[0]]);
    assert(seq![y[0]] + s.subrange(b + 1, e) =~= y);
    assert(acc2.push(PModel::Literal(y)) =~= seq![PModel::Literal(x)] + mid.map_values(f) + seq![PModel::Literal(y)]);
}

/// The second pass over a name, whitespace, the partial tokens of an operator that resolve to `tok`,
/// whitespace and a name.
proof fn lemma_infix_resolve<F: EvalexprFloat>(x: Seq<char>, q: Seq<PModel<F>>, y: Seq<char>, tok: TModel<F>)
    requires
        plain_identifier(x),
        plain_identifier(y),
        q.len() > 0,
        spec_resolve_step::<F>(seq![PModel::Literal(x), PModel::Whitespace] + q + seq![PModel::Whitespace, PModel::Literal(y)], 2)
            == Ok::<(Option<TModel<F>>, int), EModel<F>>((Some(tok), 2 + q.len() as int)),
    ensures
        spec_resolve::<F>(seq![PModel::Literal(x), PModel::Whitespace] + q + seq![PModel::Whitespace, PModel::Literal(y)], 0, Seq::empty())
            == Ok::<Seq<TModel<F>>, EModel<F>>(seq![TModel::Identifier(x), tok, TModel::Identifier(y)]),
{
    let p = seq![PModel::Literal(x), PModel::Whitespace] + q + seq![PModel::Whitespace, PModel::Literal(y)];
    let n = q.len() as int;
    assert(p[0] == PModel::<F>::Literal(x));
    assert(p[1] == PModel::<F>::Whitespace);
    assert(p[2 + n] == PModel::<F>::Whitespace);
    assert(p[3 + n] == PModel::<F>::Literal(y));
    assert(p.len() == 4 + n);
    let t1 = Seq::<TModel<F>>::empty().push(TModel::Identifier(x));
    let t2 = t1.push(tok);
    let t3 = t2.push(TModel::Identifier(y));
    assert(spec_resolve::<F>(p, 4 + n, t3) == Ok::<Seq<TModel<F>>, EModel<F>>(t3));
    assert(spec_resolve_step::<F>(p, 3 + n) == Ok::<(Option<TModel<F>>, int), EModel<F>>((Some(TModel::Identifier(y)), 4 + n)));
    assert(spec_resolve::<F>(p, 3 + n, t2) == Ok::<Seq<TModel<F>>, EModel<F>>(t3));
    assert(spec_resolve::<F>(p, 2 + n, t2) == Ok::<Seq<TModel<F>>, EModel<F>>(t3));
    assert(spec_resolve::<F>(p, 2, t1) == Ok::<Seq<TModel<F>>, EModel<F>>(t3));
    assert(spec_resolve::<F>(p, 1, t1) == Ok::<Seq<TModel<F>>, EModel<F>>(t3));
    assert(spec_resolve_step::<F>(p, 0) == Ok::<(Option<TModel<F>>, int), EModel<F>>((Some(TModel::Identifier(x)), 1)));
    assert(t3 =~= seq![TModel::Identifier(x), tok, TModel::Identifier(y)]);
}

/// An operator text `op`, whose characters are read on their own into the partial tokens `q` that
/// resolve to `tok`, between two names and spaces reads as the first name, `tok` and the second name.
proof fn lemma_infix_tokens<F: EvalexprFloat>(x: Seq<char>, op: Seq<char>, y: Seq<char>, q: Seq<PModel<F>>, tok: TModel<F>)
    requires
        plain_identifier(x),
        plain_identifier(y),
        op.len() > 0,
        forall|m: int| 0 <= m < op.len() ==> single_char::<F>(#[trigger] op[m]),
        op.map_values(|c: char| spec_char_to_partial_token::<F>(c)) =~= q,
        spec_resolve_step::<F>(seq![PModel::Literal(x), PModel::Whitespace] + q + seq![PModel::Whitespace, PModel::Literal(y)], 2)
            == Ok::<(Option<TModel<F>>, int), EModel<F>>((Some(tok), 2 + q.len() as int)),
    ensures
        spec_tokenize::<F>(x + seq![' '] + op + seq![' '] + y)
            == Ok::<Seq<TModel<F>>, EModel<F>>(seq![TModel::Identifier(x), tok, TModel::Identifier(y)]),
{
    let f = |c: char| spec_char_to_partial_token::<F>(c);
    let mid = seq![' '] + op + seq![' '];
    assert(spec_is_whitespace(' '));
    assert(f(' ') == PModel::<F>::Whitespace);
    assert forall|m: int| 0 <= m < mid.len() implies single_char::<F>(#[trigger] mid[m]) by {
        if 1 <= m < mid.len() - 1 {
            assert(mid[m] == op[m - 1]);
        }
    }
    lemma_infix_partials::<F>(x, mid, y);
    assert(x + mid + y =~= x + seq![' '] + op + seq![' '] + y);
    assert(mid.map_values(f) =~= seq![PModel::Whitespace] + q + seq![PModel::Whitespace]) by {
        assert forall|m: int| 0 <= m < mid.len() implies #[trigger] mid.map_values(f)[m] == (seq![PModel::Whitespace] + q + seq![PModel::Whitespace])[m] by {
            if 1 <= m < mid.len() - 1 {
                assert(mid[m] == op[m - 1]);
                assert(q[m - 1] == f(op[m - 1]));
            }
        }
    }
    assert(seq![PModel::Literal(x)] + mid.map_values(f) + seq![PModel::Literal(y)]
        =~= seq![PModel::Literal(x), PModel::Whitespace] + q + seq![PModel::Whitespace, PModel::Literal(y)]);
    lemma_infix_resolve::<F>(x, q, y, tok);
}

/// The comparison and logical operators between two names, each written with a space on either
/// side, are read as the first name, the operator's token and the second name: `==` as `Eq`,
/// `!=` as `Neq`, `>` as `Gt`, `<` as `Lt`, `>=` as `Geq`, `<=` as `Leq`, `&&` as `And`, `||` as
/// `Or`.
#[verifier::spinoff_prover]
pub proof fn law_comparison_tokens<F: EvalexprFloat>(x: Seq<char>, y: Seq<char>)
    requires
        plain_identifier(x),
        plain_identifier(y),
    ensures
        spec_tokenize::<F>(x + seq![' '] + seq!['=', '='] + seq![' '] + y) == Ok::<Seq<TModel<F>>, EModel<F>>(seq![TModel::Identifier(x), TModel::Eq, TModel::Identifier(y)]),
        spec_tokenize::<F>(x + seq![' '] + seq!['!', '='] + seq![' '] + y) == Ok::<Seq<TModel<F>>, EModel<F>>(seq![TModel::Identifier(x), TModel::Neq, TModel::Identifier(y)]),
        spec_tokenize::<F>(x + seq![' '] + seq!['>'] + seq![' '] + y) == Ok::<Seq<TModel<F>>, EModel<F>>(seq![TModel::Identifier(x), TModel::Gt, TModel::Identifier(y)]),
        spec_tokenize::<F>(x + seq![' '] + seq!['<'] + seq![' '] + y) == Ok::<Seq<TModel<F>>, EModel<F>>(seq![TModel::Identifier(x), TModel::Lt, TModel::Identifier(y)]),
        spec_tokenize::<F>(x + seq![' '] + seq!['>', '='] + seq![' '] + y) == Ok::<Seq<TModel<F>>, EModel<F>>(seq![TModel::Identifier(x), TModel::Geq, TModel::Identifier(y)]),
        spec_tokenize::<F>(x + seq![' '] + seq!['<', '='] + seq![' '] + y) == Ok::<Seq<TModel<F>>, EModel<F>>(seq![TModel::Identifier(x), TModel::Leq, TModel::Identifier(y)]),
        spec_tokenize::<F>(x + seq![' '] + seq!['&', '&'] + seq![' '] + y) == Ok::<Seq<TModel<F>>, EModel<F>>(seq![TModel::Identifier(x), TModel::And, TModel::Identifier(y)]),
        spec_tokenize::<F>(x + seq![' '] + seq!['|', '|'] + seq![' '] + y) == Ok::<Seq<TModel<F>>, EModel<F>>(seq![TModel::Identifier(x), TModel::Or, TModel::Identifier(y)]),
{
    lemma_infix_tokens::<F>(x, seq!['=', '='], y, seq![PModel::Eq, PModel::Eq], TModel::Eq);
    lemma_infix_tokens::<F>(x, seq!['!', '='], y, seq![PModel::ExclamationMark, PModel::Eq], TModel::Neq);
    lemma_infix_tokens::<F>(x, seq!['>'], y, seq![PModel::Gt], TModel::Gt);
    lemma_infix_tokens::<F>(x, seq!['<'], y, seq![PModel::Lt], TModel::Lt);
    lemma_infix_tokens::<F>(x, seq!['>', '='], y, seq![PModel::Gt, PModel::Eq], TModel::Geq);
    lemma_infix_tokens::<F>(x, seq!['<', '='], y, seq![PModel::Lt, PModel::Eq], TModel::Leq);
    lemma_infix_tokens::<F>(x, seq!['&', '&'], y, seq![PModel::Ampersand, PModel::Ampersand], TModel::And);
    lemma_infix_tokens::<F>(x, seq!['|', '|'], y, seq![PModel::VerticalBar, PModel::VerticalBar], TModel::Or);
}

/// The arithmetic operators, the comma and the semicolon between two names, each written with a
/// space on either side, are read as the first name, the operator's token and the second name:
/// `+` as `Plus`, `-` as `Minus`, `*` as `Star`, `/` as `Slash`, `%` as `Percent`, `^` as `Hat`,
/// `,` as `Comma`, `;` as `Semicolon`.
#[verifier::spinoff_prover]
pub proof fn law_arithmetic_tokens<F: EvalexprFloat>(x: Seq<char>, y: Seq<char>)
    requires
        plain_identifier(x),
        plain_identifier(y),
    ensures
        spec_tokenize::<F>(x + seq![' '] + seq!['+'] + seq![' '] + y) == Ok::<Seq<TModel<F>>, EModel<F>>(seq![TModel::Identifier(x), TModel::Plus, TModel::Identifier(y)]),
        spec_tokenize::<F>(x + seq![' '] + seq!['-'] + seq![' '] + y) == Ok::<Seq<TModel<F>>, EModel<F>>(seq![TModel::Identifier(x), TModel::Minus, TModel::Identifier(y)]),
        spec_tokenize::<F>(x + seq![' '] + seq!['*'] + seq![' '] + y) == Ok::<Seq<TModel<F>>, EModel<F>>(seq![TModel::Identifier(x), TModel::Star, TModel::Identifier(y)]),
        spec_tokenize::<F>(x + seq![' '] + seq!['/'] + seq![' '] + y) == Ok::<Seq<TModel<F>>, EModel<F>>(seq![TModel::Identifier(x), TModel::Slash, TModel::Identifier(y)]),
        spec_tokenize::<F>(x + seq![' '] + seq!['%'] + seq![' '] + y) == Ok::<Seq<TModel<F>>, EModel<F>>(seq![TModel::Identifier(x), TModel::Percent, TModel::Identifier(y)]),
        spec_tokenize::<F>(x + seq![' '] + seq!['^'] + seq![' '] + y) == Ok::<Seq<TModel<F>>, EModel<F>>(seq![TModel::Identifier(x), TModel::Hat, TModel::Identifier(y)]),
        spec_tokenize::<F>(x + seq![' '] + seq![','] + seq![' '] + y) == Ok::<Seq<TModel<F>>, EModel<F>>(seq![TModel::Identifier(x), TModel::Comma, TModel::Identifier(y)]),
        spec_tokenize::<F>(x + seq![' '] + seq![';'] + seq![' '] + y) == Ok::<Seq<TModel<F>>, EModel<F>>(seq![TModel::Identifier(x), TModel::Semicolon, TModel::Identifier(y)]),
{
    lemma_infix_tokens::<F>(x, seq!['+'], y, seq![PModel::Plus], TModel::Plus);
    lemma_infix_tokens::<F>(x, seq!['-'], y, seq![PModel::Minus], TModel::Minus);
    lemma_infix_tokens::<F>(x, seq!['*'], y, seq![PModel::Star], TModel::Star);
    lemma_infix_tokens::<F>(x, seq!['/'], y, seq![PModel::Slash], TModel::Slash);
    lemma_infix_tokens::<F>(x, seq!['%'], y, seq![PModel::Percent], TModel::Percent);
    lemma_infix_tokens::<F>(x, seq!['^'], y, seq![PModel::Hat], TModel::Hat);
    lemma_infix_tokens::<F>(x, seq![','], y, seq![PModel::Token(TModel::Comma)], TModel::Comma);
    lemma_infix_tokens::<F>(x, seq![';'], y, seq![PModel::Token(TModel::Semicolon)], TModel::Semicolon);
}

/// The assignment operators between two names, each written with a space on either side, are read
/// as the first name, the operator's token and the second name: `=` as `Assign`, `+=` as
/// `PlusAssign`, `-=` as `MinusAssign`, `*=` as `StarAssign`, `/=` as `SlashAssign`, `%=` as
/// `PercentAssign`, `^=` as `HatAssign`, `&&=` as `AndAssign`, `||=` as `OrAssign`.
#[verifier::spinoff_prover]
pub proof fn law_assignment_tokens<F: EvalexprFloat>(x: Seq<char>, y: Seq<char>)
    requires
        plain_identifier(x),
        plain_identifier(y),
    ensures
        spec_tokenize::<F>(x + seq![' '] + seq!['='] + seq![' '] + y) == Ok::<Seq<TModel<F>>, EModel<F>>(seq![TModel::Identifier(x), TModel::Assign, TModel::Identifier(y)]),
        spec_tokenize::<F>(x + seq![' '] + seq!['+', '='] + seq![' '] + y) == Ok::<Seq<TModel<F>>, EModel<F>>(seq![TModel::Identifier(x), TModel::PlusAssign, TModel::Identifier(y)]),
        spec_tokenize::<F>(x + seq![' '] + seq!['-', '='] + seq![' '] + y) == Ok::<Seq<TModel<F>>, EModel<F>>(seq![TModel::Identifier(x), TModel::MinusAssign, TModel::Identifier(y)]),
        spec_tokenize::<F>(x + seq![' '] + seq!['*', '='] + seq![' '] + y) == Ok::<Seq<TModel<F>>, EModel<F>>(seq![TModel::Identifier(x), TModel::StarAssign, TModel::Identifier(y)]),
        spec_tokenize::<F>(x + seq![' '] + seq!['/', '='] + seq![' '] + y) == Ok::<Seq<TModel<F>>, EModel<F>>(seq![TModel::Identifier(x), TModel::SlashAssign, TModel::Identifier(y)]),
        spec_tokenize::<F>(x + seq![' '] + seq!['%', '='] + seq![' '] + y) == Ok::<Seq<TModel<F>>, EModel<F>>(seq![TModel::Identifier(x), TModel::PercentAssign, TModel::Identifier(y)]),
        spec_tokenize::<F>(x + seq![' '] + seq!['^', '='] + seq![' '] + y) == Ok::<Seq<TModel<F>>, EModel<F>>(seq![TModel::Identifier(x), TModel::HatAssign, TModel::Identifier(y)]),
        spec_tokenize::<F>(x + seq![' '] + seq!['&', '&', '='] + seq![' '] + y) == Ok::<Seq<TModel<F>>, EModel<F>>(seq![TModel::Identifier(x), TModel::AndAssign, TModel::Identifier(y)]),
        spec_tokenize::<F>(x + seq![' '] + seq!['|', '|', '='] + seq![' '] + y) == Ok::<Seq<TModel<F>>, EModel<F>>(seq![TModel::Identifier(x), TModel::OrAssign, TModel::Identifier(y)]),
{
    lemma_infix_tokens::<F>(x, seq!['='], y, seq![PModel::Eq], TModel::Assign);
    lemma_infix_tokens::<F>(x, seq!['+', '='], y, seq![PModel::Plus, PModel::Eq], TModel::PlusAssign);
    lemma_infix_tokens::<F>(x, seq!['-', '='], y, seq![PModel::Minus, PModel::Eq], TModel::MinusAssign);
    lemma_infix_tokens::<F>(x, seq!['*', '='], y, seq![PModel::Star, PModel::Eq], TModel::StarAssign);
    lemma_infix_tokens::<F>(x, seq!['/', '='], y, seq![PModel::Slash, PModel::Eq], TModel::SlashAssign);
    lemma_infix_tokens::<F>(x, seq!['%', '='], y, seq![PModel::Percent, PModel::Eq], TModel::PercentAssign);
    lemma_infix_tokens::<F>(x, seq!['^', '='], y, seq![PModel::Hat, PModel::Eq], TModel::HatAssign);
    lemma_infix_tokens::<F>(x, seq!['&', '&', '='], y, seq![PModel::Ampersand, PModel::Ampersand, PModel::Eq], TModel::AndAssign);
    lemma_infix_tokens::<F>(x, seq!['|', '|', '='], y, seq![PModel::VerticalBar, PModel::VerticalBar, PModel::Eq], TModel::OrAssign);
}

/// The operator each operator token builds, wherever it stands: `+` an addition, `*` a
/// multiplication, `/` a division, `%` a remainder, `^` a power, `==`, `!=`, `>`, `<`, `>=` and
/// `<=` the comparisons of those names, `&&`, `||` and `!` the logical operators, `=` an
/// assignment and each compound assignment the assignment of its operation, `,` a tuple and `;` a
/// chain; a `-` is a subtraction after a value and a negation elsewhere.
pub proof fn law_token_operators<F>(next: Option<Token<F>>, after_value: bool)
    ensures
        spec_token_operator(Token::<F>::Plus, next, after_value) == Some(Operator::<F>::Add),
        spec_token_operator(Token::<F>::Star, next, after_value) == Some(Operator::<F>::Mul),
        spec_token_operator(Token::<F>::Slash, next, after_value) == Some(Operator::<F>::Div),
        spec_token_operator(Token::<F>::Percent, next, after_value) == Some(Operator::<F>::Mod),
        spec_token_operator(Token::<F>::Hat, next, after_value) == Some(Operator::<F>::Exp),
        spec_token_operator(Token::<F>::Eq, next, after_value) == Some(Operator::<F>::Eq),
        spec_token_operator(Token::<F>::Neq, next, after_value) == Some(Operator::<F>::Neq),
        spec_token_operator(Token::<F>::Gt, next, after_value) == Some(Operator::<F>::Gt),
        spec_token_operator(Token::<F>::Lt, next, after_value) == Some(Operator::<F>::Lt),
        spec_token_operator(Token::<F>::Geq, next, after_value) == Some(Operator::<F>::Geq),
        spec_token_operator(Token::<F>::Leq, next, after_value) == Some(Operator::<F>::Leq),
        spec_token_operator(Token::<F>::And, next, after_value) == Some(Operator::<F>::And),
        spec_token_operator(Token::<F>::Or, next, after_value) == Some(Operator::<F>::Or),
        spec_token_operator(Token::<F>::Not, next, after_value) == Some(Operator::<F>::Not),
        spec_token_operator(Token::<F>::Assign, next, after_value) == Some(Operator::<F>::Assign),
        spec_token_operator(Token::<F>::PlusAssign, next, after_value) == Some(Operator::<F>::AddAssign),
        spec_token_operator(Token::<F>::MinusAssign, next, after_value) == Some(Operator::<F>::SubAssign),
        spec_token_operator(Token::<F>::StarAssign, next, after_value) == Some(Operator::<F>::MulAssign),
        spec_token_operator(Token::<F>::SlashAssign, next, after_value) == Some(Operator::<F>::DivAssign),
        spec_token_operator(Token::<F>::PercentAssign, next, after_value) == Some(Operator::<F>::ModAssign),
        spec_token_operator(Token::<F>::HatAssign, next, after_value) == Some(Operator::<F>::ExpAssign),
        spec_token_operator(Token::<F>::AndAssign, next, after_value) == Some(Operator::<F>::AndAssign),
        spec_token_operator(Token::<F>::OrAssign, next, after_value) == Some(Operator::<F>::OrAssign),
        spec_token_operator(Token::<F>::Comma, next, after_value) == Some(Operator::<F>::Tuple),
        spec_token_operator(Token::<F>::Semicolon, next, after_value) == Some(Operator::<F>::Chain),
        spec_token_operator(Token::<F>::Minus, next, true) == Some(Operator::<F>::Sub),
        spec_token_operator(Token::<F>::Minus, next, false) == Some(Operator::<F>::Neg),
{
}

} // verus!
