//! Laws of the parser: how two binary operators between three names group, and how a sequence
//! operator gathers its elements.
use vstd::prelude::*;
use crate::operator::{Operator, spec_precedence, spec_is_left_to_right, spec_is_unary, spec_is_sequence,
    spec_max_argument_amount, spec_is_leaf};
use crate::tree::{same_sequence_op, spec_collapse_sequences};
use crate::token::Token;
use crate::tree::{NodeModel, ParseState, leaf, empty_root, spec_parse, spec_parse_from, spec_parse_step,
    spec_place, spec_insert_back, spec_token_operator, spec_collapse_all, goes_below};

verus! {

/// Whether `t` is the token of an operator that takes a value on either side: `+`, `*`, `/`, `%`,
/// `^`, a comparison, `&&` or `||`.
pub open spec fn binary_operator_token<F>(t: Token<F>) -> bool {
    ||| t is Plus || t is Star || t is Slash || t is Percent || t is Hat
    ||| t is Eq || t is Neq || t is Gt || t is Lt || t is Geq || t is Leq
    ||| t is And || t is Or
}

/// The operator that a binary operator token builds.
pub open spec fn binary_operator_of<F>(t: Token<F>) -> Operator<F> {
    spec_token_operator(t, None, true)->Some_0
}

/// A node with an operator and its children.
pub open spec fn node<F>(op: Operator<F>, children: Seq<NodeModel<F>>) -> NodeModel<F> {
    NodeModel { op, children }
}

/// The leaf that reads the variable `name`.
pub open spec fn read<F>(name: String) -> NodeModel<F> {
    leaf(Operator::VariableIdentifierRead { identifier: name })
}

/// Replacing the one root node of a stack.
proof fn lemma_one_root<F>(root: NodeModel<F>, new_root: NodeModel<F>)
    ensures
        seq![root].drop_last().push(new_root) == seq![new_root],
        seq![root].last() == root,
{
    assert(seq![root].drop_last().push(new_root) =~= seq![new_root]);
}

/// What is known of the operator of a binary operator token, whatever comes next.
proof fn lemma_binary_operator<F>(t: Token<F>, next: Option<Token<F>>, after_value: bool)
    requires
        binary_operator_token(t),
    ensures
        spec_token_operator(t, next, after_value) == Some(binary_operator_of(t)),
        spec_precedence(binary_operator_of(t)) <= 120,
        spec_max_argument_amount(binary_operator_of(t)) == Some(2nat),
        !spec_is_unary(binary_operator_of(t)),
        !spec_is_sequence(binary_operator_of(t)),
        !spec_is_leaf(binary_operator_of(t)),
        spec_is_left_to_right(binary_operator_of(t)),
        !(binary_operator_of(t) is RootNode),
        !t.spec_is_assignment(),
        !t.spec_is_leftsided_value(),
        !t.spec_is_rightsided_value(),
        !(t is LBrace) && !(t is RBrace),
{
}

/// Two binary operators between three names group by precedence: where the second binds tighter,
/// `a o1 b o2 c` is `a o1 (b o2 c)`; otherwise, since both group to the left, it is
/// `(a o1 b) o2 c`. So `a || b && c` is `a || (b && c)`, `a * b + c` is `(a * b) + c`, and
/// `a / b / c` is `(a / b) / c`.
#[verifier::spinoff_prover]
#[verifier::rlimit(60)]
pub proof fn law_infix_grouping<F>(a: String, b: String, c: String, t1: Token<F>, t2: Token<F>)
    requires
        binary_operator_token(t1),
        binary_operator_token(t2),
    ensures
        ({
            let toks = seq![Token::Identifier(a), t1, Token::Identifier(b), t2, Token::Identifier(c)];
            let o1 = binary_operator_of(t1);
            let o2 = binary_operator_of(t2);
            &&& spec_precedence(o1) < spec_precedence(o2) ==> spec_parse(toks) == Ok::<NodeModel<F>, crate::error::EModel<F>>(
                node(Operator::RootNode, seq![node(o1, seq![read(a), node(o2, seq![read(b), read(c)])])]))
            &&& spec_precedence(o1) >= spec_precedence(o2) ==> spec_parse(toks) == Ok::<NodeModel<F>, crate::error::EModel<F>>(
                node(Operator::RootNode, seq![node(o2, seq![node(o1, seq![read(a), read(b)]), read(c)])]))
        }),
{
    let toks = seq![Token::Identifier(a), t1, Token::Identifier(b), t2, Token::Identifier(c)];
    let o1 = binary_operator_of(t1);
    let o2 = binary_operator_of(t2);
    lemma_binary_operator(t1, Some(Token::Identifier(b)), true);
    lemma_binary_operator(t2, Some(Token::Identifier(c)), true);
    let ra: NodeModel<F> = read(a);
    let rb: NodeModel<F> = read(b);
    let rc: NodeModel<F> = read(c);
    let st0 = ParseState { stack: seq![empty_root::<F>()], last_rightsided: false, open_braces: 0 };
    // a
    assert(spec_token_operator(Token::<F>::Identifier(a), Some(t1), false) == Some(Operator::<F>::VariableIdentifierRead { identifier: a }));
    assert(spec_insert_back(empty_root::<F>(), ra, true) == Ok::<NodeModel<F>, crate::error::EModel<F>>(node(Operator::RootNode, seq![ra])));
    let st1 = ParseState { stack: seq![node(Operator::RootNode, seq![ra])], last_rightsided: true, open_braces: 0 };
    lemma_one_root(st0.stack[0], st1.stack[0]);
    assert(spec_place(st0.stack, leaf(spec_token_operator(toks[0], Some(toks[1]), st0.last_rightsided)->Some_0)) == Ok::<Seq<NodeModel<F>>, crate::error::EModel<F>>(st1.stack));
    assert(spec_parse_step(toks[0], Some(toks[1]), st0) == Ok::<ParseState<F>, crate::error::EModel<F>>(st1));
    // o1
    let n1 = node(o1, seq![ra]);
    assert(!goes_below(ra.op, o1));
    assert(seq![ra].drop_last().push(node(o1, Seq::<NodeModel<F>>::empty().push(ra))) =~= seq![n1]);
    assert(spec_insert_back(node(Operator::RootNode, seq![ra]), leaf(o1), true) == Ok::<NodeModel<F>, crate::error::EModel<F>>(node(Operator::RootNode, seq![n1])));
    let st2 = ParseState { stack: seq![node(Operator::RootNode, seq![n1])], last_rightsided: false, open_braces: 0 };
    lemma_one_root(st1.stack[0], st2.stack[0]);
    assert(spec_place(st1.stack, leaf(spec_token_operator(toks[1], Some(toks[2]), st1.last_rightsided)->Some_0)) == Ok::<Seq<NodeModel<F>>, crate::error::EModel<F>>(st2.stack));
    assert(spec_parse_step(toks[1], Some(toks[2]), st1) == Ok::<ParseState<F>, crate::error::EModel<F>>(st2));
    // b
    let n2 = node(o1, seq![ra, rb]);
    assert(spec_token_operator(Token::<F>::Identifier(b), Some(t2), false) == Some(Operator::<F>::VariableIdentifierRead { identifier: b }));
    assert(goes_below(o1, rb.op));
    assert(seq![ra].push(rb) =~= seq![ra, rb]);
    assert(spec_insert_back(n1, rb, false) == Ok::<NodeModel<F>, crate::error::EModel<F>>(n2));
    assert(seq![n1].drop_last().push(n2) =~= seq![n2]);
    assert(spec_insert_back(node(Operator::RootNode, seq![n1]), rb, true) == Ok::<NodeModel<F>, crate::error::EModel<F>>(node(Operator::RootNode, seq![n2])));
    let st3 = ParseState { stack: seq![node(Operator::RootNode, seq![n2])], last_rightsided: true, open_braces: 0 };
    lemma_one_root(st2.stack[0], st3.stack[0]);
    assert(spec_place(st2.stack, leaf(spec_token_operator(toks[2], Some(toks[3]), st2.last_rightsided)->Some_0)) == Ok::<Seq<NodeModel<F>>, crate::error::EModel<F>>(st3.stack));
    assert(spec_parse_step(toks[2], Some(toks[3]), st2) == Ok::<ParseState<F>, crate::error::EModel<F>>(st3));
    assert(spec_token_operator(Token::<F>::Identifier(c), None, false) == Some(Operator::<F>::VariableIdentifierRead { identifier: c }));
    assert(toks.len() == 5);
    assert(spec_parse_from(toks, 0, st0) == spec_parse_from(toks, 1, st1));
    assert(spec_parse_from(toks, 1, st1) == spec_parse_from(toks, 2, st2));
    assert(spec_parse_from(toks, 2, st2) == spec_parse_from(toks, 3, st3));
    if spec_precedence(o1) < spec_precedence(o2) {
        // o2 goes below o1 and takes b
        let m = node(o2, seq![rb]);
        let n3 = node(o1, seq![ra, m]);
        assert(goes_below(o1, o2));
        assert(!goes_below(rb.op, o2));
        assert(seq![ra, rb].drop_last().push(node(o2, Seq::<NodeModel<F>>::empty().push(rb))) =~= seq![ra, m]);
        assert(spec_insert_back(n2, leaf(o2), false) == Ok::<NodeModel<F>, crate::error::EModel<F>>(n3));
        assert(seq![n2].drop_last().push(n3) =~= seq![n3]);
        assert(spec_insert_back(node(Operator::RootNode, seq![n2]), leaf(o2), true) == Ok::<NodeModel<F>, crate::error::EModel<F>>(node(Operator::RootNode, seq![n3])));
        let st4 = ParseState { stack: seq![node(Operator::RootNode, seq![n3])], last_rightsided: false, open_braces: 0 };
    lemma_one_root(st3.stack[0], st4.stack[0]);
    assert(spec_place(st3.stack, leaf(spec_token_operator(toks[3], Some(toks[4]), st3.last_rightsided)->Some_0)) == Ok::<Seq<NodeModel<F>>, crate::error::EModel<F>>(st4.stack));
    assert(spec_parse_step(toks[3], Some(toks[4]), st3) == Ok::<ParseState<F>, crate::error::EModel<F>>(st4));
        // c goes to o2
        let m2 = node(o2, seq![rb, rc]);
        let n4 = node(o1, seq![ra, m2]);
        assert(goes_below(o2, rc.op));
        assert(seq![rb].push(rc) =~= seq![rb, rc]);
        assert(spec_insert_back(m, rc, false) == Ok::<NodeModel<F>, crate::error::EModel<F>>(m2));
        assert(seq![ra, m].drop_last().push(m2) =~= seq![ra, m2]);
        assert(seq![n2].push(rc) =~= seq![n2, rc]);
        assert(spec_insert_back(n3, rc, false) == Ok::<NodeModel<F>, crate::error::EModel<F>>(n4));
        assert(seq![n3].drop_last().push(n4) =~= seq![n4]);
        assert(spec_insert_back(node(Operator::RootNode, seq![n3]), rc, true) == Ok::<NodeModel<F>, crate::error::EModel<F>>(node(Operator::RootNode, seq![n4])));
        let st5 = ParseState { stack: seq![node(Operator::RootNode, seq![n4])], last_rightsided: true, open_braces: 0 };
    lemma_one_root(st4.stack[0], st5.stack[0]);
    assert(spec_place(st4.stack, leaf(spec_token_operator(toks[4], None, st4.last_rightsided)->Some_0)) == Ok::<Seq<NodeModel<F>>, crate::error::EModel<F>>(st5.stack));
    assert(spec_parse_step(toks[4], None, st4) == Ok::<ParseState<F>, crate::error::EModel<F>>(st5));
        lemma_one_root(st5.stack[0], st5.stack[0]);
        assert(spec_collapse_all(st5.stack) == Ok::<Seq<NodeModel<F>>, crate::error::EModel<F>>(st5.stack));
        assert(spec_parse_from(toks, 5, st5) == Ok::<NodeModel<F>, crate::error::EModel<F>>(node(Operator::RootNode, seq![n4])));
        assert(spec_parse_from(toks, 4, st4) == Ok::<NodeModel<F>, crate::error::EModel<F>>(node(Operator::RootNode, seq![n4])));
        assert(spec_parse_from(toks, 3, st3) == Ok::<NodeModel<F>, crate::error::EModel<F>>(node(Operator::RootNode, seq![n4])));
    } else {
        // o2 takes the tree of o1
        let n3 = node(o2, seq![n2]);
        assert(!goes_below(o1, o2));
        assert(seq![n2].drop_last().push(node(o2, Seq::<NodeModel<F>>::empty().push(n2))) =~= seq![n3]);
        assert(spec_insert_back(node(Operator::RootNode, seq![n2]), leaf(o2), true) == Ok::<NodeModel<F>, crate::error::EModel<F>>(node(Operator::RootNode, seq![n3])));
        let st4 = ParseState { stack: seq![node(Operator::RootNode, seq![n3])], last_rightsided: false, open_braces: 0 };
    lemma_one_root(st3.stack[0], st4.stack[0]);
    assert(spec_place(st3.stack, leaf(spec_token_operator(toks[3], Some(toks[4]), st3.last_rightsided)->Some_0)) == Ok::<Seq<NodeModel<F>>, crate::error::EModel<F>>(st4.stack));
    assert(spec_parse_step(toks[3], Some(toks[4]), st3) == Ok::<ParseState<F>, crate::error::EModel<F>>(st4));
        // c goes to o2
        let n4 = node(o2, seq![n2, rc]);
        assert(goes_below(o2, rc.op));
        assert(seq![n2].push(rc) =~= seq![n2, rc]);
        assert(spec_insert_back(n3, rc, false) == Ok::<NodeModel<F>, crate::error::EModel<F>>(n4));
        assert(seq![n3].drop_last().push(n4) =~= seq![n4]);
        assert(spec_insert_back(node(Operator::RootNode, seq![n3]), rc, true) == Ok::<NodeModel<F>, crate::error::EModel<F>>(node(Operator::RootNode, seq![n4])));
        let st5 = ParseState { stack: seq![node(Operator::RootNode, seq![n4])], last_rightsided: true, open_braces: 0 };
    lemma_one_root(st4.stack[0], st5.stack[0]);
    assert(spec_place(st4.stack, leaf(spec_token_operator(toks[4], None, st4.last_rightsided)->Some_0)) == Ok::<Seq<NodeModel<F>>, crate::error::EModel<F>>(st5.stack));
    assert(spec_parse_step(toks[4], None, st4) == Ok::<ParseState<F>, crate::error::EModel<F>>(st5));
        lemma_one_root(st5.stack[0], st5.stack[0]);
        assert(spec_collapse_all(st5.stack) == Ok::<Seq<NodeModel<F>>, crate::error::EModel<F>>(st5.stack));
        assert(spec_parse_from(toks, 5, st5) == Ok::<NodeModel<F>, crate::error::EModel<F>>(node(Operator::RootNode, seq![n4])));
        assert(spec_parse_from(toks, 4, st4) == Ok::<NodeModel<F>, crate::error::EModel<F>>(node(Operator::RootNode, seq![n4])));
        assert(spec_parse_from(toks, 3, st3) == Ok::<NodeModel<F>, crate::error::EModel<F>>(node(Operator::RootNode, seq![n4])));
    }
}

/// A sequence operator repeated between three names builds one node with the three names as its
/// elements, each under a root node of its own, rather than nesting: `a, b, c` is one tuple of
/// three elements and `a; b; c` one chain of three.
#[verifier::spinoff_prover]
#[verifier::rlimit(60)]
pub proof fn law_sequences_flatten<F>(a: String, b: String, c: String, t: Token<F>)
    requires
        t is Comma || t is Semicolon,
    ensures
        ({
            let toks = seq![Token::Identifier(a), t, Token::Identifier(b), t, Token::Identifier(c)];
            let op = if t is Comma { Operator::<F>::Tuple } else { Operator::<F>::Chain };
            spec_parse(toks) == Ok::<NodeModel<F>, crate::error::EModel<F>>(node(Operator::RootNode, seq![node(op, seq![
                node(Operator::RootNode, seq![read(a)]), node(Operator::RootNode, seq![read(b)]), node(Operator::RootNode, seq![read(c)])])]))
        }),
{
    let toks = seq![Token::Identifier(a), t, Token::Identifier(b), t, Token::Identifier(c)];
    let op = if t is Comma { Operator::<F>::Tuple } else { Operator::<F>::Chain };
    let ra: NodeModel<F> = read(a);
    let rb: NodeModel<F> = read(b);
    let rc: NodeModel<F> = read(c);
    let e = empty_root::<F>();
    let wa = node(Operator::RootNode, seq![ra]);
    let wb = node(Operator::RootNode, seq![rb]);
    let wc = node(Operator::RootNode, seq![rc]);
    assert(spec_token_operator(t, Some(Token::<F>::Identifier(b)), true) == Some(op));
    assert(spec_token_operator(t, Some(Token::<F>::Identifier(c)), true) == Some(op));
    assert(!t.spec_is_assignment() && !t.spec_is_leftsided_value() && !t.spec_is_rightsided_value());
    assert(toks.len() == 5);
    // a
    let st0 = ParseState { stack: seq![e], last_rightsided: false, open_braces: 0 };
    assert(spec_token_operator(Token::<F>::Identifier(a), Some(t), false) == Some(Operator::<F>::VariableIdentifierRead { identifier: a }));
    assert(spec_insert_back(e, ra, true) == Ok::<NodeModel<F>, crate::error::EModel<F>>(wa));
    lemma_one_root(e, wa);
    let st1 = ParseState { stack: seq![wa], last_rightsided: true, open_braces: 0 };
    assert(spec_place(st0.stack, ra) == Ok::<Seq<NodeModel<F>>, crate::error::EModel<F>>(st1.stack));
    assert(spec_parse_step(toks[0], Some(toks[1]), st0) == Ok::<ParseState<F>, crate::error::EModel<F>>(st1));
    // the first separator starts the sequence around the root
    let q1 = node(op, seq![wa, e]);
    assert(Seq::<NodeModel<F>>::empty().push(wa).push(e) =~= seq![wa, e]);
    assert(seq![wa].drop_last().push(e).push(node(op, Seq::<NodeModel<F>>::empty().push(wa).push(e))) =~= seq![e, q1]);
    let st2 = ParseState { stack: seq![e, q1], last_rightsided: false, open_braces: 0 };
    assert(spec_place(st1.stack, leaf(op)) == Ok::<Seq<NodeModel<F>>, crate::error::EModel<F>>(st2.stack));
    assert(spec_parse_step(toks[1], Some(toks[2]), st1) == Ok::<ParseState<F>, crate::error::EModel<F>>(st2));
    // b goes into the last element
    let q2 = node(op, seq![wa, wb]);
    assert(spec_token_operator(Token::<F>::Identifier(b), Some(t), false) == Some(Operator::<F>::VariableIdentifierRead { identifier: b }));
    assert(spec_insert_back(e, rb, true) == Ok::<NodeModel<F>, crate::error::EModel<F>>(wb));
    assert(seq![wa, e].drop_last().push(wb) =~= seq![wa, wb]);
    assert(seq![e, q1].drop_last().push(q2) =~= seq![e, q2]);
    let st3 = ParseState { stack: seq![e, q2], last_rightsided: true, open_braces: 0 };
    assert(spec_place(st2.stack, rb) == Ok::<Seq<NodeModel<F>>, crate::error::EModel<F>>(st3.stack));
    assert(spec_parse_step(toks[2], Some(toks[3]), st2) == Ok::<ParseState<F>, crate::error::EModel<F>>(st3));
    // the second separator extends the sequence
    let q3 = node(op, seq![wa, wb, e]);
    assert(same_sequence_op(op, op));
    assert(seq![wa, wb].push(e) =~= seq![wa, wb, e]);
    assert(seq![e, q2].drop_last().push(q3) =~= seq![e, q3]);
    let st4 = ParseState { stack: seq![e, q3], last_rightsided: false, open_braces: 0 };
    assert(spec_place(st3.stack, leaf(op)) == Ok::<Seq<NodeModel<F>>, crate::error::EModel<F>>(st4.stack));
    assert(spec_parse_step(toks[3], Some(toks[4]), st3) == Ok::<ParseState<F>, crate::error::EModel<F>>(st4));
    // c goes into the last element
    let q4 = node(op, seq![wa, wb, wc]);
    assert(spec_token_operator(Token::<F>::Identifier(c), None, false) == Some(Operator::<F>::VariableIdentifierRead { identifier: c }));
    assert(spec_insert_back(e, rc, true) == Ok::<NodeModel<F>, crate::error::EModel<F>>(wc));
    assert(seq![wa, wb, e].drop_last().push(wc) =~= seq![wa, wb, wc]);
    assert(seq![e, q3].drop_last().push(q4) =~= seq![e, q4]);
    let st5 = ParseState { stack: seq![e, q4], last_rightsided: true, open_braces: 0 };
    assert(spec_place(st4.stack, rc) == Ok::<Seq<NodeModel<F>>, crate::error::EModel<F>>(st5.stack));
    assert(spec_parse_step(toks[4], None, st4) == Ok::<ParseState<F>, crate::error::EModel<F>>(st5));
    // the end collapses the sequence into the root
    let done = node(Operator::RootNode, seq![q4]);
    assert(seq![e, q4].drop_last() =~= seq![e]);
    assert(e.children.push(q4) =~= seq![q4]);
    assert(seq![e].drop_last() =~= Seq::<NodeModel<F>>::empty());
    assert(Seq::<NodeModel<F>>::empty().push(done) =~= seq![done]);
    assert(seq![e, q4].last() == q4);
    assert(seq![e].last() == e);
    assert(spec_is_sequence(op));
    assert(node(e.op, e.children.push(q4)) == done);
    assert(spec_collapse_sequences(Seq::<NodeModel<F>>::empty(), done) == Ok::<Seq<NodeModel<F>>, crate::error::EModel<F>>(seq![done]));
    assert(spec_collapse_sequences(seq![e], q4) == Ok::<Seq<NodeModel<F>>, crate::error::EModel<F>>(seq![done]));
    assert(spec_collapse_all(st5.stack) == Ok::<Seq<NodeModel<F>>, crate::error::EModel<F>>(seq![done]));
    assert(spec_parse_from(toks, 5, st5) == Ok::<NodeModel<F>, crate::error::EModel<F>>(done));
    assert(spec_parse_from(toks, 4, st4) == spec_parse_from(toks, 5, st5));
    assert(spec_parse_from(toks, 3, st3) == spec_parse_from(toks, 4, st4));
    assert(spec_parse_from(toks, 2, st2) == spec_parse_from(toks, 3, st3));
    assert(spec_parse_from(toks, 1, st1) == spec_parse_from(toks, 2, st2));
    assert(spec_parse_from(toks, 0, st0) == spec_parse_from(toks, 1, st1));
}

} // verus!
