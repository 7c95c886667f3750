//! Writing an operator tree back as text: binary operators in parentheses, sequences with their
//! separators, values as they are displayed.
use vstd::prelude::*;
use crate::numeric::EvalexprFloat;
use crate::value::display_model;
use crate::operator::Operator;
use crate::tree::{Node, NodeModel, lemma_model_children, lemma_child_smaller};
use crate::text::push_str;

verus! {

/// What is known of the text of a tree: the text, that writing it fails (a node lacks an operand),
/// or only that it is written (a float's text is the float type's).
pub ghost enum DisplayOutcome {
    Text(Seq<char>),
    Fails,
    Written,
}

/// Two pieces written one after the other.
pub open spec fn then(a: DisplayOutcome, b: DisplayOutcome) -> DisplayOutcome {
    match (a, b) {
        (DisplayOutcome::Fails, _) => DisplayOutcome::Fails,
        (_, DisplayOutcome::Fails) => DisplayOutcome::Fails,
        (DisplayOutcome::Text(x), DisplayOutcome::Text(y)) => DisplayOutcome::Text(x + y),
        _ => DisplayOutcome::Written,
    }
}

/// A fixed piece of text.
pub open spec fn lit(s: Seq<char>) -> DisplayOutcome {
    DisplayOutcome::Text(s)
}

/// The sign that a binary operator is written with (empty for the others).
pub open spec fn binary_sign<F>(op: Operator<F>) -> Seq<char> {
    match op {
        Operator::Add => "+"@,
        Operator::Sub => "-"@,
        Operator::Mul => "*"@,
        Operator::Div => "/"@,
        Operator::Mod => "%"@,
        Operator::Exp => "^"@,
        Operator::Eq => "=="@,
        Operator::Neq => "!="@,
        Operator::Gt => ">"@,
        Operator::Lt => "<"@,
        Operator::Geq => ">="@,
        Operator::Leq => "<="@,
        Operator::And => "&&"@,
        Operator::Or => "||"@,
        Operator::Assign => "="@,
        Operator::AddAssign => "+="@,
        Operator::SubAssign => "-="@,
        Operator::MulAssign => "*="@,
        Operator::DivAssign => "/="@,
        Operator::ModAssign => "%="@,
        Operator::ExpAssign => "^="@,
        Operator::AndAssign => "&&="@,
        Operator::OrAssign => "||="@,
        _ => Seq::empty(),
    }
}

/// The text of the tree `m`: a binary operator as `(a sign b)` of its first two children, a
/// negation or a `!` before its first child, a root node and a chain as their children separated by
/// ` ` and `; `, a tuple in parentheses with its children separated by `, `, a value as it is
/// displayed, an identifier as itself, and a function call as its identifier, a space and its
/// children separated by spaces. A binary or unary operator without its operands fails.
pub open spec fn tree_text<F: EvalexprFloat>(m: NodeModel<F>) -> DisplayOutcome
    decreases m, 1nat,
{
    let c = m.children;
    match m.op {
        Operator::RootNode => children_text(c, " "@),
        Operator::Neg => if c.len() < 1 { DisplayOutcome::Fails } else { then(lit("-"@), tree_text(c[0])) },
        Operator::Not => if c.len() < 1 { DisplayOutcome::Fails } else { then(lit("!"@), tree_text(c[0])) },
        Operator::Tuple => then(then(lit("("@), children_text(c, ", "@)), lit(")"@)),
        Operator::Chain => children_text(c, "; "@),
        Operator::Const { value } => match display_model(value@) {
            Some(t) => DisplayOutcome::Text(t),
            None => DisplayOutcome::Written,
        },
        Operator::VariableIdentifierWrite { identifier } => DisplayOutcome::Text(identifier@),
        Operator::VariableIdentifierRead { identifier } => DisplayOutcome::Text(identifier@),
        Operator::FunctionIdentifier { identifier } => then(lit(identifier@ + " "@), children_text(c, " "@)),
        _ => if c.len() < 2 {
            DisplayOutcome::Fails
        } else {
            then(then(then(then(lit("("@), tree_text(c[0])), lit(" "@ + binary_sign(m.op) + " "@)), tree_text(c[1])), lit(")"@))
        },
    }
}

/// The texts of the trees `c`, separated by `sep`.
pub open spec fn children_text<F: EvalexprFloat>(c: Seq<NodeModel<F>>, sep: Seq<char>) -> DisplayOutcome
    decreases c, 0nat,
{
    if c.len() == 0 {
        lit(Seq::empty())
    } else if c.len() == 1 {
        tree_text(c[0])
    } else {
        then(then(children_text(c.drop_last(), sep), lit(sep)), tree_text(c.last()))
    }
}

/// Whether a string is what the outcome allows: the text, no string where writing fails, and
/// some string where only that it is written is known.
pub open spec fn written_as(o: DisplayOutcome, r: Option<String>) -> bool {
    match o {
        DisplayOutcome::Text(t) => r matches Some(s) && s@ == t,
        DisplayOutcome::Fails => r is None,
        DisplayOutcome::Written => r is Some,
    }
}

/// Appends `piece` to `acc` where both are written.
fn append_written(acc: Option<String>, piece: Option<String>, Ghost(a): Ghost<DisplayOutcome>, Ghost(b): Ghost<DisplayOutcome>) -> (r: Option<String>)
    requires
        written_as(a, acc),
        written_as(b, piece),
    ensures
        written_as(then(a, b), r),
{
    match (acc, piece) {
        (Some(mut s), Some(p)) => {
            push_str(&mut s, p.as_str());
            Some(s)
        },
        _ => None,
    }
}

impl<F: EvalexprFloat> Node<F> {
    /// Writes the tree as text; `None` where a binary or unary operator lacks its operands.
    pub fn to_display_string(&self) -> (r: Option<String>)
        ensures
            written_as(tree_text(self.model()), r),
        decreases self, 1nat,
    {
        proof { lemma_model_children(*self); }
        let children = self.children();
        let ghost m = self.model();
        match self.operator() {
            Operator::RootNode => write_children(self, " "),
            Operator::Neg | Operator::Not => {
                if children.len() < 1 {
                    return None;
                }
                let sign = if matches!(self.operator(), Operator::Neg) { "-" } else { "!" };
                proof { lemma_child_smaller(*self, 0); }
                let operand = children[0].to_display_string();
                append_written(Some(sign.to_owned()), operand, Ghost(lit(sign@)), Ghost(tree_text(m.children[0])))
            },
            Operator::Tuple => {
                let inner = write_children(self, ", ");
                let r = append_written(Some("(".to_owned()), inner, Ghost(lit("("@)), Ghost(children_text(m.children, ", "@)));
                append_written(r, Some(")".to_owned()), Ghost(then(lit("("@), children_text(m.children, ", "@))), Ghost(lit(")"@)))
            },
            Operator::Chain => write_children(self, "; "),
            Operator::Const { value } => Some(value.to_display_string()),
            Operator::VariableIdentifierWrite { identifier } => Some(identifier.clone()),
            Operator::VariableIdentifierRead { identifier } => Some(identifier.clone()),
            Operator::FunctionIdentifier { identifier } => {
                let mut head = identifier.clone();
                push_str(&mut head, " ");
                let rest = write_children(self, " ");
                append_written(Some(head), rest, Ghost(lit(identifier@ + " "@)), Ghost(children_text(m.children, " "@)))
            },
            op => {
                if children.len() < 2 {
                    return None;
                }
                let sign = binary_sign_text(op);
                let mut middle = " ".to_owned();
                push_str(&mut middle, sign);
                push_str(&mut middle, " ");
                proof { lemma_child_smaller(*self, 0); lemma_child_smaller(*self, 1); }
                let left = children[0].to_display_string();
                let right = children[1].to_display_string();
                let ghost l = tree_text(m.children[0]);
                let ghost rt = tree_text(m.children[1]);
                let a = append_written(Some("(".to_owned()), left, Ghost(lit("("@)), Ghost(l));
                let b = append_written(a, Some(middle), Ghost(then(lit("("@), l)), Ghost(lit(" "@ + binary_sign(m.op) + " "@)));
                let c = append_written(b, right, Ghost(then(then(lit("("@), l), lit(" "@ + binary_sign(m.op) + " "@))), Ghost(rt));
                append_written(c, Some(")".to_owned()),
                    Ghost(then(then(then(lit("("@), l), lit(" "@ + binary_sign(m.op) + " "@)), rt)), Ghost(lit(")"@)))
            },
        }
    }
}

/// The sign that a binary operator is written with.
fn binary_sign_text<F>(op: &Operator<F>) -> (r: &'static str)
    ensures
        r@ == binary_sign(*op),
{
    match op {
        Operator::Add => "+",
        Operator::Sub => "-",
        Operator::Mul => "*",
        Operator::Div => "/",
        Operator::Mod => "%",
        Operator::Exp => "^",
        Operator::Eq => "==",
        Operator::Neq => "!=",
        Operator::Gt => ">",
        Operator::Lt => "<",
        Operator::Geq => ">=",
        Operator::Leq => "<=",
        Operator::And => "&&",
        Operator::Or => "||",
        Operator::Assign => "=",
        Operator::AddAssign => "+=",
        Operator::SubAssign => "-=",
        Operator::MulAssign => "*=",
        Operator::DivAssign => "/=",
        Operator::ModAssign => "%=",
        Operator::ExpAssign => "^=",
        Operator::AndAssign => "&&=",
        Operator::OrAssign => "||=",
        _ => {
            proof { reveal_strlit(""); }
            assert(""@ =~= Seq::<char>::empty());
            ""
        },
    }
}

/// The texts of the children of `node`, separated by `sep`.
fn write_children<F: EvalexprFloat>(node: &Node<F>, sep: &str) -> (r: Option<String>)
    ensures
        written_as(children_text(node.model().children, sep@), r),
    decreases node, 0nat,
{
    proof { lemma_model_children(*node); }
    let children = node.children();
    let ghost c = node.model().children;
    if children.len() == 0 {
        return Some(String::new());
    }
    proof { lemma_child_smaller(*node, 0); }
    let mut acc = children[0].to_display_string();
    proof {
        assert(c.subrange(0, 1) =~= seq![c[0]]);
    }
    let mut i: usize = 1;
    while i < children.len()
        invariant
            1 <= i <= children@.len(),
            children@ == node.spec_children(),
            c == node.model().children,
            c.len() == children@.len(),
            forall|k: int| 0 <= k < children@.len() ==> #[trigger] c[k] == children@[k].model(),
            written_as(children_text(c.subrange(0, i as int), sep@), acc),
        decreases children@.len() - i,
    {
        let ghost prefix = c.subrange(0, i as int);
        proof { lemma_child_smaller(*node, i as int); }
        let next_text = children[i].to_display_string();
        let with_sep = append_written(acc, Some(sep.to_owned()), Ghost(children_text(prefix, sep@)), Ghost(lit(sep@)));
        acc = append_written(with_sep, next_text, Ghost(then(children_text(prefix, sep@), lit(sep@))), Ghost(tree_text(c[i as int])));
        proof {
            let next = c.subrange(0, i + 1);
            assert(next.drop_last() =~= prefix);
            assert(next.last() == c[i as int]);
        }
        i += 1;
    }
    proof {
        assert(c.subrange(0, children@.len() as int) =~= c);
    }
    acc
}

} // verus!
