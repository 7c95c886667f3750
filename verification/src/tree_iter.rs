//! The nodes of an operator tree in pre-order, and the identifiers that they hold.
use vstd::prelude::*;
use crate::numeric::EvalexprFloat;
use crate::operator::Operator;
use crate::tree::{Node, NodeModel, lemma_model_children, lemma_child_smaller};

verus! {

/// The trees below the root of `m`, in pre-order: each child, followed by the trees below it.
pub open spec fn descendants<F>(m: NodeModel<F>) -> Seq<NodeModel<F>>
    decreases m, 1nat,
{
    children_descendants(m.children)
}

/// The trees `c` and the trees below them, in pre-order.
pub open spec fn children_descendants<F>(c: Seq<NodeModel<F>>) -> Seq<NodeModel<F>>
    decreases c, 0nat,
{
    if c.len() == 0 {
        Seq::empty()
    } else {
        children_descendants(c.drop_last()) + seq![c.last()] + descendants(c.last())
    }
}

/// The models of a sequence of node references.
pub open spec fn models_of_nodes<F>(s: Seq<&Node<F>>) -> Seq<NodeModel<F>> {
    s.map_values(|n: &Node<F>| n.model())
}

/// Appends the nodes below `node`, in pre-order, to `out`.
fn collect_nodes<'a, F: EvalexprFloat>(node: &'a Node<F>, out: &mut Vec<&'a Node<F>>)
    ensures
        models_of_nodes(final(out)@) == models_of_nodes(old(out)@) + descendants(node.model()),
    decreases node, 1nat,
{
    proof { lemma_model_children(*node); }
    let children = node.children();
    let ghost c = node.model().children;
    let ghost start = models_of_nodes(out@);
    let mut i: usize = 0;
    proof {
        assert(c.subrange(0, 0) =~= Seq::<NodeModel<F>>::empty());
        assert(start + Seq::<NodeModel<F>>::empty() =~= start);
    }
    while i < children.len()
        invariant
            i <= children@.len(),
            children@ == node.spec_children(),
            c == node.model().children,
            c.len() == children@.len(),
            forall|k: int| 0 <= k < children@.len() ==> #[trigger] c[k] == children@[k].model(),
            models_of_nodes(out@) == start + children_descendants(c.subrange(0, i as int)),
        decreases children@.len() - i,
    {
        let ghost before = models_of_nodes(out@);
        let child = &children[i];
        proof { lemma_child_smaller(*node, i as int); }
        out.push(child);
        proof {
            assert(models_of_nodes(out@) =~= before + seq![child.model()]);
        }
        let ghost middle = models_of_nodes(out@);
        collect_nodes(child, out);
        proof {
            let next = c.subrange(0, i + 1);
            assert(next.drop_last() =~= c.subrange(0, i as int));
            assert(next.last() == c[i as int]);
            assert(models_of_nodes(out@) =~= start + children_descendants(next));
        }
        i += 1;
    }
    proof {
        assert(c.subrange(0, children@.len() as int) =~= c);
    }
}

impl<F: EvalexprFloat> Node<F> {
    /// The nodes below this one, in pre-order.
    pub fn iter(&self) -> (r: Vec<&Node<F>>)
        ensures
            models_of_nodes(r@) == descendants(self.model()),
    {
        let mut out: Vec<&Node<F>> = Vec::new();
        proof { assert(models_of_nodes(out@) =~= Seq::<NodeModel<F>>::empty()); }
        collect_nodes(self, &mut out);
        proof { assert(Seq::<NodeModel<F>>::empty() + descendants(self.model()) =~= descendants(self.model())); }
        out
    }
}

/// Which identifiers a listing picks.
pub enum IdentifierKind {
    /// All identifiers.
    All,
    /// Identifiers of variables, read or written.
    Variables,
    /// Identifiers of variables that are read.
    ReadVariables,
    /// Identifiers of variables that are written.
    WriteVariables,
    /// Identifiers of functions.
    Functions,
}

/// The identifier that an operator holds, if it is of the kind.
pub open spec fn picked<F>(kind: IdentifierKind, op: Operator<F>) -> Option<Seq<char>> {
    match op {
        Operator::VariableIdentifierWrite { identifier } =>
            if kind is All || kind is Variables || kind is WriteVariables { Some(identifier@) } else { None },
        Operator::VariableIdentifierRead { identifier } =>
            if kind is All || kind is Variables || kind is ReadVariables { Some(identifier@) } else { None },
        Operator::FunctionIdentifier { identifier } =>
            if kind is All || kind is Functions { Some(identifier@) } else { None },
        _ => None,
    }
}

/// The identifiers of the kind that the trees hold at their roots, in order.
pub open spec fn identifiers_of<F>(kind: IdentifierKind, s: Seq<NodeModel<F>>) -> Seq<Seq<char>>
    decreases s.len(),
{
    if s.len() == 0 {
        Seq::empty()
    } else {
        identifiers_of(kind, s.drop_last()) + match picked(kind, s.last().op) {
            Some(id) => seq![id],
            None => Seq::empty(),
        }
    }
}

impl<F: EvalexprFloat> Node<F> {
    /// The identifiers of the kind in the tree below this node, in pre-order, one per occurrence.
    fn identifiers(&self, kind: IdentifierKind) -> (r: Vec<String>)
        ensures
            r@.map_values(|s: String| s@) == identifiers_of(kind, descendants(self.model())),
    {
        let nodes = self.iter();
        let ghost all = models_of_nodes(nodes@);
        let mut out: Vec<String> = Vec::new();
        let mut i: usize = 0;
        while i < nodes.len()
            invariant
                i <= nodes@.len(),
                all == models_of_nodes(nodes@),
                all == descendants(self.model()),
                out@.map_values(|s: String| s@) == identifiers_of(kind, all.subrange(0, i as int)),
            decreases nodes@.len() - i,
        {
            let node = nodes[i];
            proof {
                lemma_model_children(*node);
                let next = all.subrange(0, i + 1);
                assert(next.drop_last() =~= all.subrange(0, i as int));
                assert(next.last() == node.model());
            }
            let ghost before = out@;
            let id: Option<&String> = match node.operator() {
                Operator::VariableIdentifierWrite { identifier } =>
                    if matches!(kind, IdentifierKind::All | IdentifierKind::Variables | IdentifierKind::WriteVariables) { Some(identifier) } else { None },
                Operator::VariableIdentifierRead { identifier } =>
                    if matches!(kind, IdentifierKind::All | IdentifierKind::Variables | IdentifierKind::ReadVariables) { Some(identifier) } else { None },
                Operator::FunctionIdentifier { identifier } =>
                    if matches!(kind, IdentifierKind::All | IdentifierKind::Functions) { Some(identifier) } else { None },
                _ => None,
            };
            match id {
                Some(identifier) => {
                    out.push(identifier.clone());
                    proof {
                        assert(out@.map_values(|s: String| s@) =~= before.map_values(|s: String| s@).push(identifier@));
                    }
                },
                None => {},
            }
            i += 1;
        }
        proof {
            assert(all.subrange(0, nodes@.len() as int) =~= all);
        }
        out
    }

    /// All identifiers in the tree below this node, in pre-order, one per occurrence.
    pub fn iter_identifiers(&self) -> (r: Vec<String>)
        ensures
            r@.map_values(|s: String| s@) == identifiers_of(IdentifierKind::All, descendants(self.model())),
    {
        self.identifiers(IdentifierKind::All)
    }

    /// The identifiers of variables in the tree below this node, in pre-order, one per occurrence.
    pub fn iter_variable_identifiers(&self) -> (r: Vec<String>)
        ensures
            r@.map_values(|s: String| s@) == identifiers_of(IdentifierKind::Variables, descendants(self.model())),
    {
        self.identifiers(IdentifierKind::Variables)
    }

    /// The identifiers of variables that are read in the tree below this node, in pre-order.
    pub fn iter_read_variable_identifiers(&self) -> (r: Vec<String>)
        ensures
            r@.map_values(|s: String| s@) == identifiers_of(IdentifierKind::ReadVariables, descendants(self.model())),
    {
        self.identifiers(IdentifierKind::ReadVariables)
    }

    /// The identifiers of variables that are written in the tree below this node, in pre-order.
    pub fn iter_write_variable_identifiers(&self) -> (r: Vec<String>)
        ensures
            r@.map_values(|s: String| s@) == identifiers_of(IdentifierKind::WriteVariables, descendants(self.model())),
    {
        self.identifiers(IdentifierKind::WriteVariables)
    }

    /// The identifiers of functions in the tree below this node, in pre-order.
    pub fn iter_function_identifiers(&self) -> (r: Vec<String>)
        ensures
            r@.map_values(|s: String| s@) == identifiers_of(IdentifierKind::Functions, descendants(self.model())),
    {
        self.identifiers(IdentifierKind::Functions)
    }
}

} // verus!
