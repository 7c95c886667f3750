//! The operator tree: how it is built from tokens and how it is evaluated.
use vstd::prelude::*;
use crate::numeric::EvalexprFloat;
use crate::value::{Value, VModel, IntType, models_of, lemma_models_of};
use crate::error::{EvalexprError, EvalexprResult, EModel, RModel, result_model};
use crate::context::{Context, ContextWithMutableVariables, HashMapContext};
use crate::operator::{Operator, float_arithmetic, boolean_operation, spec_eval_op, spec_eval_op_mut, spec_precedence, spec_is_left_to_right, spec_is_sequence, spec_max_argument_amount, spec_is_leaf, spec_is_unary};
use crate::token::Token;

verus! {

/// A node in the operator tree.
/// The operator tree is created by the crate-level `build_operator_tree` method.
/// It can be evaluated for a given context with the `Node::eval` method.
///
/// The advantage of constructing the operator tree separately from the actual evaluation is that it can be
/// evaluated arbitrarily often with different contexts.
#[derive(Debug, PartialEq)]
pub struct Node<F> {
    operator: Operator<F>,
    children: Vec<Node<F>>,
}

/// The variables, the builtin-function switch and whether the context defines functions:
/// what evaluation reads of a context.
pub struct CtxView<F> {
    pub vars: Map<Seq<char>, VModel<F>>,
    pub builtins_disabled: bool,
    pub has_functions: bool,
}

/// What evaluation reads of the context `c`.
pub open spec fn ctx_view<F: EvalexprFloat, C: Context<F>>(c: C) -> CtxView<F> {
    CtxView { vars: c.spec_variables(), builtins_disabled: c.spec_builtins_disabled(), has_functions: c.spec_has_functions() }
}

/// What the tree rooted at `node` evaluates to in a context that cannot be modified:
/// its children are evaluated from left to right, the first error is the result, and else the
/// operator is applied to their values. `None` where the result depends on a function that the
/// context defines.
pub closed spec fn spec_eval_node<F: EvalexprFloat>(node: Node<F>, ctx: CtxView<F>) -> Option<RModel<F>>
    decreases node, 1nat,
{
    match spec_eval_children(node.children@, ctx) {
        Some(Ok(args)) => spec_eval_op(node.operator, args, ctx.vars, ctx.builtins_disabled, ctx.has_functions),
        Some(Err(e)) => Some(Err(e)),
        None => None,
    }
}

/// The values of the trees `children`, evaluated from left to right, or the first error.
pub closed spec fn spec_eval_children<F: EvalexprFloat>(children: Seq<Node<F>>, ctx: CtxView<F>) -> Option<Result<Seq<VModel<F>>, EModel<F>>>
    decreases children, 0nat,
{
    if children.len() == 0 {
        Some(Ok(Seq::empty()))
    } else {
        match spec_eval_children(children.drop_last(), ctx) {
            Some(Ok(prefix)) => match spec_eval_node(children.last(), ctx) {
                Some(Ok(v)) => Some(Ok(prefix.push(v))),
                Some(Err(e)) => Some(Err(e)),
                None => None,
            },
            Some(Err(e)) => Some(Err(e)),
            None => None,
        }
    }
}

/// What the tree rooted at `node` evaluates to in a mutable context of type `C` that holds `vars`,
/// together with the variables afterwards. Assignments take effect in the order of evaluation.
pub closed spec fn spec_eval_node_mut<F: EvalexprFloat, C: ContextWithMutableVariables<F>>(node: Node<F>, vars: Map<Seq<char>, VModel<F>>, builtins_disabled: bool, has_functions: bool) -> Option<(RModel<F>, Map<Seq<char>, VModel<F>>)>
    decreases node, 1nat,
{
    match spec_eval_children_mut::<F, C>(node.children@, vars, builtins_disabled, has_functions) {
        Some((Ok(args), vars2)) => spec_eval_op_mut::<F, C>(node.operator, args, vars2, builtins_disabled, has_functions),
        Some((Err(e), vars2)) => Some((Err(e), vars2)),
        None => None,
    }
}

/// The values of the trees `children`, evaluated from left to right in a mutable context, or the first error,
/// together with the variables afterwards.
pub closed spec fn spec_eval_children_mut<F: EvalexprFloat, C: ContextWithMutableVariables<F>>(children: Seq<Node<F>>, vars: Map<Seq<char>, VModel<F>>, builtins_disabled: bool, has_functions: bool) -> Option<(Result<Seq<VModel<F>>, EModel<F>>, Map<Seq<char>, VModel<F>>)>
    decreases children, 0nat,
{
    if children.len() == 0 {
        Some((Ok(Seq::empty()), vars))
    } else {
        match spec_eval_children_mut::<F, C>(children.drop_last(), vars, builtins_disabled, has_functions) {
            Some((Ok(prefix), vars2)) => match spec_eval_node_mut::<F, C>(children.last(), vars2, builtins_disabled, has_functions) {
                Some((Ok(v), vars3)) => Some((Ok(prefix.push(v)), vars3)),
                Some((Err(e), vars3)) => Some((Err(e), vars3)),
                None => None,
            },
            Some((Err(e), vars2)) => Some((Err(e), vars2)),
            None => None,
        }
    }
}

/// The result of evaluating into a string: the string, `ExpectedString` for another value, or the error.
pub open spec fn string_result<F>(m: RModel<F>, r: EvalexprResult<String, F>) -> bool {
    match m {
        Ok(VModel::Str(s)) => r matches Ok(x) && x@ == s,
        Ok(v) => r matches Err(e) && e@ == EModel::<F>::ExpectedString { actual: v },
        Err(e) => r matches Err(x) && x@ == e,
    }
}

/// The result of evaluating into an integer.
pub open spec fn int_result<F>(m: RModel<F>, r: EvalexprResult<IntType, F>) -> bool {
    match m {
        Ok(VModel::Int(i)) => r matches Ok(x) && x as int == i,
        Ok(v) => r matches Err(e) && e@ == EModel::<F>::ExpectedInt { actual: v },
        Err(e) => r matches Err(x) && x@ == e,
    }
}

/// The result of evaluating into a float (an integer is an error).
pub open spec fn float_result<F>(m: RModel<F>, r: EvalexprResult<F, F>) -> bool {
    match m {
        Ok(VModel::Float(f)) => r == Ok::<F, EvalexprError<F>>(f),
        Ok(v) => r matches Err(e) && e@ == EModel::<F>::ExpectedFloat { actual: v },
        Err(e) => r matches Err(x) && x@ == e,
    }
}

/// The result of evaluating into a number (an integer is converted into a float).
pub open spec fn number_result<F: EvalexprFloat>(m: RModel<F>, r: EvalexprResult<F, F>) -> bool {
    match m {
        Ok(VModel::Float(f)) => r == Ok::<F, EvalexprError<F>>(f),
        Ok(VModel::Int(i)) => r == Ok::<F, EvalexprError<F>>(F::spec_from_int(i as i64)),
        Ok(v) => r matches Err(e) && e@ == EModel::<F>::ExpectedNumber { actual: v },
        Err(e) => r matches Err(x) && x@ == e,
    }
}

/// The result of evaluating into a boolean.
pub open spec fn boolean_result<F>(m: RModel<F>, r: EvalexprResult<bool, F>) -> bool {
    match m {
        Ok(VModel::Boolean(b)) => r == Ok::<bool, EvalexprError<F>>(b),
        Ok(v) => r matches Err(e) && e@ == EModel::<F>::ExpectedBoolean { actual: v },
        Err(e) => r matches Err(x) && x@ == e,
    }
}

/// The result of evaluating into a tuple.
pub open spec fn tuple_result<F>(m: RModel<F>, r: EvalexprResult<Vec<Value<F>>, F>) -> bool {
    match m {
        Ok(VModel::Tuple(t)) => r matches Ok(x) && models_of(x@) == t,
        Ok(v) => r matches Err(e) && e@ == EModel::<F>::ExpectedTuple { actual: v },
        Err(e) => r matches Err(x) && x@ == e,
    }
}

/// The result of evaluating into the empty value.
pub open spec fn empty_result<F>(m: RModel<F>, r: EvalexprResult<(), F>) -> bool {
    match m {
        Ok(VModel::Empty) => r is Ok,
        Ok(v) => r matches Err(e) && e@ == EModel::<F>::ExpectedEmpty { actual: v },
        Err(e) => r matches Err(x) && x@ == e,
    }
}

/// Converts the result of an evaluation into a string result.
pub fn into_string<F: EvalexprFloat>(r: EvalexprResult<Value<F>, F>) -> (s: EvalexprResult<String, F>)
    ensures
        string_result(result_model(r), s),
{
    match r {
        Ok(Value::String(string)) => Ok(string),
        Ok(value) => Err(EvalexprError::expected_string(value)),
        Err(error) => Err(error),
    }
}

/// Converts the result of an evaluation into an integer result.
pub fn into_int<F: EvalexprFloat>(r: EvalexprResult<Value<F>, F>) -> (s: EvalexprResult<IntType, F>)
    ensures
        int_result(result_model(r), s),
{
    match r {
        Ok(Value::Int(n)) => Ok(n),
        Ok(value) => Err(EvalexprError::expected_int(value)),
        Err(error) => Err(error),
    }
}

/// Converts the result of an evaluation into a float result.
pub fn into_float<F: EvalexprFloat>(r: EvalexprResult<Value<F>, F>) -> (s: EvalexprResult<F, F>)
    ensures
        float_result(result_model(r), s),
{
    match r {
        Ok(Value::Float(float)) => Ok(float),
        Ok(value) => Err(EvalexprError::expected_float(value)),
        Err(error) => Err(error),
    }
}

/// Converts the result of an evaluation into a number result; an integer is converted into a float.
pub fn into_number<F: EvalexprFloat>(r: EvalexprResult<Value<F>, F>) -> (s: EvalexprResult<F, F>)
    ensures
        number_result(result_model(r), s),
{
    match r {
        Ok(Value::Int(n)) => Ok(F::from_int(n)),
        Ok(Value::Float(float)) => Ok(float),
        Ok(value) => Err(EvalexprError::expected_number(value)),
        Err(error) => Err(error),
    }
}

/// Converts the result of an evaluation into a boolean result.
pub fn into_boolean<F: EvalexprFloat>(r: EvalexprResult<Value<F>, F>) -> (s: EvalexprResult<bool, F>)
    ensures
        boolean_result(result_model(r), s),
{
    match r {
        Ok(Value::Boolean(boolean)) => Ok(boolean),
        Ok(value) => Err(EvalexprError::expected_boolean(value)),
        Err(error) => Err(error),
    }
}

/// Converts the result of an evaluation into a tuple result.
pub fn into_tuple<F: EvalexprFloat>(r: EvalexprResult<Value<F>, F>) -> (s: EvalexprResult<Vec<Value<F>>, F>)
    ensures
        tuple_result(result_model(r), s),
{
    match r {
        Ok(Value::Tuple(tuple)) => Ok(tuple),
        Ok(value) => Err(EvalexprError::expected_tuple(value)),
        Err(error) => Err(error),
    }
}

/// Converts the result of an evaluation into an empty result.
pub fn into_empty<F: EvalexprFloat>(r: EvalexprResult<Value<F>, F>) -> (s: EvalexprResult<(), F>)
    ensures
        empty_result(result_model(r), s),
{
    match r {
        Ok(Value::Empty) => Ok(()),
        Ok(value) => Err(EvalexprError::expected_empty(value)),
        Err(error) => Err(error),
    }
}

impl<F: EvalexprFloat> Node<F> {
    /// The operator of the node.
    pub closed spec fn spec_operator(&self) -> Operator<F> {
        self.operator
    }

    /// The children of the node.
    pub closed spec fn spec_children(&self) -> Seq<Node<F>> {
        self.children@
    }

    fn new(operator: Operator<F>) -> (r: Self)
        ensures
            r.operator == operator,
            r.children@.len() == 0,
    {
        Node { operator, children: Vec::new() }
    }

    fn root_node() -> (r: Self)
        ensures
            r.operator is RootNode,
            r.children@.len() == 0,
    {
        Self::new(Operator::RootNode)
    }

    /// Returns the children of this node.
    pub fn children(&self) -> (r: &Vec<Node<F>>)
        ensures
            r@ == self.spec_children(),
    {
        &self.children
    }

    /// Returns the operator associated with this node.
    pub fn operator(&self) -> (r: &Operator<F>)
        ensures
            *r == self.spec_operator(),
    {
        &self.operator
    }

    /// Returns the children of this node for writing. Writing to them may leave an operator
    /// with an amount or kind of arguments that it does not take.
    pub fn children_mut(&mut self) -> (r: &mut Vec<Node<F>>)
        ensures
            r@ == old(self).spec_children(),
            final(self).spec_children() == final(r)@,
            final(self).spec_operator() == old(self).spec_operator(),
    {
        &mut self.children
    }

    /// Returns the operator of this node for writing. Writing to it may leave an operator with
    /// an amount or kind of arguments that it does not take.
    pub fn operator_mut(&mut self) -> (r: &mut Operator<F>)
        ensures
            *r == old(self).spec_operator(),
            final(self).spec_operator() == *final(r),
            final(self).spec_children() == old(self).spec_children(),
    {
        &mut self.operator
    }

    /// Evaluates the operator tree rooted at this node with the given context.
    ///
    /// Fails, if one of the operators in the expression tree fails.
    pub fn eval_with_context<C: Context<F>>(&self, context: &C) -> (r: EvalexprResult<Value<F>, F>)
        ensures
            spec_eval_node(*self, ctx_view(*context)) matches Some(m) ==> result_model(r) == m,
            shape_admits(spec_shape_model(node_model(*self), ctx_view(*context)), result_model(r)),
        decreases self,
    {
        let ghost ctx = ctx_view(*context);
        let ghost nm = node_models(self.children@);
        proof {
            lemma_eval_model(*self, ctx);
            lemma_node_models(self.children@);
            lemma_shape_children(nm, ctx);
        }
        let mut arguments: Vec<Value<F>> = Vec::new();
        let mut i: usize = 0;
        while i < self.children.len()
            invariant
                i <= self.children@.len(),
                ctx == ctx_view(*context),
                nm == node_models(self.children@),
                nm.len() == self.children@.len(),
                forall|j: int| 0 <= j < self.children@.len() ==> #[trigger] nm[j] == node_model(self.children@[j]),
                spec_eval_children(self.children@.subrange(0, i as int), ctx) matches Some(x)
                    ==> x == Ok::<Seq<VModel<F>>, EModel<F>>(models_of(arguments@)),
                arguments@.len() == i,
                spec_shape_children(nm.subrange(0, i as int), ctx) matches Some(k) ==> (k.len() == i
                    && forall|j: int| 0 <= j < i ==> shape_admits(#[trigger] k[j], Ok::<VModel<F>, EModel<F>>(arguments@[j]@))),
            decreases self.children@.len() - i,
        {
            let ghost prefix = self.children@.subrange(0, i as int);
            let ghost next = self.children@.subrange(0, i + 1);
            assert(next.drop_last() =~= prefix);
            assert(nm.subrange(0, i + 1).drop_last() =~= nm.subrange(0, i as int));
            let child = &self.children[i];
            assert(next.last() == *child);
            assert(nm.subrange(0, i + 1).last() == node_model(*child));
            let value = child.eval_with_context(context);
            match value {
                Ok(v) => {
                    let ghost before = arguments@;
                    arguments.push(v);
                    proof {
                        lemma_models_of(before);
                        lemma_models_of(arguments@);
                        assert(arguments@.drop_last() =~= before);
                        if let Some(k) = spec_shape_children(nm.subrange(0, i + 1), ctx) {
                            assert forall|j: int| 0 <= j < i + 1 implies shape_admits(#[trigger] k[j], Ok::<VModel<F>, EModel<F>>(arguments@[j]@)) by {
                                if j < i {
                                    assert(arguments@[j] == before[j]);
                                }
                            }
                        }
                    }
                },
                Err(e) => {
                    proof {
                        if spec_eval_children(self.children@, ctx) is Some {
                            lemma_children_prefix(self.children@, i as int + 1, ctx);
                        }
                        lemma_eval_model(*self, ctx);
                        assert(node_model(*self).children == nm);
                        lemma_shape_children(nm, ctx);
                        if let Some(k) = spec_shape_children(nm, ctx) {
                            assert(k[i as int] == spec_shape_model(nm[i as int], ctx));
                            assert(nm[i as int] == node_model(*child));
                        }
                    }
                    return Err(e);
                },
            }
            i += 1;
        }
        proof {
            assert(self.children@.subrange(0, self.children@.len() as int) =~= self.children@);
            assert(nm.subrange(0, nm.len() as int) =~= nm);
            lemma_models_of(arguments@);
            lemma_shape_children(nm, ctx);
            if let Some(k) = spec_shape_children(nm, ctx) {
                lemma_shape_op(self.operator, k, models_of(arguments@));
            }
        }
        self.operator.eval(&arguments, context)
    }
}

impl<F: EvalexprFloat> Node<F> {
    /// Evaluates the operator tree rooted at this node with the given mutable context.
    ///
    /// Fails, if one of the operators in the expression tree fails.
    pub fn eval_with_context_mut<C: ContextWithMutableVariables<F>>(&self, context: &mut C) -> (r: EvalexprResult<Value<F>, F>)
        ensures
            spec_eval_node_mut::<F, C>(*self, old(context).spec_variables(), old(context).spec_builtins_disabled(),
                old(context).spec_has_functions()) matches Some((m, vars))
                ==> result_model(r) == m && final(context).spec_variables() == vars,
            final(context).spec_builtins_disabled() == old(context).spec_builtins_disabled(),
            final(context).spec_has_functions() == old(context).spec_has_functions(),
        decreases self,
    {
        let ghost vars0 = context.spec_variables();
        let ghost bd = context.spec_builtins_disabled();
        let ghost hf = context.spec_has_functions();
        let mut arguments: Vec<Value<F>> = Vec::new();
        let mut i: usize = 0;
        while i < self.children.len()
            invariant
                i <= self.children@.len(),
                bd == context.spec_builtins_disabled(),
                hf == context.spec_has_functions(),
                bd == old(context).spec_builtins_disabled(),
                hf == old(context).spec_has_functions(),
                vars0 == old(context).spec_variables(),
                spec_eval_children_mut::<F, C>(self.children@.subrange(0, i as int), vars0, bd, hf) matches Some((x, vars))
                    ==> x == Ok::<Seq<VModel<F>>, EModel<F>>(models_of(arguments@)) && vars == context.spec_variables(),
            decreases self.children@.len() - i,
        {
            let ghost prefix = self.children@.subrange(0, i as int);
            let ghost next = self.children@.subrange(0, i + 1);
            assert(next.drop_last() =~= prefix);
            let child = &self.children[i];
            assert(next.last() == *child);
            let value = child.eval_with_context_mut(context);
            match value {
                Ok(v) => {
                    let ghost before = arguments@;
                    arguments.push(v);
                    proof {
                        lemma_models_of(before);
                        lemma_models_of(arguments@);
                        assert(arguments@.drop_last() =~= before);
                    }
                },
                Err(e) => {
                    proof {
                        if spec_eval_children_mut::<F, C>(self.children@, vars0, bd, hf) is Some {
                            lemma_children_prefix_mut::<F, C>(self.children@, i as int + 1, vars0, bd, hf);
                        }
                    }
                    return Err(e);
                },
            }
            i += 1;
        }
        proof {
            assert(self.children@.subrange(0, self.children@.len() as int) =~= self.children@);
        }
        self.operator.eval_mut(&arguments, context)
    }
}

/// Evaluating children in a mutable context stops at the first error.
proof fn lemma_children_prefix_mut<F: EvalexprFloat, C: ContextWithMutableVariables<F>>(children: Seq<Node<F>>, i: int, vars: Map<Seq<char>, VModel<F>>, bd: bool, hf: bool)
    requires
        0 <= i <= children.len(),
        spec_eval_children_mut::<F, C>(children, vars, bd, hf) is Some,
    ensures
        spec_eval_children_mut::<F, C>(children.subrange(0, i), vars, bd, hf) is Some,
        spec_eval_children_mut::<F, C>(children.subrange(0, i), vars, bd, hf) matches Some((Err(e), v))
            ==> spec_eval_children_mut::<F, C>(children, vars, bd, hf) == Some((Err::<Seq<VModel<F>>, EModel<F>>(e), v)),
    decreases children.len() - i,
{
    if i < children.len() {
        assert(children.subrange(0, i + 1).drop_last() =~= children.subrange(0, i));
        lemma_children_prefix_mut::<F, C>(children, i + 1, vars, bd, hf);
    } else {
        assert(children.subrange(0, i) =~= children);
    }
}

impl<F: EvalexprFloat> Node<F> {
    /// Evaluates the operator tree rooted at this node with a fresh `HashMapContext`.
    ///
    /// Fails, if one of the operators in the expression tree fails.
    pub fn eval(&self) -> (r: EvalexprResult<Value<F>, F>)
        ensures
            spec_eval_node_mut::<F, HashMapContext<F>>(*self, Map::empty(), false, false) matches Some((m, _)) ==> result_model(r) == m,
    {
        let mut context = HashMapContext::new();
        self.eval_with_context_mut(&mut context)
    }

    /// Evaluates the operator tree rooted at this node into a string with the given context.
    ///
    /// Fails, if one of the operators in the expression tree fails.
    pub fn eval_string_with_context<C: Context<F>>(&self, context: &C) -> (r: EvalexprResult<String, F>)
        ensures
            spec_eval_node(*self, ctx_view(*context)) matches Some(m) ==> string_result(m, r),
    {
        into_string(self.eval_with_context(context))
    }

    /// Evaluates the operator tree rooted at this node into a string with the given mutable context.
    ///
    /// Fails, if one of the operators in the expression tree fails.
    pub fn eval_string_with_context_mut<C: ContextWithMutableVariables<F>>(&self, context: &mut C) -> (r: EvalexprResult<String, F>)
        ensures
            spec_eval_node_mut::<F, C>(*self, old(context).spec_variables(), old(context).spec_builtins_disabled(),
                old(context).spec_has_functions()) matches Some((m, vars))
                ==> string_result(m, r) && final(context).spec_variables() == vars,
            final(context).spec_builtins_disabled() == old(context).spec_builtins_disabled(),
            final(context).spec_has_functions() == old(context).spec_has_functions(),
    {
        into_string(self.eval_with_context_mut(context))
    }

    /// Evaluates the operator tree rooted at this node into a string with a fresh `HashMapContext`.
    ///
    /// Fails, if one of the operators in the expression tree fails.
    pub fn eval_string(&self) -> (r: EvalexprResult<String, F>)
        ensures
            spec_eval_node_mut::<F, HashMapContext<F>>(*self, Map::empty(), false, false) matches Some((m, _)) ==> string_result(m, r),
    {
        let mut context = HashMapContext::new();
        self.eval_string_with_context_mut(&mut context)
    }

    /// Evaluates the operator tree rooted at this node into a float with the given context.
    ///
    /// Fails, if one of the operators in the expression tree fails.
    pub fn eval_float_with_context<C: Context<F>>(&self, context: &C) -> (r: EvalexprResult<F, F>)
        ensures
            spec_eval_node(*self, ctx_view(*context)) matches Some(m) ==> float_result(m, r),
    {
        into_float(self.eval_with_context(context))
    }

    /// Evaluates the operator tree rooted at this node into a float with the given mutable context.
    ///
    /// Fails, if one of the operators in the expression tree fails.
    pub fn eval_float_with_context_mut<C: ContextWithMutableVariables<F>>(&self, context: &mut C) -> (r: EvalexprResult<F, F>)
        ensures
            spec_eval_node_mut::<F, C>(*self, old(context).spec_variables(), old(context).spec_builtins_disabled(),
                old(context).spec_has_functions()) matches Some((m, vars))
                ==> float_result(m, r) && final(context).spec_variables() == vars,
            final(context).spec_builtins_disabled() == old(context).spec_builtins_disabled(),
            final(context).spec_has_functions() == old(context).spec_has_functions(),
    {
        into_float(self.eval_with_context_mut(context))
    }

    /// Evaluates the operator tree rooted at this node into a float with a fresh `HashMapContext`.
    ///
    /// Fails, if one of the operators in the expression tree fails.
    pub fn eval_float(&self) -> (r: EvalexprResult<F, F>)
        ensures
            spec_eval_node_mut::<F, HashMapContext<F>>(*self, Map::empty(), false, false) matches Some((m, _)) ==> float_result(m, r),
    {
        let mut context = HashMapContext::new();
        self.eval_float_with_context_mut(&mut context)
    }

    /// Evaluates the operator tree rooted at this node into an integer with the given context.
    ///
    /// Fails, if one of the operators in the expression tree fails.
    pub fn eval_int_with_context<C: Context<F>>(&self, context: &C) -> (r: EvalexprResult<IntType, F>)
        ensures
            spec_eval_node(*self, ctx_view(*context)) matches Some(m) ==> int_result(m, r),
    {
        into_int(self.eval_with_context(context))
    }

    /// Evaluates the operator tree rooted at this node into an integer with the given mutable context.
    ///
    /// Fails, if one of the operators in the expression tree fails.
    pub fn eval_int_with_context_mut<C: ContextWithMutableVariables<F>>(&self, context: &mut C) -> (r: EvalexprResult<IntType, F>)
        ensures
            spec_eval_node_mut::<F, C>(*self, old(context).spec_variables(), old(context).spec_builtins_disabled(),
                old(context).spec_has_functions()) matches Some((m, vars))
                ==> int_result(m, r) && final(context).spec_variables() == vars,
            final(context).spec_builtins_disabled() == old(context).spec_builtins_disabled(),
            final(context).spec_has_functions() == old(context).spec_has_functions(),
    {
        into_int(self.eval_with_context_mut(context))
    }

    /// Evaluates the operator tree rooted at this node into an integer with a fresh `HashMapContext`.
    ///
    /// Fails, if one of the operators in the expression tree fails.
    pub fn eval_int(&self) -> (r: EvalexprResult<IntType, F>)
        ensures
            spec_eval_node_mut::<F, HashMapContext<F>>(*self, Map::empty(), false, false) matches Some((m, _)) ==> int_result(m, r),
    {
        let mut context = HashMapContext::new();
        self.eval_int_with_context_mut(&mut context)
    }

    /// Evaluates the operator tree rooted at this node into a float (an integer is converted into a float) with the given context.
    ///
    /// Fails, if one of the operators in the expression tree fails.
    pub fn eval_number_with_context<C: Context<F>>(&self, context: &C) -> (r: EvalexprResult<F, F>)
        ensures
            spec_eval_node(*self, ctx_view(*context)) matches Some(m) ==> number_result(m, r),
    {
        into_number(self.eval_with_context(context))
    }

    /// Evaluates the operator tree rooted at this node into a float (an integer is converted into a float) with the given mutable context.
    ///
    /// Fails, if one of the operators in the expression tree fails.
    pub fn eval_number_with_context_mut<C: ContextWithMutableVariables<F>>(&self, context: &mut C) -> (r: EvalexprResult<F, F>)
        ensures
            spec_eval_node_mut::<F, C>(*self, old(context).spec_variables(), old(context).spec_builtins_disabled(),
                old(context).spec_has_functions()) matches Some((m, vars))
                ==> number_result(m, r) && final(context).spec_variables() == vars,
            final(context).spec_builtins_disabled() == old(context).spec_builtins_disabled(),
            final(context).spec_has_functions() == old(context).spec_has_functions(),
    {
        into_number(self.eval_with_context_mut(context))
    }

    /// Evaluates the operator tree rooted at this node into a float (an integer is converted into a float) with a fresh `HashMapContext`.
    ///
    /// Fails, if one of the operators in the expression tree fails.
    pub fn eval_number(&self) -> (r: EvalexprResult<F, F>)
        ensures
            spec_eval_node_mut::<F, HashMapContext<F>>(*self, Map::empty(), false, false) matches Some((m, _)) ==> number_result(m, r),
    {
        let mut context = HashMapContext::new();
        self.eval_number_with_context_mut(&mut context)
    }

    /// Evaluates the operator tree rooted at this node into a boolean with the given context.
    ///
    /// Fails, if one of the operators in the expression tree fails.
    pub fn eval_boolean_with_context<C: Context<F>>(&self, context: &C) -> (r: EvalexprResult<bool, F>)
        ensures
            spec_eval_node(*self, ctx_view(*context)) matches Some(m) ==> boolean_result(m, r),
    {
        into_boolean(self.eval_with_context(context))
    }

    /// Evaluates the operator tree rooted at this node into a boolean with the given mutable context.
    ///
    /// Fails, if one of the operators in the expression tree fails.
    pub fn eval_boolean_with_context_mut<C: ContextWithMutableVariables<F>>(&self, context: &mut C) -> (r: EvalexprResult<bool, F>)
        ensures
            spec_eval_node_mut::<F, C>(*self, old(context).spec_variables(), old(context).spec_builtins_disabled(),
                old(context).spec_has_functions()) matches Some((m, vars))
                ==> boolean_result(m, r) && final(context).spec_variables() == vars,
            final(context).spec_builtins_disabled() == old(context).spec_builtins_disabled(),
            final(context).spec_has_functions() == old(context).spec_has_functions(),
    {
        into_boolean(self.eval_with_context_mut(context))
    }

    /// Evaluates the operator tree rooted at this node into a boolean with a fresh `HashMapContext`.
    ///
    /// Fails, if one of the operators in the expression tree fails.
    pub fn eval_boolean(&self) -> (r: EvalexprResult<bool, F>)
        ensures
            spec_eval_node_mut::<F, HashMapContext<F>>(*self, Map::empty(), false, false) matches Some((m, _)) ==> boolean_result(m, r),
    {
        let mut context = HashMapContext::new();
        self.eval_boolean_with_context_mut(&mut context)
    }

    /// Evaluates the operator tree rooted at this node into a tuple with the given context.
    ///
    /// Fails, if one of the operators in the expression tree fails.
    pub fn eval_tuple_with_context<C: Context<F>>(&self, context: &C) -> (r: EvalexprResult<Vec<Value<F>>, F>)
        ensures
            spec_eval_node(*self, ctx_view(*context)) matches Some(m) ==> tuple_result(m, r),
    {
        into_tuple(self.eval_with_context(context))
    }

    /// Evaluates the operator tree rooted at this node into a tuple with the given mutable context.
    ///
    /// Fails, if one of the operators in the expression tree fails.
    pub fn eval_tuple_with_context_mut<C: ContextWithMutableVariables<F>>(&self, context: &mut C) -> (r: EvalexprResult<Vec<Value<F>>, F>)
        ensures
            spec_eval_node_mut::<F, C>(*self, old(context).spec_variables(), old(context).spec_builtins_disabled(),
                old(context).spec_has_functions()) matches Some((m, vars))
                ==> tuple_result(m, r) && final(context).spec_variables() == vars,
            final(context).spec_builtins_disabled() == old(context).spec_builtins_disabled(),
            final(context).spec_has_functions() == old(context).spec_has_functions(),
    {
        into_tuple(self.eval_with_context_mut(context))
    }

    /// Evaluates the operator tree rooted at this node into a tuple with a fresh `HashMapContext`.
    ///
    /// Fails, if one of the operators in the expression tree fails.
    pub fn eval_tuple(&self) -> (r: EvalexprResult<Vec<Value<F>>, F>)
        ensures
            spec_eval_node_mut::<F, HashMapContext<F>>(*self, Map::empty(), false, false) matches Some((m, _)) ==> tuple_result(m, r),
    {
        let mut context = HashMapContext::new();
        self.eval_tuple_with_context_mut(&mut context)
    }

    /// Evaluates the operator tree rooted at this node into the empty value with the given context.
    ///
    /// Fails, if one of the operators in the expression tree fails.
    pub fn eval_empty_with_context<C: Context<F>>(&self, context: &C) -> (r: EvalexprResult<(), F>)
        ensures
            spec_eval_node(*self, ctx_view(*context)) matches Some(m) ==> empty_result(m, r),
    {
        into_empty(self.eval_with_context(context))
    }

    /// Evaluates the operator tree rooted at this node into the empty value with the given mutable context.
    ///
    /// Fails, if one of the operators in the expression tree fails.
    pub fn eval_empty_with_context_mut<C: ContextWithMutableVariables<F>>(&self, context: &mut C) -> (r: EvalexprResult<(), F>)
        ensures
            spec_eval_node_mut::<F, C>(*self, old(context).spec_variables(), old(context).spec_builtins_disabled(),
                old(context).spec_has_functions()) matches Some((m, vars))
                ==> empty_result(m, r) && final(context).spec_variables() == vars,
            final(context).spec_builtins_disabled() == old(context).spec_builtins_disabled(),
            final(context).spec_has_functions() == old(context).spec_has_functions(),
    {
        into_empty(self.eval_with_context_mut(context))
    }

    /// Evaluates the operator tree rooted at this node into the empty value with a fresh `HashMapContext`.
    ///
    /// Fails, if one of the operators in the expression tree fails.
    pub fn eval_empty(&self) -> (r: EvalexprResult<(), F>)
        ensures
            spec_eval_node_mut::<F, HashMapContext<F>>(*self, Map::empty(), false, false) matches Some((m, _)) ==> empty_result(m, r),
    {
        let mut context = HashMapContext::new();
        self.eval_empty_with_context_mut(&mut context)
    }

}

/// Evaluating children stops at the first error: if a prefix of them fails or is unknown, so do all of them.
proof fn lemma_children_prefix<F: EvalexprFloat>(children: Seq<Node<F>>, i: int, ctx: CtxView<F>)
    requires
        0 <= i <= children.len(),
        spec_eval_children(children, ctx) is Some,
    ensures
        spec_eval_children(children.subrange(0, i), ctx) is Some,
        spec_eval_children(children.subrange(0, i), ctx) matches Some(Err(e)) ==> spec_eval_children(children, ctx) == Some(Err::<Seq<VModel<F>>, EModel<F>>(e)),
    decreases children.len() - i,
{
    if i < children.len() {
        assert(children.subrange(0, i + 1).drop_last() =~= children.subrange(0, i));
        lemma_children_prefix(children, i + 1, ctx);
    } else {
        assert(children.subrange(0, i) =~= children);
    }
}

/// A node that may stand on the root stack: a root node or a sequence node.
spec fn kind_ok<F>(n: Node<F>) -> bool {
    n.operator is RootNode || spec_is_sequence(n.operator)
}

/// A node that may stand on top of the root stack: a root node, or a sequence node with a child.
spec fn stack_node_ok<F>(n: Node<F>) -> bool {
    &&& kind_ok(n)
    &&& (spec_is_sequence(n.operator) ==> n.children@.len() > 0)
}

/// The entry `i` of the root stack is in order: a root node or a sequence node, and a sequence node
/// has a child unless a sequence node stands right above it (its last child was handed to that one).
spec fn entry_ok<F>(s: Seq<Node<F>>, i: int) -> bool {
    &&& kind_ok(s[i])
    &&& (spec_is_sequence(s[i].operator) ==> s[i].children@.len() > 0
            || (i + 1 < s.len() && spec_is_sequence(s[i + 1].operator)))
}

/// The root stack is in order.
spec fn stack_wf<F>(s: Seq<Node<F>>) -> bool {
    forall|i: int| 0 <= i < s.len() ==> #[trigger] entry_ok(s, i)
}

/// The root stack is in order below its top, and its top is a root node or a sequence node.
spec fn stack_wf_open<F>(s: Seq<Node<F>>) -> bool {
    &&& forall|i: int| 0 <= i < s.len() - 1 ==> #[trigger] entry_ok(s, i)
    &&& (s.len() > 0 ==> kind_ok(s.last()))
}

proof fn lemma_wf_pop<F>(s: Seq<Node<F>>)
    requires
        stack_wf(s),
        s.len() > 0,
    ensures
        stack_wf_open(s.drop_last()),
        stack_node_ok(s.last()),
        s.last().operator is RootNode ==> stack_wf(s.drop_last()),
{
    let t = s.drop_last();
    assert(entry_ok(s, s.len() - 1));
    assert forall|i: int| 0 <= i < t.len() implies (i < t.len() - 1 || s.last().operator is RootNode) ==> #[trigger] entry_ok(t, i) by {
        assert(entry_ok(s, i));
        assert(t[i] == s[i]);
        if i + 1 < t.len() {
            assert(t[i + 1] == s[i + 1]);
        }
    }
    if t.len() > 0 {
        assert(entry_ok(s, t.len() - 1));
    }
}

proof fn lemma_wf_push<F>(s: Seq<Node<F>>, n: Node<F>)
    requires
        stack_wf_open(s),
        kind_ok(n),
        s.len() > 0 && !spec_is_sequence(n.operator) ==> entry_ok(s, s.len() - 1),
    ensures
        stack_wf_open(s.push(n)),
        stack_node_ok(n) ==> stack_wf(s.push(n)),
{
    let t = s.push(n);
    assert forall|i: int| 0 <= i < t.len() - 1 implies #[trigger] entry_ok(t, i) by {
        assert(t[i] == s[i]);
        if i < s.len() - 1 {
            assert(entry_ok(s, i));
            assert(t[i + 1] == s[i + 1]);
        }
    }
    if stack_node_ok(n) {
        assert forall|i: int| 0 <= i < t.len() implies #[trigger] entry_ok(t, i) by {
            if i < t.len() - 1 {
                assert(entry_ok(t, i));
            }
        }
    }
}

proof fn lemma_wf_weaken<F>(s: Seq<Node<F>>)
    requires
        stack_wf(s),
    ensures
        stack_wf_open(s),
        s.len() > 0 ==> entry_ok(s, s.len() - 1),
{
    if s.len() > 0 {
        assert(entry_ok(s, s.len() - 1));
    }
}

impl<F: EvalexprFloat> Node<F> {
    /// Whether the node has as many children as its operator takes at most.
    fn has_enough_children(&self) -> (r: bool)
        ensures
            r == (spec_max_argument_amount(self.operator) == Some(self.children@.len())),
    {
        match self.operator.max_argument_amount() {
            Some(n) => self.children.len() == n,
            None => false,
        }
    }

    /// Whether the node has more children than its operator takes.
    fn has_too_many_children(&self) -> (r: bool)
        ensures
            r == (spec_max_argument_amount(self.operator) matches Some(n) && self.children@.len() > n),
    {
        match self.operator.max_argument_amount() {
            Some(n) => self.children.len() > n,
            None => false,
        }
    }

    /// Inserts `node` at the back of the tree rooted at this node, below the last child where the
    /// precedences ask for it.
    fn insert_back_prioritized(&mut self, node: Node<F>, is_root_node: bool) -> (r: EvalexprResult<(), F>)
        ensures
            final(self).operator == old(self).operator,
            match spec_insert_back(node_model(*old(self)), node_model(node), is_root_node) {
                Ok(m) => r is Ok && node_model(*final(self)) == m,
                Err(e) => r matches Err(x) && x@ == e,
            },
        decreases *old(self),
    {
        let ghost old_children = self.children@;
        proof {
            lemma_node_models(old_children);
            lemma_node_models(node.children@);
        }
        let self_precedence = self.operator.precedence();
        let node_precedence = node.operator.precedence();
        if self_precedence < node_precedence || node.operator.is_unary() || is_root_node
            || (self_precedence == node_precedence && !self.operator.is_left_to_right() && !node.operator.is_left_to_right())
        {
            if self.operator.is_leaf() {
                Err(EvalexprError::AppendedToLeafNode)
            } else if self.has_enough_children() {
                let last_index = self.children.len() - 1;
                let last_precedence = self.children[last_index].operator.precedence();
                let last_left_to_right = self.children[last_index].operator.is_left_to_right();
                proof {
                    lemma_node_models_drop_last(old_children);
                    assert(node_models(old_children).last() == node_model(old_children[last_index as int]));
                }
                if last_precedence < node_precedence || node.operator.is_unary()
                    || (last_precedence == node_precedence && !last_left_to_right && !node.operator.is_left_to_right())
                {
                    let mut last_child = self.children.pop().unwrap();
                    proof {
                        assert(last_child == old_children.last());
                        assert(decreases_to!(*old(self) => last_child));
                        assert(self.children@ == old_children.drop_last());
                    }
                    let result = last_child.insert_back_prioritized(node, false);
                    let ghost new_last = last_child;
                    self.children.push(last_child);
                    proof {
                        lemma_node_models_push(old_children.drop_last(), new_last);
                    }
                    result
                } else {
                    if node.operator.is_leaf() {
                        return Err(EvalexprError::AppendedToLeafNode);
                    }
                    let last_child = self.children.pop().unwrap();
                    proof {
                        assert(last_child == old_children.last());
                        assert(self.children@ == old_children.drop_last());
                    }
                    // Root nodes have at most one child.
                    if self.operator.is_root_node() && self.children.len() > 0 {
                        return Err(EvalexprError::MissingOperatorOutsideOfBrace);
                    }
                    // Do not insert root nodes into root nodes.
                    if self.operator.is_root_node() && node.operator.is_root_node() {
                        return Err(EvalexprError::MissingOperatorOutsideOfBrace);
                    }
                    let mut node = node;
                    if node.operator.is_root_node() && node.children.len() > 0 {
                        return Err(EvalexprError::MissingOperatorOutsideOfBrace);
                    }
                    if node.operator.is_root_node() && last_child.operator.is_root_node() {
                        return Err(EvalexprError::MissingOperatorOutsideOfBrace);
                    }
                    let ghost node_before = node.children@;
                    let ghost moved = last_child;
                    node.children.push(last_child);
                    proof {
                        lemma_node_models_push(node_before, moved);
                    }
                    let ghost new_node = node;
                    self.children.push(node);
                    proof {
                        lemma_node_models_push(old_children.drop_last(), new_node);
                    }
                    Ok(())
                }
            } else {
                let ghost pushed = node;
                self.children.push(node);
                proof {
                    lemma_node_models_push(old_children, pushed);
                }
                Ok(())
            }
        } else {
            Err(EvalexprError::PrecedenceViolation)
        }
    }
}

proof fn lemma_wf_collapse<F>(rest: Seq<Node<F>>, p: Node<F>, root: Node<F>, q: Node<F>)
    requires
        stack_wf(rest.push(p).push(root)),
        q.operator == p.operator,
        q.children@.len() > 0,
    ensures
        stack_wf(rest.push(q)),
{
    let u = rest.push(p).push(root);
    let t = rest.push(q);
    assert forall|i: int| 0 <= i < t.len() implies #[trigger] entry_ok(t, i) by {
        assert(entry_ok(u, i));
        if i < rest.len() {
            assert(t[i] == u[i]);
            if i + 1 < rest.len() {
                assert(t[i + 1] == u[i + 1]);
            } else {
                assert(t[i + 1] == q && u[i + 1] == p);
            }
        } else {
            assert(t[i] == q && u[i] == p);
        }
    }
}

/// Collapses the root stack down to the first node whose precedence is not higher than that of
/// `collapse_goal`: each popped node takes the collapsed tree as its last child.
fn collapse_root_stack_to<F: EvalexprFloat>(root_stack: &mut Vec<Node<F>>, start: Node<F>, collapse_goal: &Node<F>) -> (r: EvalexprResult<Node<F>, F>)
    requires
        stack_wf(old(root_stack)@.push(start)),
    ensures
        r matches Ok(n) ==> stack_wf(final(root_stack)@.push(n)),
        match spec_collapse_to(node_models(old(root_stack)@), node_model(start), spec_precedence(collapse_goal.operator)) {
            Ok((s, n)) => r matches Ok(x) && node_model(x) == n && node_models(final(root_stack)@) == s,
            Err(e) => r matches Err(x) && x@ == e,
        },
{
    let ghost goal = spec_precedence(collapse_goal.operator);
    let ghost expected = spec_collapse_to(node_models(root_stack@), node_model(start), goal);
    let mut root = start;
    let goal_precedence = collapse_goal.operator.precedence();
    loop
        invariant
            stack_wf(root_stack@.push(root)),
            goal_precedence as int == goal,
            goal == spec_precedence(collapse_goal.operator),
            spec_collapse_to(node_models(root_stack@), node_model(root), goal) == expected,
            expected == spec_collapse_to(node_models(old(root_stack)@), node_model(start), goal),
        decreases root_stack@.len(),
    {
        let ghost before = root_stack@;
        match root_stack.pop() {
            Some(mut potential_higher_root) => {
                let ghost p = potential_higher_root;
                proof {
                    assert(before =~= root_stack@.push(p));
                    lemma_node_models_drop_last(before);
                    assert(before.drop_last() == root_stack@);
                }
                if potential_higher_root.operator.precedence() > goal_precedence {
                    let ghost pc = potential_higher_root.children@;
                    let ghost r0 = root;
                    potential_higher_root.children.push(root);
                    proof {
                        lemma_wf_collapse(root_stack@, p, root, potential_higher_root);
                        lemma_node_models_push(pc, r0);
                    }
                    root = potential_higher_root;
                } else {
                    root_stack.push(potential_higher_root);
                    proof { assert(root_stack@ =~= before); }
                    return Ok(root);
                }
            },
            None => {
                // This is the only way the topmost root node could have been removed.
                proof {
                    assert(node_models(root_stack@).len() == 0) by { lemma_node_models(root_stack@); }
                }
                return Err(EvalexprError::UnmatchedRBrace);
            },
        }
    }
}

/// Collapses all sequences on top of the root stack into their parents, down to the topmost root node.
fn collapse_all_sequences<F: EvalexprFloat>(root_stack: &mut Vec<Node<F>>) -> (r: EvalexprResult<(), F>)
    requires
        stack_wf(old(root_stack)@),
    ensures
        r is Ok ==> stack_wf(final(root_stack)@) && final(root_stack)@.len() > 0
            && final(root_stack)@.last().operator is RootNode && final(root_stack)@.len() <= old(root_stack)@.len(),
        match spec_collapse_all(node_models(old(root_stack)@)) {
            Ok(s) => r is Ok && node_models(final(root_stack)@) == s,
            Err(e) => r matches Err(x) && x@ == e,
        },
{
    let ghost initial = root_stack@;
    let ghost expected = spec_collapse_all(node_models(initial));
    proof { lemma_node_models(initial); }
    let mut root = match root_stack.pop() {
        Some(root) => root,
        None => return Err(EvalexprError::UnmatchedRBrace),
    };
    proof {
        assert(initial =~= root_stack@.push(root));
        lemma_node_models_drop_last(initial);
        assert(initial.drop_last() == root_stack@);
    }
    loop
        invariant
            stack_wf(root_stack@.push(root)),
            root_stack@.len() < old(root_stack)@.len(),
            spec_collapse_sequences(node_models(root_stack@), node_model(root)) == expected,
            expected == spec_collapse_all(node_models(old(root_stack)@)),
        decreases root_stack@.len(),
    {
        proof {
            assert(entry_ok(root_stack@.push(root), root_stack@.len() as int));
            lemma_node_models(root.children@);
        }
        if root.operator.is_root_node() {
            // This fires when parsing something like `4(5)`.
            if root.has_too_many_children() {
                return Err(EvalexprError::MissingOperatorOutsideOfBrace);
            }
            let ghost s0 = root_stack@;
            let ghost r0 = root;
            root_stack.push(root);
            proof { lemma_node_models_push(s0, r0); }
            return Ok(());
        }
        let ghost before = root_stack@;
        match root_stack.pop() {
            Some(mut potential_higher_root) => {
                let ghost p = potential_higher_root;
                proof {
                    assert(before =~= root_stack@.push(p));
                    lemma_node_models_drop_last(before);
                    assert(before.drop_last() == root_stack@);
                }
                if root.operator.is_sequence() {
                    let ghost pc = potential_higher_root.children@;
                    let ghost r0 = root;
                    potential_higher_root.children.push(root);
                    proof {
                        lemma_wf_collapse(root_stack@, p, root, potential_higher_root);
                        lemma_node_models_push(pc, r0);
                    }
                    root = potential_higher_root;
                } else {
                    // This fires when parsing something like `4(5)`.
                    if root.has_too_many_children() {
                        return Err(EvalexprError::MissingOperatorOutsideOfBrace);
                    }
                    root_stack.push(potential_higher_root);
                    let ghost s1 = root_stack@;
                    let ghost r0 = root;
                    root_stack.push(root);
                    proof {
                        assert(s1 =~= before);
                        lemma_node_models_push(s1, r0);
                    }
                    return Ok(());
                }
            },
            None => {
                // This is the only way the topmost root node could have been removed.
                proof { assert(node_models(root_stack@).len() == 0) by { lemma_node_models(root_stack@); } }
                return Err(EvalexprError::UnmatchedRBrace);
            },
        }
    }
}

/// Whether `a` is the same sequence operator as the sequence operator `b`.
fn same_sequence<F: EvalexprFloat>(a: &Operator<F>, b: &Operator<F>) -> (r: bool)
    ensures
        r == ((a is Tuple && b is Tuple) || (a is Chain && b is Chain)),
{
    matches!((a, b), (Operator::Tuple, Operator::Tuple) | (Operator::Chain, Operator::Chain))
}

/// The node that a token stands for, if it stands for one on its own.
fn token_node<F: EvalexprFloat>(token: &Token<F>, next: Option<&Token<F>>, last_token_is_rightsided_value: bool) -> (r: Option<Node<F>>)
    ensures
        r matches Some(n) ==> n.children@.len() == 0 && !(n.operator is RootNode),
        r is None <==> (*token is LBrace || *token is RBrace),
        match spec_token_operator(*token, match next { Some(n) => Some(*n), None => None }, last_token_is_rightsided_value) {
            Some(op) => r matches Some(n) && node_model(n) == leaf(op),
            None => r is None,
        },
{
    let operator = match token {
        Token::Plus => Operator::Add,
        Token::Minus => if last_token_is_rightsided_value { Operator::Sub } else { Operator::Neg },
        Token::Star => Operator::Mul,
        Token::Slash => Operator::Div,
        Token::Percent => Operator::Mod,
        Token::Hat => Operator::Exp,
        Token::Eq => Operator::Eq,
        Token::Neq => Operator::Neq,
        Token::Gt => Operator::Gt,
        Token::Lt => Operator::Lt,
        Token::Geq => Operator::Geq,
        Token::Leq => Operator::Leq,
        Token::And => Operator::And,
        Token::Or => Operator::Or,
        Token::Not => Operator::Not,
        Token::LBrace | Token::RBrace => return None,
        Token::Assign => Operator::Assign,
        Token::PlusAssign => Operator::AddAssign,
        Token::MinusAssign => Operator::SubAssign,
        Token::StarAssign => Operator::MulAssign,
        Token::SlashAssign => Operator::DivAssign,
        Token::PercentAssign => Operator::ModAssign,
        Token::HatAssign => Operator::ExpAssign,
        Token::AndAssign => Operator::AndAssign,
        Token::OrAssign => Operator::OrAssign,
        Token::Comma => Operator::Tuple,
        Token::Semicolon => Operator::Chain,
        Token::Identifier(identifier) => {
            match next {
                Some(n) => {
                    if n.is_assignment() {
                        Operator::variable_identifier_write(identifier.clone())
                    } else if n.is_leftsided_value() {
                        Operator::function_identifier(identifier.clone())
                    } else {
                        Operator::variable_identifier_read(identifier.clone())
                    }
                },
                None => Operator::variable_identifier_read(identifier.clone()),
            }
        },
        Token::Float(float) => Operator::value(Value::Float(*float)),
        Token::Int(n) => Operator::value(Value::Int(*n)),
        Token::Boolean(boolean) => Operator::value(Value::Boolean(*boolean)),
        Token::String(string) => Operator::value(Value::String(string.clone())),
    };
    let n = Node::new(operator);
    proof {
        lemma_node_models(n.children@);
        assert(node_models(n.children@) =~= Seq::<NodeModel<F>>::empty());
    }
    Some(n)
}

/// The model of a root node without children.
proof fn lemma_root_model<F>(n: Node<F>)
    requires
        n.operator is RootNode,
        n.children@.len() == 0,
    ensures
        node_model(n) == empty_root::<F>(),
{
    assert(node_models(n.children@) =~= Seq::<NodeModel<F>>::empty());
}

/// Places a node (a token's node, or the tree of a closed brace) on the root stack, as
/// `spec_place` says.
fn place_node<F: EvalexprFloat>(root_stack: &mut Vec<Node<F>>, node: Node<F>) -> (r: EvalexprResult<(), F>)
    requires
        stack_wf(old(root_stack)@),
    ensures
        r is Ok ==> stack_wf(final(root_stack)@),
        match spec_place(node_models(old(root_stack)@), node_model(node)) {
            Ok(s) => r is Ok && node_models(final(root_stack)@) == s,
            Err(e) => r matches Err(x) && x@ == e,
        },
{
    let ghost full = root_stack@;
    let ghost nm = node_model(node);
    proof {
        lemma_node_models(full);
        lemma_node_models(node.children@);
    }
    let mut node = node;
    match root_stack.pop() {
        Some(mut root) => {
            let ghost rest = root_stack@;
            let ghost r0 = root;
            proof {
                lemma_wf_pop(full);
                assert(full =~= root_stack@.push(root));
                lemma_node_models_drop_last(full);
                assert(full.drop_last() == rest);
                lemma_node_models(root.children@);
            }
            if node.operator.is_sequence() {
                if same_sequence(&root.operator, &node.operator) {
                    // A new root node for the next expression in the sequence.
                    let fresh = Node::root_node();
                    proof { lemma_root_model(fresh); lemma_node_models_push(root.children@, fresh); }
                    root.children.push(fresh);
                    proof { lemma_wf_push(root_stack@, root); lemma_node_models_push(rest, root); }
                    root_stack.push(root);
                } else if root.operator.is_root_node() {
                    // The current root is an actual root node: start a new sequence.
                    let second = Node::root_node();
                    proof {
                        lemma_root_model(second);
                        lemma_node_models_push(node.children@, root);
                        lemma_node_models_push(node.children@.push(root), second);
                    }
                    node.children.push(root);
                    node.children.push(second);
                    let fresh = Node::root_node();
                    proof {
                        lemma_root_model(fresh);
                        lemma_wf_weaken(root_stack@);
                        lemma_wf_push(root_stack@, fresh);
                        lemma_node_models_push(rest, fresh);
                    }
                    root_stack.push(fresh);
                    proof {
                        lemma_wf_weaken(root_stack@);
                        lemma_wf_push(root_stack@, node);
                        lemma_node_models_push(rest.push(fresh), node);
                    }
                    root_stack.push(node);
                } else if root.operator.precedence() < node.operator.precedence() {
                    // The new sequence has a higher precedence: it is part of the last
                    // element of the current root sequence.
                    let ghost rc = root.children@;
                    let last_root_child = root.children.pop().unwrap();
                    let second = Node::root_node();
                    proof {
                        lemma_node_models_drop_last(rc);
                        assert(rc.drop_last() == root.children@);
                        lemma_root_model(second);
                        lemma_node_models_push(node.children@, last_root_child);
                        lemma_node_models_push(node.children@.push(last_root_child), second);
                    }
                    node.children.push(last_root_child);
                    node.children.push(second);
                    proof { lemma_wf_push(root_stack@, root); lemma_node_models_push(rest, root); }
                    root_stack.push(root);
                    proof { lemma_wf_push(root_stack@, node); lemma_node_models_push(rest.push(root), node); }
                    root_stack.push(node);
                } else {
                    // Sequences with a higher precedence are collapsed below this one.
                    let collapsed = match collapse_root_stack_to(root_stack, root, &node) {
                        Ok(collapsed) => collapsed,
                        Err(e) => return Err(e),
                    };
                    let ghost s1 = root_stack@;
                    proof {
                        lemma_wf_pop(root_stack@.push(collapsed));
                        assert(root_stack@.push(collapsed).drop_last() =~= root_stack@);
                        lemma_node_models_push(node.children@, collapsed);
                    }
                    node.children.push(collapsed);
                    proof { lemma_wf_push(root_stack@, node); lemma_node_models_push(s1, node); }
                    root_stack.push(node);
                }
            } else if root.operator.is_sequence() {
                let ghost rc = root.children@;
                let mut last_root_child = root.children.pop().unwrap();
                proof {
                    lemma_node_models_drop_last(rc);
                    assert(rc.drop_last() == root.children@);
                }
                match last_root_child.insert_back_prioritized(node, true) {
                    Ok(()) => {},
                    Err(e) => return Err(e),
                }
                proof { lemma_node_models_push(root.children@, last_root_child); }
                root.children.push(last_root_child);
                proof { lemma_wf_push(root_stack@, root); lemma_node_models_push(rest, root); }
                root_stack.push(root);
            } else {
                match root.insert_back_prioritized(node, true) {
                    Ok(()) => {},
                    Err(e) => return Err(e),
                }
                proof {
                    lemma_wf_weaken(root_stack@);
                    lemma_wf_push(root_stack@, root);
                    lemma_node_models_push(rest, root);
                }
                root_stack.push(root);
            }
            Ok(())
        },
        None => {
            Err(EvalexprError::UnmatchedLBrace)
        },
    }
}

/// Builds the operator tree of a sequence of tokens.
pub fn tokens_to_operator_tree<F: EvalexprFloat>(tokens: Vec<Token<F>>) -> (r: EvalexprResult<Node<F>, F>)
    ensures
        r matches Ok(n) ==> n.spec_operator() is RootNode,
        match spec_parse(tokens@) {
            Ok(m) => r matches Ok(n) && node_model(n) == m,
            Err(e) => r matches Err(x) && x@ == e,
        },
{
    let mut root_stack: Vec<Node<F>> = Vec::new();
    let first = Node::root_node();
    proof {
        lemma_wf_push(root_stack@, first);
        lemma_root_model(first);
        lemma_node_models_push(root_stack@, first);
        assert(root_stack@.push(first) =~= seq![first]);
        assert(node_models(Seq::<Node<F>>::empty()) =~= Seq::<NodeModel<F>>::empty());
        assert(Seq::<NodeModel<F>>::empty().push(empty_root()) =~= seq![empty_root::<F>()]);
    }
    root_stack.push(first);
    let mut last_token_is_rightsided_value = false;
    let mut open_braces: usize = 0;
    let mut i: usize = 0;
    while i < tokens.len()
        invariant
            i <= tokens@.len(),
            open_braces <= i,
            stack_wf(root_stack@),
            spec_parse_from(tokens@, i as int, ParseState {
                stack: node_models(root_stack@),
                last_rightsided: last_token_is_rightsided_value,
                open_braces: open_braces as nat,
            }) == spec_parse(tokens@),
        decreases tokens@.len() - i,
    {
        let ghost st = ParseState {
            stack: node_models(root_stack@),
            last_rightsided: last_token_is_rightsided_value,
            open_braces: open_braces as nat,
        };
        let token = &tokens[i];
        let next: Option<&Token<F>> = if i + 1 < tokens.len() { Some(&tokens[i + 1]) } else { None };
        let ghost next_model: Option<Token<F>> = if i + 1 < tokens@.len() { Some(tokens@[i + 1]) } else { None };
        assert(next_model == match next { Some(n) => Some(*n), None => None });
        let ghost step = spec_parse_step(tokens@[i as int], next_model, st);
        let node: Option<Node<F>> = match token {
            Token::LBrace => {
                let fresh = Node::root_node();
                proof {
                    lemma_wf_weaken(root_stack@);
                    lemma_wf_push(root_stack@, fresh);
                    lemma_root_model(fresh);
                    lemma_node_models_push(root_stack@, fresh);
                }
                root_stack.push(fresh);
                open_braces += 1;
                None
            },
            Token::RBrace => {
                if open_braces == 0 {
                    return Err(EvalexprError::UnmatchedRBrace);
                }
                open_braces -= 1;
                match collapse_all_sequences(&mut root_stack) {
                    Ok(()) => {},
                    Err(e) => return Err(e),
                }
                let ghost collapsed = root_stack@;
                proof {
                    lemma_wf_pop(root_stack@);
                    lemma_node_models_drop_last(collapsed);
                }
                let top = root_stack.pop();
                proof {
                    assert(root_stack@ == collapsed.drop_last());
                }
                top
            },
            _ => token_node(token, next, last_token_is_rightsided_value),
        };
        match node {
            Some(node) => {
                match place_node(&mut root_stack, node) {
                    Ok(()) => {},
                    Err(e) => return Err(e),
                }
            },
            None => {},
        }
        last_token_is_rightsided_value = token.is_rightsided_value();
        i += 1;
    }
    // In the end, all sequences are implicitly terminated.
    let ghost last_state = ParseState {
        stack: node_models(root_stack@),
        last_rightsided: last_token_is_rightsided_value,
        open_braces: open_braces as nat,
    };
    match collapse_all_sequences(&mut root_stack) {
        Ok(()) => {},
        Err(e) => return Err(e),
    }
    proof { lemma_node_models(root_stack@); }
    if root_stack.len() > 1 {
        Err(EvalexprError::UnmatchedLBrace)
    } else {
        let ghost collapsed = root_stack@;
        match root_stack.pop() {
            Some(root) => {
                proof {
                    assert(collapsed.len() == 1);
                    assert(collapsed[0] == root);
                }
                Ok(root)
            },
            None => Err(EvalexprError::UnmatchedRBrace),
        }
    }
}

} // verus!

verus! {

/// The mathematical model of an operator tree: its operator and the models of its children.
pub ghost struct NodeModel<F> {
    pub op: Operator<F>,
    pub children: Seq<NodeModel<F>>,
}

/// A root node without children.
pub open spec fn empty_root<F>() -> NodeModel<F> {
    NodeModel { op: Operator::RootNode, children: Seq::empty() }
}

/// A leaf with the given operator.
pub open spec fn leaf<F>(op: Operator<F>) -> NodeModel<F> {
    NodeModel { op, children: Seq::empty() }
}

/// The model of a node.
pub closed spec fn node_model<F>(n: Node<F>) -> NodeModel<F>
    decreases n, 1nat,
{
    NodeModel { op: n.operator, children: node_models(n.children@) }
}

/// The models of a sequence of nodes.
pub closed spec fn node_models<F>(s: Seq<Node<F>>) -> Seq<NodeModel<F>>
    decreases s, 0nat,
{
    if s.len() == 0 {
        Seq::empty()
    } else {
        node_models(s.drop_last()).push(node_model(s.last()))
    }
}

impl<F> Node<F> {
    /// The model of the tree rooted at this node.
    pub open spec fn model(self) -> NodeModel<F> {
        node_model(self)
    }
}

/// A child of a node is smaller than the node.
pub proof fn lemma_child_smaller<F: EvalexprFloat>(n: Node<F>, i: int)
    requires
        0 <= i < n.spec_children().len(),
    ensures
        decreases_to!(n => n.spec_children()[i]),
{
    assert(decreases_to!(n => n.children));
    assert(decreases_to!(n.children => n.children@));
    assert(decreases_to!(n.children@ => n.children@[i]));
}

/// The model of a node holds its operator and, one for one, its children's models.
pub proof fn lemma_model_children<F: EvalexprFloat>(n: Node<F>)
    ensures
        n.model().op == n.spec_operator(),
        n.model().children.len() == n.spec_children().len(),
        forall|i: int| 0 <= i < n.spec_children().len() ==> #[trigger] n.model().children[i] == n.spec_children()[i].model(),
{
    lemma_node_models(n.children@);
}

/// The models of nodes are the nodes' models, one for one.
proof fn lemma_node_models<F>(s: Seq<Node<F>>)
    ensures
        node_models(s).len() == s.len(),
        forall|i: int| 0 <= i < s.len() ==> #[trigger] node_models(s)[i] == node_model(s[i]),
    decreases s.len(),
{
    if s.len() > 0 {
        lemma_node_models(s.drop_last());
        assert forall|i: int| 0 <= i < s.len() implies #[trigger] node_models(s)[i] == node_model(s[i]) by {
            if i < s.len() - 1 {
                assert(s.drop_last()[i] == s[i]);
            }
        }
    }
}

/// Pushing a node pushes its model.
proof fn lemma_node_models_push<F>(s: Seq<Node<F>>, n: Node<F>)
    ensures
        node_models(s.push(n)) == node_models(s).push(node_model(n)),
{
    assert(s.push(n).drop_last() =~= s);
}

/// Dropping the last node drops its model.
proof fn lemma_node_models_drop_last<F>(s: Seq<Node<F>>)
    requires
        s.len() > 0,
    ensures
        node_models(s.drop_last()) == node_models(s).drop_last(),
        node_models(s).last() == node_model(s.last()),
{
    lemma_node_models(s);
    lemma_node_models(s.drop_last());
    assert(node_models(s.drop_last()) =~= node_models(s).drop_last());
}

/// What the tree `m` evaluates to in a context that cannot be modified, as `spec_eval_node` says of
/// a node: its children from left to right, the first error, else the operator on their values.
pub open spec fn spec_eval_model<F: EvalexprFloat>(m: NodeModel<F>, ctx: CtxView<F>) -> Option<RModel<F>>
    decreases m, 1nat,
{
    match spec_eval_model_children(m.children, ctx) {
        Some(Ok(args)) => spec_eval_op(m.op, args, ctx.vars, ctx.builtins_disabled, ctx.has_functions),
        Some(Err(e)) => Some(Err(e)),
        None => None,
    }
}

/// The values of the trees `children`, evaluated from left to right, or the first error.
pub open spec fn spec_eval_model_children<F: EvalexprFloat>(children: Seq<NodeModel<F>>, ctx: CtxView<F>) -> Option<Result<Seq<VModel<F>>, EModel<F>>>
    decreases children, 0nat,
{
    if children.len() == 0 {
        Some(Ok(Seq::empty()))
    } else {
        match spec_eval_model_children(children.drop_last(), ctx) {
            Some(Ok(prefix)) => match spec_eval_model(children.last(), ctx) {
                Some(Ok(v)) => Some(Ok(prefix.push(v))),
                Some(Err(e)) => Some(Err(e)),
                None => None,
            },
            Some(Err(e)) => Some(Err(e)),
            None => None,
        }
    }
}

/// What is known of the result of evaluating a tree: the result itself, that it is some float
/// or some boolean (where a function of the context took part), or nothing.
pub ghost enum Shape<F> {
    Known(RModel<F>),
    SomeFloat,
    SomeBoolean,
    Open,
}

/// Whether a result is one that the shape allows.
pub open spec fn shape_admits<F>(s: Shape<F>, m: RModel<F>) -> bool {
    match s {
        Shape::Known(k) => m == k,
        Shape::SomeFloat => m matches Ok(VModel::Float(_)),
        Shape::SomeBoolean => m matches Ok(VModel::Boolean(_)),
        Shape::Open => true,
    }
}

/// A shape of a float value.
pub open spec fn shape_is_float<F>(k: Shape<F>) -> bool {
    k is SomeFloat || k matches Shape::Known(Ok(VModel::Float(_)))
}

/// A shape of a number.
pub open spec fn shape_is_number<F>(k: Shape<F>) -> bool {
    shape_is_float(k) || k matches Shape::Known(Ok(VModel::Int(_)))
}

/// A shape of a boolean.
pub open spec fn shape_is_boolean<F>(k: Shape<F>) -> bool {
    k is SomeBoolean || k matches Shape::Known(Ok(VModel::Boolean(_)))
}

/// What is known of the result of `op` on arguments of the shapes `k`, where it is not known
/// exactly: arithmetic with a float gives a float, a comparison or a logical operator on fitting
/// arguments gives a boolean, a root node and a chain hand on the shape of the value they give.
pub open spec fn shape_op<F>(op: Operator<F>, k: Seq<Shape<F>>) -> Shape<F> {
    match op {
        Operator::Add | Operator::Sub | Operator::Mul | Operator::Div | Operator::Mod =>
            if k.len() == 2 && shape_is_number(k[0]) && shape_is_number(k[1]) && (shape_is_float(k[0]) || shape_is_float(k[1])) {
                Shape::SomeFloat
            } else {
                Shape::Open
            },
        Operator::Exp => if k.len() == 2 && shape_is_number(k[0]) && shape_is_number(k[1]) { Shape::SomeFloat } else { Shape::Open },
        Operator::Neg => if k.len() == 1 && shape_is_float(k[0]) { Shape::SomeFloat } else { Shape::Open },
        Operator::Eq | Operator::Neq => if k.len() == 2 { Shape::SomeBoolean } else { Shape::Open },
        Operator::Gt | Operator::Lt | Operator::Geq | Operator::Leq =>
            if k.len() == 2 && shape_is_number(k[0]) && shape_is_number(k[1]) { Shape::SomeBoolean } else { Shape::Open },
        Operator::And | Operator::Or =>
            if k.len() == 2 && shape_is_boolean(k[0]) && shape_is_boolean(k[1]) { Shape::SomeBoolean } else { Shape::Open },
        Operator::Not => if k.len() == 1 && shape_is_boolean(k[0]) { Shape::SomeBoolean } else { Shape::Open },
        Operator::RootNode => if k.len() > 0 { k[0] } else { Shape::Open },
        Operator::Chain => if k.len() > 0 { k.last() } else { Shape::Open },
        _ => Shape::Open,
    }
}

/// What is known of the result of evaluating the tree `m` in a context that `ctx` describes: the
/// result where the evaluation model gives it, else what the operator makes of the shapes of its
/// children's values, where all of them are known to succeed.
pub open spec fn spec_shape_model<F: EvalexprFloat>(m: NodeModel<F>, ctx: CtxView<F>) -> Shape<F>
    decreases m, 1nat,
{
    match spec_eval_model(m, ctx) {
        Some(k) => Shape::Known(k),
        None => match spec_shape_children(m.children, ctx) {
            Some(k) => shape_op(m.op, k),
            None => Shape::Open,
        },
    }
}

/// The shapes of the values of the trees `children`, where each of them is known to evaluate
/// without an error.
pub open spec fn spec_shape_children<F: EvalexprFloat>(children: Seq<NodeModel<F>>, ctx: CtxView<F>) -> Option<Seq<Shape<F>>>
    decreases children, 0nat,
{
    if children.len() == 0 {
        Some(Seq::empty())
    } else {
        match spec_shape_children(children.drop_last(), ctx) {
            Some(prefix) => {
                let k = spec_shape_model(children.last(), ctx);
                if k is Open || k matches Shape::Known(Err(_)) { None } else { Some(prefix.push(k)) }
            },
            None => None,
        }
    }
}

/// The shapes of children are those of each child, none of them open or an error.
pub proof fn lemma_shape_children<F: EvalexprFloat>(children: Seq<NodeModel<F>>, ctx: CtxView<F>)
    ensures
        spec_shape_children(children, ctx) matches Some(k) ==> k.len() == children.len()
            && forall|j: int| 0 <= j < children.len() ==> #[trigger] k[j] == spec_shape_model(children[j], ctx)
                && !(k[j] is Open) && !(k[j] matches Shape::Known(Err(_))),
    decreases children.len(),
{
    if children.len() > 0 {
        let t = children.drop_last();
        lemma_shape_children(t, ctx);
        if let Some(k) = spec_shape_children(children, ctx) {
            assert forall|j: int| 0 <= j < children.len() implies #[trigger] k[j] == spec_shape_model(children[j], ctx)
                && !(k[j] is Open) && !(k[j] matches Shape::Known(Err(_))) by {
                if j < children.len() - 1 {
                    assert(t[j] == children[j]);
                }
            }
        }
    }
}

/// What the shapes of the arguments tell of an operator's result.
pub proof fn lemma_shape_op<F>(op: Operator<F>, k: Seq<Shape<F>>, a: Seq<VModel<F>>)
    requires
        k.len() == a.len(),
        forall|j: int| 0 <= j < k.len() ==> shape_admits(#[trigger] k[j], Ok::<VModel<F>, EModel<F>>(a[j])),
        forall|j: int| 0 <= j < k.len() ==> !(#[trigger] k[j] is Open) && !(k[j] matches Shape::Known(Err(_))),
    ensures
        shape_op(op, k) is SomeFloat && !(op is RootNode || op is Chain) ==> float_arithmetic(op, a),
        shape_op(op, k) is SomeBoolean && !(op is RootNode || op is Chain) ==> boolean_operation(op, a),
        op is RootNode && k.len() > 0 ==> shape_admits(shape_op(op, k), Ok::<VModel<F>, EModel<F>>(a[0])),
        op is Chain && k.len() > 0 ==> shape_admits(shape_op(op, k), Ok::<VModel<F>, EModel<F>>(a.last())),
        shape_op(op, k) is Known ==> (op is RootNode || op is Chain),
        shape_op(op, k) is Open || shape_op(op, k) is SomeFloat || shape_op(op, k) is SomeBoolean
            || ((op is RootNode || op is Chain) && k.len() > 0),
{
    assert forall|j: int| 0 <= j < k.len() implies
        (shape_is_float(#[trigger] k[j]) ==> a[j] is Float)
        && (shape_is_number(k[j]) ==> crate::operator::is_number(a[j]))
        && (shape_is_boolean(k[j]) ==> a[j] is Boolean) by {
        assert(shape_admits(k[j], Ok::<VModel<F>, EModel<F>>(a[j])));
    }
    if k.len() > 0 {
        assert(shape_admits(k[0], Ok::<VModel<F>, EModel<F>>(a[0])));
        assert(shape_admits(k[k.len() - 1], Ok::<VModel<F>, EModel<F>>(a[a.len() - 1])));
        assert(shape_is_float(k[0]) ==> a[0] is Float);
        assert(shape_is_number(k[0]) ==> crate::operator::is_number(a[0]));
        assert(shape_is_boolean(k[0]) ==> a[0] is Boolean);
    }
    if k.len() > 1 {
        assert(shape_is_float(k[1]) ==> a[1] is Float);
        assert(shape_is_number(k[1]) ==> crate::operator::is_number(a[1]));
        assert(shape_is_boolean(k[1]) ==> a[1] is Boolean);
    }
}

/// What the tree `m` evaluates to in a mutable context of type `C` that holds `vars`, with the
/// variables afterwards, as `spec_eval_node_mut` says of a node.
pub open spec fn spec_eval_model_mut<F: EvalexprFloat, C: ContextWithMutableVariables<F>>(m: NodeModel<F>, vars: Map<Seq<char>, VModel<F>>, builtins_disabled: bool, has_functions: bool) -> Option<(RModel<F>, Map<Seq<char>, VModel<F>>)>
    decreases m, 1nat,
{
    match spec_eval_model_children_mut::<F, C>(m.children, vars, builtins_disabled, has_functions) {
        Some((Ok(args), vars2)) => spec_eval_op_mut::<F, C>(m.op, args, vars2, builtins_disabled, has_functions),
        Some((Err(e), vars2)) => Some((Err(e), vars2)),
        None => None,
    }
}

/// The values of the trees `children`, evaluated from left to right in a mutable context, or the
/// first error, with the variables afterwards.
pub open spec fn spec_eval_model_children_mut<F: EvalexprFloat, C: ContextWithMutableVariables<F>>(children: Seq<NodeModel<F>>, vars: Map<Seq<char>, VModel<F>>, builtins_disabled: bool, has_functions: bool) -> Option<(Result<Seq<VModel<F>>, EModel<F>>, Map<Seq<char>, VModel<F>>)>
    decreases children, 0nat,
{
    if children.len() == 0 {
        Some((Ok(Seq::empty()), vars))
    } else {
        match spec_eval_model_children_mut::<F, C>(children.drop_last(), vars, builtins_disabled, has_functions) {
            Some((Ok(prefix), vars2)) => match spec_eval_model_mut::<F, C>(children.last(), vars2, builtins_disabled, has_functions) {
                Some((Ok(v), vars3)) => Some((Ok(prefix.push(v)), vars3)),
                Some((Err(e), vars3)) => Some((Err(e), vars3)),
                None => None,
            },
            Some((Err(e), vars2)) => Some((Err(e), vars2)),
            None => None,
        }
    }
}

/// A node evaluates as its model does.
pub proof fn lemma_eval_model<F: EvalexprFloat>(n: Node<F>, ctx: CtxView<F>)
    ensures
        spec_eval_node(n, ctx) == spec_eval_model(node_model(n), ctx),
    decreases n, 1nat,
{
    lemma_eval_model_children(n.children@, ctx);
}

/// Nodes evaluate as their models do.
pub proof fn lemma_eval_model_children<F: EvalexprFloat>(s: Seq<Node<F>>, ctx: CtxView<F>)
    ensures
        spec_eval_children(s, ctx) == spec_eval_model_children(node_models(s), ctx),
    decreases s, 0nat,
{
    if s.len() > 0 {
        lemma_node_models_drop_last(s);
        lemma_eval_model_children(s.drop_last(), ctx);
        lemma_eval_model(s.last(), ctx);
    }
}

/// A node evaluates in a mutable context as its model does.
pub proof fn lemma_eval_model_mut<F: EvalexprFloat, C: ContextWithMutableVariables<F>>(n: Node<F>, vars: Map<Seq<char>, VModel<F>>, bd: bool, hf: bool)
    ensures
        spec_eval_node_mut::<F, C>(n, vars, bd, hf) == spec_eval_model_mut::<F, C>(node_model(n), vars, bd, hf),
    decreases n, 1nat,
{
    lemma_eval_model_children_mut::<F, C>(n.children@, vars, bd, hf);
}

/// Nodes evaluate in a mutable context as their models do.
pub proof fn lemma_eval_model_children_mut<F: EvalexprFloat, C: ContextWithMutableVariables<F>>(s: Seq<Node<F>>, vars: Map<Seq<char>, VModel<F>>, bd: bool, hf: bool)
    ensures
        spec_eval_children_mut::<F, C>(s, vars, bd, hf) == spec_eval_model_children_mut::<F, C>(node_models(s), vars, bd, hf),
    decreases s, 0nat,
{
    if s.len() > 0 {
        lemma_node_models_drop_last(s);
        lemma_eval_model_children_mut::<F, C>(s.drop_last(), vars, bd, hf);
        match spec_eval_children_mut::<F, C>(s.drop_last(), vars, bd, hf) {
            Some((Ok(prefix), vars2)) => {
                lemma_eval_model_mut::<F, C>(s.last(), vars2, bd, hf);
            },
            _ => {},
        }
    }
}

} // verus!

verus! {

/// Whether a node with operator `b` that follows one with operator `a` goes below it: `b` binds
/// tighter, or is unary, or both bind equally from right to left.
pub open spec fn goes_below<F>(a: Operator<F>, b: Operator<F>) -> bool {
    spec_precedence(a) < spec_precedence(b) || spec_is_unary(b)
        || (spec_precedence(a) == spec_precedence(b) && !spec_is_left_to_right(a) && !spec_is_left_to_right(b))
}

/// Whether a node has more children than its operator takes.
pub open spec fn has_too_many_children<F>(n: NodeModel<F>) -> bool {
    spec_max_argument_amount(n.op) matches Some(k) && n.children.len() > k
}

/// The tree `n` with `node` inserted at its back: as the last child of the deepest node along the
/// last children that `node` goes below, taking over that node's last child where the node is
/// full. The errors are those of the parser: a leaf cannot take a child, a node that does not go
/// below the root is out of order, and two root nodes side by side miss an operator between them.
pub open spec fn spec_insert_back<F>(n: NodeModel<F>, node: NodeModel<F>, is_root: bool) -> Result<NodeModel<F>, EModel<F>>
    decreases n,
{
    if !(is_root || goes_below(n.op, node.op)) {
        Err(EModel::PrecedenceViolation)
    } else if spec_is_leaf(n.op) {
        Err(EModel::AppendedToLeafNode)
    } else if spec_max_argument_amount(n.op) == Some(n.children.len()) && n.children.len() > 0 {
        let last = n.children.last();
        if goes_below(last.op, node.op) {
            match spec_insert_back(last, node, false) {
                Ok(new_last) => Ok(NodeModel { op: n.op, children: n.children.drop_last().push(new_last) }),
                Err(e) => Err(e),
            }
        } else if spec_is_leaf(node.op) {
            Err(EModel::AppendedToLeafNode)
        } else if n.op is RootNode && n.children.len() > 1 {
            Err(EModel::MissingOperatorOutsideOfBrace)
        } else if n.op is RootNode && node.op is RootNode {
            Err(EModel::MissingOperatorOutsideOfBrace)
        } else if node.op is RootNode && node.children.len() > 0 {
            Err(EModel::MissingOperatorOutsideOfBrace)
        } else if node.op is RootNode && last.op is RootNode {
            Err(EModel::MissingOperatorOutsideOfBrace)
        } else {
            Ok(NodeModel { op: n.op, children: n.children.drop_last().push(NodeModel { op: node.op, children: node.children.push(last) }) })
        }
    } else {
        Ok(NodeModel { op: n.op, children: n.children.push(node) })
    }
}

/// The root stack collapsed down to the first node whose precedence is not above `goal`: each node
/// taken off the stack takes the tree collapsed so far as its last child. The stack that is left
/// and the collapsed tree.
pub open spec fn spec_collapse_to<F>(stack: Seq<NodeModel<F>>, root: NodeModel<F>, goal: int) -> Result<(Seq<NodeModel<F>>, NodeModel<F>), EModel<F>>
    decreases stack.len(),
{
    if stack.len() == 0 {
        Err(EModel::UnmatchedRBrace)
    } else {
        let p = stack.last();
        if spec_precedence(p.op) > goal {
            spec_collapse_to(stack.drop_last(), NodeModel { op: p.op, children: p.children.push(root) }, goal)
        } else {
            Ok((stack, root))
        }
    }
}

/// The sequences on top of the stack `stack.push(root)` collapsed into their parents, down to the
/// topmost root node.
pub open spec fn spec_collapse_sequences<F>(stack: Seq<NodeModel<F>>, root: NodeModel<F>) -> Result<Seq<NodeModel<F>>, EModel<F>>
    decreases stack.len(),
{
    if root.op is RootNode {
        if has_too_many_children(root) {
            Err(EModel::MissingOperatorOutsideOfBrace)
        } else {
            Ok(stack.push(root))
        }
    } else if stack.len() == 0 {
        Err(EModel::UnmatchedRBrace)
    } else if spec_is_sequence(root.op) {
        let p = stack.last();
        spec_collapse_sequences(stack.drop_last(), NodeModel { op: p.op, children: p.children.push(root) })
    } else if has_too_many_children(root) {
        Err(EModel::MissingOperatorOutsideOfBrace)
    } else {
        Ok(stack.push(root))
    }
}

/// All sequences on top of the stack collapsed, down to the topmost root node.
pub open spec fn spec_collapse_all<F>(stack: Seq<NodeModel<F>>) -> Result<Seq<NodeModel<F>>, EModel<F>> {
    if stack.len() == 0 {
        Err(EModel::UnmatchedRBrace)
    } else {
        spec_collapse_sequences(stack.drop_last(), stack.last())
    }
}

/// The operator that a token stands for on its own (`None` for a brace). A minus is a subtraction
/// after a value and a negation elsewhere; an identifier writes a variable before an assignment,
/// calls a function before a value and reads a variable otherwise.
pub open spec fn spec_token_operator<F>(t: Token<F>, next: Option<Token<F>>, last_rightsided: bool) -> Option<Operator<F>> {
    match t {
        Token::Plus => Some(Operator::Add),
        Token::Minus => Some(if last_rightsided { Operator::Sub } else { Operator::Neg }),
        Token::Star => Some(Operator::Mul),
        Token::Slash => Some(Operator::Div),
        Token::Percent => Some(Operator::Mod),
        Token::Hat => Some(Operator::Exp),
        Token::Eq => Some(Operator::Eq),
        Token::Neq => Some(Operator::Neq),
        Token::Gt => Some(Operator::Gt),
        Token::Lt => Some(Operator::Lt),
        Token::Geq => Some(Operator::Geq),
        Token::Leq => Some(Operator::Leq),
        Token::And => Some(Operator::And),
        Token::Or => Some(Operator::Or),
        Token::Not => Some(Operator::Not),
        Token::LBrace => None,
        Token::RBrace => None,
        Token::Assign => Some(Operator::Assign),
        Token::PlusAssign => Some(Operator::AddAssign),
        Token::MinusAssign => Some(Operator::SubAssign),
        Token::StarAssign => Some(Operator::MulAssign),
        Token::SlashAssign => Some(Operator::DivAssign),
        Token::PercentAssign => Some(Operator::ModAssign),
        Token::HatAssign => Some(Operator::ExpAssign),
        Token::AndAssign => Some(Operator::AndAssign),
        Token::OrAssign => Some(Operator::OrAssign),
        Token::Comma => Some(Operator::Tuple),
        Token::Semicolon => Some(Operator::Chain),
        Token::Identifier(identifier) => Some(match next {
            Some(n) => if n.spec_is_assignment() {
                Operator::VariableIdentifierWrite { identifier }
            } else if n.spec_is_leftsided_value() {
                Operator::FunctionIdentifier { identifier }
            } else {
                Operator::VariableIdentifierRead { identifier }
            },
            None => Operator::VariableIdentifierRead { identifier },
        }),
        Token::Float(f) => Some(Operator::Const { value: Value::Float(f) }),
        Token::Int(i) => Some(Operator::Const { value: Value::Int(i) }),
        Token::Boolean(b) => Some(Operator::Const { value: Value::Boolean(b) }),
        Token::String(s) => Some(Operator::Const { value: Value::String(s) }),
    }
}

/// Whether two operators are the same sequence operator.
pub open spec fn same_sequence_op<F>(a: Operator<F>, b: Operator<F>) -> bool {
    (a is Tuple && b is Tuple) || (a is Chain && b is Chain)
}

/// The root stack after the node `node` (a token's node, or the tree of a closed brace) is placed
/// on it. A sequence operator extends the sequence on top, starts a new one around the top root,
/// takes over the last element of a sequence of lower precedence, or collapses the stack down to
/// its precedence; any other node is inserted into the top root, or into the last element of the
/// sequence on top.
pub open spec fn spec_place<F>(stack: Seq<NodeModel<F>>, node: NodeModel<F>) -> Result<Seq<NodeModel<F>>, EModel<F>> {
    if stack.len() == 0 {
        Err(EModel::UnmatchedLBrace)
    } else {
        let root = stack.last();
        let rest = stack.drop_last();
        if spec_is_sequence(node.op) {
            if same_sequence_op(root.op, node.op) {
                Ok(rest.push(NodeModel { op: root.op, children: root.children.push(empty_root()) }))
            } else if root.op is RootNode {
                Ok(rest.push(empty_root()).push(NodeModel { op: node.op, children: node.children.push(root).push(empty_root()) }))
            } else if spec_precedence(root.op) < spec_precedence(node.op) {
                Ok(rest.push(NodeModel { op: root.op, children: root.children.drop_last() }).push(
                    NodeModel { op: node.op, children: node.children.push(root.children.last()).push(empty_root()) }))
            } else {
                match spec_collapse_to(rest, root, spec_precedence(node.op)) {
                    Ok((s, collapsed)) => Ok(s.push(NodeModel { op: node.op, children: node.children.push(collapsed) })),
                    Err(e) => Err(e),
                }
            }
        } else if spec_is_sequence(root.op) {
            match spec_insert_back(root.children.last(), node, true) {
                Ok(new_last) => Ok(rest.push(NodeModel { op: root.op, children: root.children.drop_last().push(new_last) })),
                Err(e) => Err(e),
            }
        } else {
            match spec_insert_back(root, node, true) {
                Ok(new_root) => Ok(rest.push(new_root)),
                Err(e) => Err(e),
            }
        }
    }
}

/// What the parser holds between two tokens: the root stack, whether the last token was a value
/// that stands on the right of an operator, and the number of open braces.
pub ghost struct ParseState<F> {
    pub stack: Seq<NodeModel<F>>,
    pub last_rightsided: bool,
    pub open_braces: nat,
}

/// The parser's state after the token `t`, followed by `next`.
pub open spec fn spec_parse_step<F>(t: Token<F>, next: Option<Token<F>>, st: ParseState<F>) -> Result<ParseState<F>, EModel<F>> {
    let rs = t.spec_is_rightsided_value();
    if t is LBrace {
        Ok(ParseState { stack: st.stack.push(empty_root()), last_rightsided: rs, open_braces: st.open_braces + 1 })
    } else if t is RBrace {
        if st.open_braces == 0 {
            Err(EModel::UnmatchedRBrace)
        } else {
            match spec_collapse_all(st.stack) {
                Ok(s) => match spec_place(s.drop_last(), s.last()) {
                    Ok(s2) => Ok(ParseState { stack: s2, last_rightsided: rs, open_braces: (st.open_braces - 1) as nat }),
                    Err(e) => Err(e),
                },
                Err(e) => Err(e),
            }
        }
    } else {
        match spec_token_operator(t, next, st.last_rightsided) {
            Some(op) => match spec_place(st.stack, leaf(op)) {
                Ok(s2) => Ok(ParseState { stack: s2, last_rightsided: rs, open_braces: st.open_braces }),
                Err(e) => Err(e),
            },
            None => Ok(ParseState { stack: st.stack, last_rightsided: rs, open_braces: st.open_braces }),
        }
    }
}

/// The tree that the parser ends with: the stack collapsed down to its one root node.
pub open spec fn spec_parse_finish<F>(st: ParseState<F>) -> Result<NodeModel<F>, EModel<F>> {
    match spec_collapse_all(st.stack) {
        Ok(s) => if s.len() > 1 {
            Err(EModel::UnmatchedLBrace)
        } else if s.len() == 0 {
            Err(EModel::UnmatchedRBrace)
        } else {
            Ok(s[0])
        },
        Err(e) => Err(e),
    }
}

/// The parser run on the tokens from index `i` on, from the state `st`.
pub open spec fn spec_parse_from<F>(tokens: Seq<Token<F>>, i: int, st: ParseState<F>) -> Result<NodeModel<F>, EModel<F>>
    decreases tokens.len() - i,
{
    if i < 0 || i >= tokens.len() {
        spec_parse_finish(st)
    } else {
        let next = if i + 1 < tokens.len() { Some(tokens[i + 1]) } else { None };
        match spec_parse_step(tokens[i], next, st) {
            Ok(st2) => spec_parse_from(tokens, i + 1, st2),
            Err(e) => Err(e),
        }
    }
}

/// The operator tree of a sequence of tokens: the tokens are placed one after the other on a stack
/// of root nodes that starts with one empty root node, and the stack is collapsed at the end.
pub open spec fn spec_parse<F>(tokens: Seq<Token<F>>) -> Result<NodeModel<F>, EModel<F>> {
    spec_parse_from(tokens, 0, ParseState { stack: seq![empty_root()], last_rightsided: false, open_braces: 0 })
}

} // verus!
