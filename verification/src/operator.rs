//! The operators of the expression language and how each evaluates its arguments.
use vstd::prelude::*;
use crate::numeric::EvalexprFloat;
use crate::value::{float_of, spec_values_equal, Value, VModel, ValueType, IntType, models_of, lemma_models_of, has_float, values_equal, model_type, copy_values};
use crate::error::{EvalexprError, EvalexprResult, EModel, RModel, result_model};
use crate::context::{Context, ContextWithMutableVariables};
use crate::builtin::{BuiltinOutcome, spec_builtin, builtin_function};
use crate::text::chars_of;

verus! {

/// An operator of the expression language.
#[derive(Debug, PartialEq)]
pub enum Operator<F> {
    /// A root node in the operator tree.
    /// The whole expression is stored under a root node, as well as each subexpression surrounded by parentheses.
    RootNode,
    /// A binary addition operator.
    Add,
    /// A binary subtraction operator.
    Sub,
    /// A unary negation operator.
    Neg,
    /// A binary multiplication operator.
    Mul,
    /// A binary division operator.
    Div,
    /// A binary modulo operator.
    Mod,
    /// A binary exponentiation operator.
    Exp,
    /// A binary equality comparator.
    Eq,
    /// A binary inequality comparator.
    Neq,
    /// A binary greater-than comparator.
    Gt,
    /// A binary lower-than comparator.
    Lt,
    /// A binary greater-than-or-equal comparator.
    Geq,
    /// A binary lower-than-or-equal comparator.
    Leq,
    /// A binary logical and operator.
    And,
    /// A binary logical or operator.
    Or,
    /// A binary logical not operator.
    Not,
    /// A binary assignment operator.
    Assign,
    /// A binary add-assign operator.
    AddAssign,
    /// A binary subtract-assign operator.
    SubAssign,
    /// A binary multiply-assign operator.
    MulAssign,
    /// A binary divide-assign operator.
    DivAssign,
    /// A binary modulo-assign operator.
    ModAssign,
    /// A binary exponentiate-assign operator.
    ExpAssign,
    /// A binary and-assign operator.
    AndAssign,
    /// A binary or-assign operator.
    OrAssign,
    /// An n-ary tuple constructor.
    Tuple,
    /// An n-ary subexpression chain.
    Chain,
    /// A constant value.
    Const { value: Value<F> },
    /// A write to a variable identifier.
    VariableIdentifierWrite { identifier: String },
    /// A read from a variable identifier.
    VariableIdentifierRead { identifier: String },
    /// A function identifier.
    FunctionIdentifier { identifier: String },
}

/// The precedence of an operator.
/// A high precedence means that the operator has priority to be deeper in the tree.
pub open spec fn spec_precedence<F>(op: Operator<F>) -> int {
    match op {
        Operator::RootNode => 200,
        Operator::Add | Operator::Sub => 95,
        Operator::Neg => 110,
        Operator::Mul | Operator::Div | Operator::Mod => 100,
        Operator::Exp => 120,
        Operator::Eq | Operator::Neq | Operator::Gt | Operator::Lt | Operator::Geq | Operator::Leq => 80,
        Operator::And => 75,
        Operator::Or => 70,
        Operator::Not => 110,
        Operator::Tuple => 40,
        Operator::Assign | Operator::AddAssign | Operator::SubAssign | Operator::MulAssign | Operator::DivAssign
        | Operator::ModAssign | Operator::ExpAssign | Operator::AndAssign | Operator::OrAssign => 50,
        Operator::Chain => 0,
        Operator::Const { .. } => 200,
        Operator::VariableIdentifierWrite { .. } | Operator::VariableIdentifierRead { .. } => 200,
        Operator::FunctionIdentifier { .. } => 190,
    }
}

/// Whether chains of operators with the same precedence as this one are evaluated left-to-right.
pub open spec fn spec_is_left_to_right<F>(op: Operator<F>) -> bool {
    !(op is Assign || op is FunctionIdentifier)
}

/// Whether chains of this operator are flattened into one operator with many arguments.
pub open spec fn spec_is_sequence<F>(op: Operator<F>) -> bool {
    op is Tuple || op is Chain
}

/// The maximum amount of arguments of the operator (`None` for no maximum).
pub open spec fn spec_max_argument_amount<F>(op: Operator<F>) -> Option<nat> {
    match op {
        Operator::Add | Operator::Sub | Operator::Mul | Operator::Div | Operator::Mod | Operator::Exp
        | Operator::Eq | Operator::Neq | Operator::Gt | Operator::Lt | Operator::Geq | Operator::Leq
        | Operator::And | Operator::Or | Operator::Assign | Operator::AddAssign | Operator::SubAssign
        | Operator::MulAssign | Operator::DivAssign | Operator::ModAssign | Operator::ExpAssign
        | Operator::AndAssign | Operator::OrAssign => Some(2),
        Operator::Tuple | Operator::Chain => None,
        Operator::Not | Operator::Neg | Operator::RootNode => Some(1),
        Operator::Const { .. } => Some(0),
        Operator::VariableIdentifierWrite { .. } | Operator::VariableIdentifierRead { .. } => Some(0),
        Operator::FunctionIdentifier { .. } => Some(1),
    }
}

/// Whether the operator is a leaf, accepting no arguments.
pub open spec fn spec_is_leaf<F>(op: Operator<F>) -> bool {
    spec_max_argument_amount(op) == Some(0nat)
}

/// Whether the operator is unary (takes exactly one argument) and no root node.
pub open spec fn spec_is_unary<F>(op: Operator<F>) -> bool {
    spec_max_argument_amount(op) == Some(1nat) && !(op is RootNode)
}

/// Whether `v` is a number.
pub open spec fn is_number<F>(v: VModel<F>) -> bool {
    v is Int || v is Float
}

/// Whether `v` is a number or a string.
pub open spec fn is_number_or_string<F>(v: VModel<F>) -> bool {
    v is Int || v is Float || v is Str
}

/// The float operation of an arithmetic operator (`Sub`, `Mul`, `Div`, `Mod`).
pub open spec fn float_op<F: EvalexprFloat>(op: Operator<F>, x: F, y: F) -> F {
    match op {
        Operator::Sub => x.spec_sub(y),
        Operator::Mul => x.spec_mul(y),
        Operator::Div => x.spec_div(y),
        _ => x.spec_rem(y),
    }
}

/// The float comparison of a comparison operator (`Gt`, `Lt`, `Geq`, `Leq`): `a > b` is `b < a`,
/// `a >= b` is `b <= a`.
pub open spec fn float_compare<F: EvalexprFloat>(op: Operator<F>, x: F, y: F) -> bool {
    match op {
        Operator::Gt => y.spec_float_lt(x),
        Operator::Lt => x.spec_float_lt(y),
        Operator::Geq => y.spec_float_le(x),
        _ => x.spec_float_le(y),
    }
}

/// Whether the operator computes with floats on these arguments: an arithmetic operator on two
/// numbers of which one is a float, the exponentiation on any two numbers, or the negation of a
/// float. Its result is then a float.
pub open spec fn float_arithmetic<F>(op: Operator<F>, a: Seq<VModel<F>>) -> bool {
    ||| ((op is Add || op is Sub || op is Mul || op is Div || op is Mod) && a.len() == 2
        && is_number(a[0]) && is_number(a[1]) && (a[0] is Float || a[1] is Float))
    ||| (op is Exp && a.len() == 2 && is_number(a[0]) && is_number(a[1]))
    ||| (op is Neg && a.len() == 1 && a[0] is Float)
}

/// Whether a comparison on two arguments involves a float: an equality where either argument holds
/// a float, or an order comparison of two numbers of which one is a float. Its result is then a
/// boolean, computed by the float type's comparisons.
pub open spec fn float_comparison<F>(op: Operator<F>, a: Seq<VModel<F>>) -> bool {
    ||| ((op is Eq || op is Neq) && a.len() == 2 && (has_float(a[0]) || has_float(a[1])))
    ||| ((op is Gt || op is Lt || op is Geq || op is Leq) && a.len() == 2 && is_number(a[0]) && is_number(a[1])
        && (a[0] is Float || a[1] is Float))
}

/// Whether an operator gives a boolean on these arguments: an equality of two values, an order
/// comparison of two numbers, `&&` or `||` of two booleans, `!` of a boolean.
pub open spec fn boolean_operation<F>(op: Operator<F>, a: Seq<VModel<F>>) -> bool {
    ||| ((op is Eq || op is Neq) && a.len() == 2)
    ||| ((op is Gt || op is Lt || op is Geq || op is Leq) && a.len() == 2 && is_number(a[0]) && is_number(a[1]))
    ||| ((op is And || op is Or) && a.len() == 2 && a[0] is Boolean && a[1] is Boolean)
    ||| (op is Not && a.len() == 1 && a[0] is Boolean)
}

/// The integer operation of an arithmetic operator, `None` where it overflows or divides by zero.
pub open spec fn checked_int_op<F>(op: Operator<F>, x: i64, y: i64) -> Option<i64> {
    match op {
        Operator::Add => x.checked_add(y),
        Operator::Sub => x.checked_sub(y),
        Operator::Mul => x.checked_mul(y),
        Operator::Div => x.checked_div(y),
        _ => x.checked_rem(y),
    }
}

/// The error an arithmetic operator answers with where its integer operation fails.
pub open spec fn int_op_error<F>(op: Operator<F>, x: VModel<F>, y: VModel<F>) -> EModel<F> {
    match op {
        Operator::Add => EModel::AdditionError { augend: x, addend: y },
        Operator::Sub => EModel::SubtractionError { minuend: x, subtrahend: y },
        Operator::Mul => EModel::MultiplicationError { multiplicand: x, multiplier: y },
        Operator::Div => EModel::DivisionError { dividend: x, divisor: y },
        _ => EModel::ModulationError { dividend: x, divisor: y },
    }
}

/// Lexicographic order of character sequences from index `i` on: whether `a` comes before `b`.
pub open spec fn lex_less_from(a: Seq<char>, b: Seq<char>, i: int) -> bool
    decreases a.len() - i,
{
    if i < 0 || i >= a.len() {
        0 <= i < b.len()
    } else if i >= b.len() {
        false
    } else if a[i] != b[i] {
        a[i] < b[i]
    } else {
        lex_less_from(a, b, i + 1)
    }
}

/// Lexicographic order of strings by character (the order of their UTF-8 bytes).
pub open spec fn lex_less(a: Seq<char>, b: Seq<char>) -> bool {
    lex_less_from(a, b, 0)
}

/// The outcome of a comparison operator on two strings or two integers.
pub open spec fn compare_result<F>(op: Operator<F>, less: bool, greater: bool) -> bool {
    match op {
        Operator::Gt => greater,
        Operator::Lt => less,
        Operator::Geq => !less,
        _ => !greater,
    }
}

/// The result of a binary operator on numbers (`Sub`, `Mul`, `Div`, `Mod`).
pub open spec fn spec_numeric_binary<F: EvalexprFloat>(op: Operator<F>, a: Seq<VModel<F>>) -> Option<RModel<F>> {
    if a.len() != 2 {
        Some(Err(EModel::WrongOperatorArgumentAmount { expected: 2, actual: a.len() }))
    } else if !is_number(a[0]) {
        Some(Err(EModel::ExpectedNumber { actual: a[0] }))
    } else if !is_number(a[1]) {
        Some(Err(EModel::ExpectedNumber { actual: a[1] }))
    } else if a[0] is Int && a[1] is Int {
        match checked_int_op(op, a[0]->Int_0 as i64, a[1]->Int_0 as i64) {
            Some(v) => Some(Ok(VModel::Int(v as int))),
            None => Some(Err(int_op_error(op, a[0], a[1]))),
        }
    } else {
        Some(Ok(VModel::Float(float_op(op, float_of(a[0]), float_of(a[1])))))
    }
}

/// The result of the `Add` operator.
pub open spec fn spec_add<F: EvalexprFloat>(a: Seq<VModel<F>>) -> Option<RModel<F>> {
    if a.len() != 2 {
        Some(Err(EModel::WrongOperatorArgumentAmount { expected: 2, actual: a.len() }))
    } else if !is_number_or_string(a[0]) {
        Some(Err(EModel::ExpectedNumberOrString { actual: a[0] }))
    } else if !is_number_or_string(a[1]) {
        Some(Err(EModel::ExpectedNumberOrString { actual: a[1] }))
    } else if a[0] is Str && a[1] is Str {
        Some(Ok(VModel::Str(a[0]->Str_0 + a[1]->Str_0)))
    } else if a[0] is Int && a[1] is Int {
        match checked_int_op(Operator::<F>::Add, a[0]->Int_0 as i64, a[1]->Int_0 as i64) {
            Some(v) => Some(Ok(VModel::Int(v as int))),
            None => Some(Err(int_op_error(Operator::<F>::Add, a[0], a[1]))),
        }
    } else if is_number(a[0]) && is_number(a[1]) {
        Some(Ok(VModel::Float(float_of(a[0]).spec_add(float_of(a[1])))))
    } else {
        Some(Err(EModel::WrongTypeCombination { operator: Operator::Add, actual: seq![model_type(a[0]), model_type(a[1])] }))
    }
}

/// The result of a comparison operator (`Gt`, `Lt`, `Geq`, `Leq`).
pub open spec fn spec_compare<F: EvalexprFloat>(op: Operator<F>, a: Seq<VModel<F>>) -> Option<RModel<F>> {
    if a.len() != 2 {
        Some(Err(EModel::WrongOperatorArgumentAmount { expected: 2, actual: a.len() }))
    } else if !is_number_or_string(a[0]) {
        Some(Err(EModel::ExpectedNumberOrString { actual: a[0] }))
    } else if !is_number_or_string(a[1]) {
        Some(Err(EModel::ExpectedNumberOrString { actual: a[1] }))
    } else if a[0] is Str && a[1] is Str {
        Some(Ok(VModel::Boolean(compare_result(op, lex_less(a[0]->Str_0, a[1]->Str_0), lex_less(a[1]->Str_0, a[0]->Str_0)))))
    } else if a[0] is Int && a[1] is Int {
        Some(Ok(VModel::Boolean(compare_result(op, a[0]->Int_0 < a[1]->Int_0, a[0]->Int_0 > a[1]->Int_0))))
    } else if is_number(a[0]) && is_number(a[1]) {
        Some(Ok(VModel::Boolean(float_compare(op, float_of(a[0]), float_of(a[1])))))
    } else {
        Some(Err(EModel::WrongTypeCombination { operator: op, actual: seq![model_type(a[0]), model_type(a[1])] }))
    }
}

/// The result of the equality operators: floats compare by the float type's equality.
pub open spec fn spec_equality<F: EvalexprFloat>(negate: bool, a: Seq<VModel<F>>) -> Option<RModel<F>> {
    if a.len() != 2 {
        Some(Err(EModel::WrongOperatorArgumentAmount { expected: 2, actual: a.len() }))
    } else if has_float(a[0]) || has_float(a[1]) {
        Some(Ok(VModel::Boolean(spec_values_equal(a[0], a[1]) != negate)))
    } else {
        Some(Ok(VModel::Boolean((a[0] == a[1]) != negate)))
    }
}

/// The result of the logical operators `And` and `Or`.
pub open spec fn spec_logical<F>(is_and: bool, a: Seq<VModel<F>>) -> RModel<F> {
    if a.len() != 2 {
        Err(EModel::WrongOperatorArgumentAmount { expected: 2, actual: a.len() })
    } else if !(a[0] is Boolean) {
        Err(EModel::ExpectedBoolean { actual: a[0] })
    } else if !(a[1] is Boolean) {
        Err(EModel::ExpectedBoolean { actual: a[1] })
    } else if is_and {
        Ok(VModel::Boolean(a[0]->Boolean_0 && a[1]->Boolean_0))
    } else {
        Ok(VModel::Boolean(a[0]->Boolean_0 || a[1]->Boolean_0))
    }
}

/// The result of a function call: a function of the context, else a builtin function.
/// `None` where the context defines functions of its own, or for `str::from` where the model of the
/// text is not formed.
pub open spec fn spec_call<F: EvalexprFloat>(identifier: Seq<char>, a: Seq<VModel<F>>, builtins_disabled: bool, has_functions: bool) -> Option<RModel<F>> {
    if a.len() != 1 {
        Some(Err(EModel::WrongOperatorArgumentAmount { expected: 1, actual: a.len() }))
    } else if has_functions {
        None
    } else if builtins_disabled {
        Some(Err(EModel::FunctionIdentifierNotFound(identifier)))
    } else {
        match spec_builtin(identifier, a[0]) {
            BuiltinOutcome::NotBuiltin => Some(Err(EModel::FunctionIdentifierNotFound(identifier))),
            BuiltinOutcome::Returns(m) => Some(m),
            BuiltinOutcome::SomeString => None,
        }
    }
}

/// What the operator `op` evaluates to on the arguments `a`, in a context with the variables `vars`
/// that cannot be modified. `None` where the result depends on a function
/// that the context defines.
pub open spec fn spec_eval_op<F: EvalexprFloat>(op: Operator<F>, a: Seq<VModel<F>>, vars: Map<Seq<char>, VModel<F>>, builtins_disabled: bool, has_functions: bool) -> Option<RModel<F>> {
    match op {
        Operator::RootNode => Some(Ok(if a.len() > 0 { a[0] } else { VModel::Empty })),
        Operator::Add => spec_add(a),
        Operator::Sub | Operator::Mul | Operator::Div | Operator::Mod => spec_numeric_binary(op, a),
        Operator::Neg => if a.len() != 1 {
            Some(Err(EModel::WrongOperatorArgumentAmount { expected: 1, actual: a.len() }))
        } else if !is_number(a[0]) {
            Some(Err(EModel::ExpectedNumber { actual: a[0] }))
        } else if a[0] is Int {
            if a[0]->Int_0 == i64::MIN {
                Some(Err(EModel::NegationError { argument: a[0] }))
            } else {
                Some(Ok(VModel::Int(-a[0]->Int_0)))
            }
        } else {
            Some(Ok(VModel::Float(a[0]->Float_0.spec_neg())))
        },
        Operator::Exp => if a.len() != 2 {
            Some(Err(EModel::WrongOperatorArgumentAmount { expected: 2, actual: a.len() }))
        } else if !is_number(a[0]) {
            Some(Err(EModel::ExpectedNumber { actual: a[0] }))
        } else if !is_number(a[1]) {
            Some(Err(EModel::ExpectedNumber { actual: a[1] }))
        } else {
            Some(Ok(VModel::Float(float_of(a[0]).spec_pow(float_of(a[1])))))
        },
        Operator::Eq => spec_equality(false, a),
        Operator::Neq => spec_equality(true, a),
        Operator::Gt | Operator::Lt | Operator::Geq | Operator::Leq => spec_compare(op, a),
        Operator::And => Some(spec_logical(true, a)),
        Operator::Or => Some(spec_logical(false, a)),
        Operator::Not => Some(if a.len() != 1 {
            Err(EModel::WrongOperatorArgumentAmount { expected: 1, actual: a.len() })
        } else if !(a[0] is Boolean) {
            Err(EModel::ExpectedBoolean { actual: a[0] })
        } else {
            Ok(VModel::Boolean(!a[0]->Boolean_0))
        }),
        Operator::Tuple => Some(Ok(VModel::Tuple(a))),
        Operator::Assign | Operator::AddAssign | Operator::SubAssign | Operator::MulAssign | Operator::DivAssign
        | Operator::ModAssign | Operator::ExpAssign | Operator::AndAssign | Operator::OrAssign =>
            Some(Err(EModel::ContextNotMutable)),
        Operator::Chain => Some(if a.len() == 0 {
            Err(EModel::WrongOperatorArgumentAmount { expected: 1, actual: 0 })
        } else {
            Ok(a.last())
        }),
        Operator::Const { value } => Some(if a.len() != 0 {
            Err(EModel::WrongOperatorArgumentAmount { expected: 0, actual: a.len() })
        } else {
            Ok(value@)
        }),
        Operator::VariableIdentifierWrite { identifier } => Some(Ok(VModel::Str(identifier@))),
        Operator::VariableIdentifierRead { identifier } => Some(if vars.contains_key(identifier@) {
            Ok(vars[identifier@])
        } else {
            Err(EModel::VariableIdentifierNotFound(identifier@))
        }),
        Operator::FunctionIdentifier { identifier } => spec_call(identifier@, a, builtins_disabled, has_functions),
    }
}

/// The operator that an assignment operator applies before it assigns (`Add` for `AddAssign`, and so on).
pub open spec fn assignment_base<F>(op: Operator<F>) -> Operator<F> {
    match op {
        Operator::AddAssign => Operator::Add,
        Operator::SubAssign => Operator::Sub,
        Operator::MulAssign => Operator::Mul,
        Operator::DivAssign => Operator::Div,
        Operator::ModAssign => Operator::Mod,
        Operator::ExpAssign => Operator::Exp,
        Operator::AndAssign => Operator::And,
        _ => Operator::Or,
    }
}

/// Whether the operator assigns to a variable.
pub open spec fn is_assignment<F>(op: Operator<F>) -> bool {
    op is Assign || op is AddAssign || op is SubAssign || op is MulAssign || op is DivAssign
        || op is ModAssign || op is ExpAssign || op is AndAssign || op is OrAssign
}

/// Setting `identifier` to `value` in a context of type `C` that holds `vars`: the result and the variables after.
pub open spec fn spec_assign<F: EvalexprFloat, C: ContextWithMutableVariables<F>>(vars: Map<Seq<char>, VModel<F>>, identifier: Seq<char>, value: VModel<F>) -> (RModel<F>, Map<Seq<char>, VModel<F>>) {
    match C::spec_set_refusal(vars, identifier, value) {
        None => (Ok(VModel::Empty), vars.insert(identifier, value)),
        Some(e) => (Err(e), vars),
    }
}

/// What the operator `op` evaluates to on the arguments `a` in a mutable context of type `C` that holds `vars`,
/// together with the variables afterwards. `None` where this depends on a function
/// that the context defines.
pub open spec fn spec_eval_op_mut<F: EvalexprFloat, C: ContextWithMutableVariables<F>>(op: Operator<F>, a: Seq<VModel<F>>, vars: Map<Seq<char>, VModel<F>>, builtins_disabled: bool, has_functions: bool) -> Option<(RModel<F>, Map<Seq<char>, VModel<F>>)> {
    if is_assignment(op) {
        if a.len() != 2 {
            Some((Err(EModel::WrongOperatorArgumentAmount { expected: 2, actual: a.len() }), vars))
        } else if !(a[0] is Str) {
            Some((Err(EModel::ExpectedString { actual: a[0] }), vars))
        } else if op is Assign {
            Some(spec_assign::<F, C>(vars, a[0]->Str_0, a[1]))
        } else {
            let target = a[0]->Str_0;
            if !vars.contains_key(target) {
                Some((Err(EModel::VariableIdentifierNotFound(target)), vars))
            } else {
                match spec_eval_op(assignment_base(op), seq![vars[target], a[1]], vars, builtins_disabled, has_functions) {
                    Some(Ok(v)) => Some(spec_assign::<F, C>(vars, target, v)),
                    Some(Err(e)) => Some((Err(e), vars)),
                    None => None,
                }
            }
        }
    } else {
        match spec_eval_op(op, a, vars, builtins_disabled, has_functions) {
            Some(m) => Some((m, vars)),
            None => None,
        }
    }
}

/// Whether `a` comes before `b` in lexicographic order of their characters.
pub fn str_less(a: &str, b: &str) -> (r: bool)
    ensures
        r == lex_less(a@, b@),
{
    let ca = chars_of(a);
    let cb = chars_of(b);
    let mut i: usize = 0;
    while i < ca.len() && i < cb.len()
        invariant
            ca@ == a@,
            cb@ == b@,
            i <= ca@.len(),
            i <= cb@.len(),
            lex_less_from(a@, b@, 0) == lex_less_from(a@, b@, i as int),
        decreases ca@.len() - i,
    {
        if ca[i] != cb[i] {
            return ca[i] < cb[i];
        }
        i += 1;
    }
    i < cb.len()
}

impl<F: EvalexprFloat> Operator<F> {
    /// Creates a `Const` operator holding the value.
    pub fn value(value: Value<F>) -> (r: Self)
        ensures
            r == (Operator::Const { value }),
    {
        Operator::Const { value }
    }

    /// Creates a `VariableIdentifierWrite` operator.
    pub fn variable_identifier_write(identifier: String) -> (r: Self)
        ensures
            r == (Operator::<F>::VariableIdentifierWrite { identifier }),
    {
        Operator::VariableIdentifierWrite { identifier }
    }

    /// Creates a `VariableIdentifierRead` operator.
    pub fn variable_identifier_read(identifier: String) -> (r: Self)
        ensures
            r == (Operator::<F>::VariableIdentifierRead { identifier }),
    {
        Operator::VariableIdentifierRead { identifier }
    }

    /// Creates a `FunctionIdentifier` operator.
    pub fn function_identifier(identifier: String) -> (r: Self)
        ensures
            r == (Operator::<F>::FunctionIdentifier { identifier }),
    {
        Operator::FunctionIdentifier { identifier }
    }

    /// Returns the precedence of the operator.
    /// A high precedence means that the operator has priority to be deeper in the tree.
    pub fn precedence(&self) -> (r: i32)
        ensures
            r as int == spec_precedence(*self),
    {
        match self {
            Operator::RootNode => 200,
            Operator::Add | Operator::Sub => 95,
            Operator::Neg => 110,
            Operator::Mul | Operator::Div | Operator::Mod => 100,
            Operator::Exp => 120,
            Operator::Eq | Operator::Neq | Operator::Gt | Operator::Lt | Operator::Geq | Operator::Leq => 80,
            Operator::And => 75,
            Operator::Or => 70,
            Operator::Not => 110,
            Operator::Tuple => 40,
            Operator::Assign | Operator::AddAssign | Operator::SubAssign | Operator::MulAssign | Operator::DivAssign
            | Operator::ModAssign | Operator::ExpAssign | Operator::AndAssign | Operator::OrAssign => 50,
            Operator::Chain => 0,
            Operator::Const { .. } => 200,
            Operator::VariableIdentifierWrite { .. } | Operator::VariableIdentifierRead { .. } => 200,
            Operator::FunctionIdentifier { .. } => 190,
        }
    }

    /// Returns true if chains of operators with the same precedence as this one should be evaluated left-to-right,
    /// and false if they should be evaluated right-to-left.
    pub fn is_left_to_right(&self) -> (r: bool)
        ensures
            r == spec_is_left_to_right(*self),
    {
        !matches!(self, Operator::Assign | Operator::FunctionIdentifier { .. })
    }

    /// Returns true if chains of this operator should be flattened into one operator with many arguments.
    pub fn is_sequence(&self) -> (r: bool)
        ensures
            r == spec_is_sequence(*self),
    {
        matches!(self, Operator::Tuple | Operator::Chain)
    }

    /// Returns true if this operator is a root node.
    pub fn is_root_node(&self) -> (r: bool)
        ensures
            r == (*self is RootNode),
    {
        matches!(self, Operator::RootNode)
    }

    /// Returns the maximum amount of arguments required by this operator.
    pub fn max_argument_amount(&self) -> (r: Option<usize>)
        ensures
            match r {
                Some(n) => spec_max_argument_amount(*self) == Some(n as nat),
                None => spec_max_argument_amount(*self) is None,
            },
    {
        match self {
            Operator::Add | Operator::Sub | Operator::Mul | Operator::Div | Operator::Mod | Operator::Exp
            | Operator::Eq | Operator::Neq | Operator::Gt | Operator::Lt | Operator::Geq | Operator::Leq
            | Operator::And | Operator::Or | Operator::Assign | Operator::AddAssign | Operator::SubAssign
            | Operator::MulAssign | Operator::DivAssign | Operator::ModAssign | Operator::ExpAssign
            | Operator::AndAssign | Operator::OrAssign => Some(2),
            Operator::Tuple | Operator::Chain => None,
            Operator::Not | Operator::Neg | Operator::RootNode => Some(1),
            Operator::Const { .. } => Some(0),
            Operator::VariableIdentifierWrite { .. } | Operator::VariableIdentifierRead { .. } => Some(0),
            Operator::FunctionIdentifier { .. } => Some(1),
        }
    }

    /// Returns true if this operator is a leaf, meaning it accepts no arguments.
    pub fn is_leaf(&self) -> (r: bool)
        ensures
            r == spec_is_leaf(*self),
    {
        self.max_argument_amount() == Some(0usize)
    }

    /// Returns true if this operator is unary, meaning it requires exactly one argument, and is no root node.
    pub fn is_unary(&self) -> (r: bool)
        ensures
            r == spec_is_unary(*self),
    {
        self.max_argument_amount() == Some(1usize) && !self.is_root_node()
    }

    /// Duplicates the operator.
    pub fn copy_operator(&self) -> (r: Operator<F>)
        ensures
            spec_precedence(r) == spec_precedence(*self),
            spec_max_argument_amount(r) == spec_max_argument_amount(*self),
            spec_is_left_to_right(r) == spec_is_left_to_right(*self),
            spec_is_sequence(r) == spec_is_sequence(*self),
            r is RootNode <==> *self is RootNode,
            forall|a: Seq<VModel<F>>, vars: Map<Seq<char>, VModel<F>>, bd: bool, hf: bool|
                #[trigger] spec_eval_op(r, a, vars, bd, hf) == spec_eval_op(*self, a, vars, bd, hf),
    {
        match self {
            Operator::RootNode => Operator::RootNode,
            Operator::Add => Operator::Add,
            Operator::Sub => Operator::Sub,
            Operator::Neg => Operator::Neg,
            Operator::Mul => Operator::Mul,
            Operator::Div => Operator::Div,
            Operator::Mod => Operator::Mod,
            Operator::Exp => Operator::Exp,
            Operator::Eq => Operator::Eq,
            Operator::Neq => Operator::Neq,
            Operator::Gt => Operator::Gt,
            Operator::Lt => Operator::Lt,
            Operator::Geq => Operator::Geq,
            Operator::Leq => Operator::Leq,
            Operator::And => Operator::And,
            Operator::Or => Operator::Or,
            Operator::Not => Operator::Not,
            Operator::Assign => Operator::Assign,
            Operator::AddAssign => Operator::AddAssign,
            Operator::SubAssign => Operator::SubAssign,
            Operator::MulAssign => Operator::MulAssign,
            Operator::DivAssign => Operator::DivAssign,
            Operator::ModAssign => Operator::ModAssign,
            Operator::ExpAssign => Operator::ExpAssign,
            Operator::AndAssign => Operator::AndAssign,
            Operator::OrAssign => Operator::OrAssign,
            Operator::Tuple => Operator::Tuple,
            Operator::Chain => Operator::Chain,
            Operator::Const { value } => Operator::Const { value: value.copy_value() },
            Operator::VariableIdentifierWrite { identifier } => Operator::VariableIdentifierWrite { identifier: identifier.clone() },
            Operator::VariableIdentifierRead { identifier } => Operator::VariableIdentifierRead { identifier: identifier.clone() },
            Operator::FunctionIdentifier { identifier } => Operator::FunctionIdentifier { identifier: identifier.clone() },
        }
    }
}

/// The number a value holds, as a float.
fn to_float<F: EvalexprFloat>(v: &Value<F>) -> (r: F)
    requires
        v@ is Int || v@ is Float,
    ensures
        r == float_of(v@),
{
    match v {
        Value::Float(f) => *f,
        Value::Int(i) => F::from_int(*i),
        _ => {
            assert(false);
            F::from_int(0)
        },
    }
}

fn is_number_exec<F: EvalexprFloat>(v: &Value<F>) -> (r: bool)
    ensures
        r == is_number(v@),
{
    matches!(v, Value::Int(_) | Value::Float(_))
}

fn is_number_or_string_exec<F: EvalexprFloat>(v: &Value<F>) -> (r: bool)
    ensures
        r == is_number_or_string(v@),
{
    matches!(v, Value::Int(_) | Value::Float(_) | Value::String(_))
}

fn type_pair<F: EvalexprFloat>(a: &Value<F>, b: &Value<F>) -> (r: Vec<ValueType>)
    ensures
        r@ == seq![model_type(a@), model_type(b@)],
{
    let r = vec![ValueType::from_value(a), ValueType::from_value(b)];
    assert(r@ =~= seq![model_type(a@), model_type(b@)]);
    r
}

fn eval_add<F: EvalexprFloat>(arguments: &Vec<Value<F>>) -> (r: EvalexprResult<Value<F>, F>)
    ensures
        spec_add(models_of(arguments@)) matches Some(m) ==> result_model(r) == m,
        float_arithmetic(Operator::<F>::Add, models_of(arguments@)) ==> (r matches Ok(v) && v@ is Float),
{
    proof { lemma_models_of(arguments@); }
    if arguments.len() != 2 {
        return Err(EvalexprError::wrong_operator_argument_amount(arguments.len(), 2));
    }
    let a0 = &arguments[0];
    let a1 = &arguments[1];
    if !is_number_or_string_exec(a0) {
        return Err(EvalexprError::expected_number_or_string(a0.copy_value()));
    }
    if !is_number_or_string_exec(a1) {
        return Err(EvalexprError::expected_number_or_string(a1.copy_value()));
    }
    match (a0, a1) {
        (Value::String(x), Value::String(y)) => {
            let mut s = x.clone();
            s.append(y.as_str());
            Ok(Value::String(s))
        },
        (Value::Int(x), Value::Int(y)) => match x.checked_add(*y) {
            Some(v) => Ok(Value::Int(v)),
            None => Err(EvalexprError::AdditionError { augend: a0.copy_value(), addend: a1.copy_value() }),
        },
        (Value::String(_), _) | (_, Value::String(_)) => Err(EvalexprError::wrong_type_combination(Operator::Add, type_pair(a0, a1))),
        _ => Ok(Value::Float(to_float(a0).add(to_float(a1)))),
    }
}

fn eval_numeric_binary<F: EvalexprFloat>(op: &Operator<F>, arguments: &Vec<Value<F>>) -> (r: EvalexprResult<Value<F>, F>)
    requires
        *op is Sub || *op is Mul || *op is Div || *op is Mod,
    ensures
        spec_numeric_binary(*op, models_of(arguments@)) matches Some(m) ==> result_model(r) == m,
        float_arithmetic(*op, models_of(arguments@)) ==> (r matches Ok(v) && v@ is Float),
{
    proof { lemma_models_of(arguments@); }
    if arguments.len() != 2 {
        return Err(EvalexprError::wrong_operator_argument_amount(arguments.len(), 2));
    }
    let a0 = &arguments[0];
    let a1 = &arguments[1];
    if !is_number_exec(a0) {
        return Err(EvalexprError::expected_number(a0.copy_value()));
    }
    if !is_number_exec(a1) {
        return Err(EvalexprError::expected_number(a1.copy_value()));
    }
    match (a0, a1) {
        (Value::Int(x), Value::Int(y)) => {
            let result = match op {
                Operator::Sub => x.checked_sub(*y),
                Operator::Mul => x.checked_mul(*y),
                Operator::Div => x.checked_div(*y),
                _ => x.checked_rem(*y),
            };
            match result {
                Some(v) => Ok(Value::Int(v)),
                None => Err(match op {
                    Operator::Sub => EvalexprError::SubtractionError { minuend: a0.copy_value(), subtrahend: a1.copy_value() },
                    Operator::Mul => EvalexprError::MultiplicationError { multiplicand: a0.copy_value(), multiplier: a1.copy_value() },
                    Operator::Div => EvalexprError::DivisionError { dividend: a0.copy_value(), divisor: a1.copy_value() },
                    _ => EvalexprError::ModulationError { dividend: a0.copy_value(), divisor: a1.copy_value() },
                }),
            }
        },
        _ => {
            let x = to_float(a0);
            let y = to_float(a1);
            Ok(Value::Float(match op {
                Operator::Sub => x.sub(y),
                Operator::Mul => x.mul(y),
                Operator::Div => x.div(y),
                _ => x.rem(y),
            }))
        },
    }
}

fn eval_compare<F: EvalexprFloat>(op: &Operator<F>, arguments: &Vec<Value<F>>) -> (r: EvalexprResult<Value<F>, F>)
    requires
        *op is Gt || *op is Lt || *op is Geq || *op is Leq,
    ensures
        spec_compare(*op, models_of(arguments@)) matches Some(m) ==> result_model(r) == m,
        float_comparison(*op, models_of(arguments@)) ==> (r matches Ok(v) && v@ is Boolean),
{
    proof { lemma_models_of(arguments@); }
    if arguments.len() != 2 {
        return Err(EvalexprError::wrong_operator_argument_amount(arguments.len(), 2));
    }
    let a0 = &arguments[0];
    let a1 = &arguments[1];
    if !is_number_or_string_exec(a0) {
        return Err(EvalexprError::expected_number_or_string(a0.copy_value()));
    }
    if !is_number_or_string_exec(a1) {
        return Err(EvalexprError::expected_number_or_string(a1.copy_value()));
    }
    let (less, greater) = match (a0, a1) {
        (Value::String(x), Value::String(y)) => (str_less(x.as_str(), y.as_str()), str_less(y.as_str(), x.as_str())),
        (Value::Int(x), Value::Int(y)) => (*x < *y, *x > *y),
        (Value::String(_), _) | (_, Value::String(_)) => {
            let operator = match op {
                Operator::Gt => Operator::Gt,
                Operator::Lt => Operator::Lt,
                Operator::Geq => Operator::Geq,
                _ => Operator::Leq,
            };
            return Err(EvalexprError::wrong_type_combination(operator, type_pair(a0, a1)));
        },
        _ => {
            let x = to_float(a0);
            let y = to_float(a1);
            let b = match op {
                Operator::Gt => y.float_lt(x),
                Operator::Lt => x.float_lt(y),
                Operator::Geq => y.float_le(x),
                _ => x.float_le(y),
            };
            return Ok(Value::Boolean(b));
        },
    };
    let b = match op {
        Operator::Gt => greater,
        Operator::Lt => less,
        Operator::Geq => !less,
        _ => !greater,
    };
    Ok(Value::Boolean(b))
}

fn eval_logical<F: EvalexprFloat>(is_and: bool, arguments: &Vec<Value<F>>) -> (r: EvalexprResult<Value<F>, F>)
    ensures
        result_model(r) == spec_logical(is_and, models_of(arguments@)),
{
    proof { lemma_models_of(arguments@); }
    if arguments.len() != 2 {
        return Err(EvalexprError::wrong_operator_argument_amount(arguments.len(), 2));
    }
    let a = match &arguments[0] {
        Value::Boolean(b) => *b,
        v => return Err(EvalexprError::expected_boolean(v.copy_value())),
    };
    let b = match &arguments[1] {
        Value::Boolean(b) => *b,
        v => return Err(EvalexprError::expected_boolean(v.copy_value())),
    };
    if is_and {
        Ok(Value::Boolean(a && b))
    } else {
        Ok(Value::Boolean(a || b))
    }
}

fn eval_call<F: EvalexprFloat, C: Context<F>>(identifier: &String, arguments: &Vec<Value<F>>, context: &C) -> (r: EvalexprResult<Value<F>, F>)
    ensures
        spec_call(identifier@, models_of(arguments@), context.spec_builtins_disabled(), context.spec_has_functions()) matches Some(m)
            ==> result_model(r) == m,
{
    proof { lemma_models_of(arguments@); }
    if arguments.len() != 1 {
        return Err(EvalexprError::wrong_operator_argument_amount(arguments.len(), 1));
    }
    let argument = &arguments[0];
    match context.call_function(identifier.as_str(), argument) {
        Err(EvalexprError::FunctionIdentifierNotFound(_)) if !context.are_builtin_functions_disabled() => {
            match builtin_function(identifier.as_str(), argument) {
                Some(result) => result,
                None => Err(EvalexprError::FunctionIdentifierNotFound(identifier.clone())),
            }
        },
        result => result,
    }
}

impl<F: EvalexprFloat> Operator<F> {
    /// Evaluates the operator with the given arguments and context.
    pub fn eval<C: Context<F>>(&self, arguments: &Vec<Value<F>>, context: &C) -> (r: EvalexprResult<Value<F>, F>)
        ensures
            spec_eval_op(*self, models_of(arguments@), context.spec_variables(), context.spec_builtins_disabled(),
                context.spec_has_functions()) matches Some(m) ==> result_model(r) == m,
            float_arithmetic(*self, models_of(arguments@)) ==> (r matches Ok(v) && v@ is Float),
            float_comparison(*self, models_of(arguments@)) ==> (r matches Ok(v) && v@ is Boolean),
            boolean_operation(*self, models_of(arguments@)) ==> (r matches Ok(v) && v@ is Boolean),
    {
        proof { lemma_models_of(arguments@); }
        match self {
            Operator::RootNode => {
                if arguments.len() > 0 {
                    Ok(arguments[0].copy_value())
                } else {
                    Ok(Value::Empty)
                }
            },
            Operator::Add => eval_add(arguments),
            Operator::Sub | Operator::Mul | Operator::Div | Operator::Mod => eval_numeric_binary(self, arguments),
            Operator::Neg => {
                if arguments.len() != 1 {
                    return Err(EvalexprError::wrong_operator_argument_amount(arguments.len(), 1));
                }
                match &arguments[0] {
                    Value::Int(x) => {
                        if *x == i64::MIN {
                            Err(EvalexprError::NegationError { argument: arguments[0].copy_value() })
                        } else {
                            Ok(Value::Int(-*x))
                        }
                    },
                    Value::Float(x) => Ok(Value::Float(x.neg())),
                    v => Err(EvalexprError::expected_number(v.copy_value())),
                }
            },
            Operator::Exp => {
                if arguments.len() != 2 {
                    return Err(EvalexprError::wrong_operator_argument_amount(arguments.len(), 2));
                }
                if !is_number_exec(&arguments[0]) {
                    return Err(EvalexprError::expected_number(arguments[0].copy_value()));
                }
                if !is_number_exec(&arguments[1]) {
                    return Err(EvalexprError::expected_number(arguments[1].copy_value()));
                }
                Ok(Value::Float(to_float(&arguments[0]).pow(to_float(&arguments[1]))))
            },
            Operator::Eq | Operator::Neq => {
                if arguments.len() != 2 {
                    return Err(EvalexprError::wrong_operator_argument_amount(arguments.len(), 2));
                }
                let equal = values_equal(&arguments[0], &arguments[1]);
                Ok(Value::Boolean(if matches!(self, Operator::Eq) { equal } else { !equal }))
            },
            Operator::Gt | Operator::Lt | Operator::Geq | Operator::Leq => eval_compare(self, arguments),
            Operator::And => eval_logical(true, arguments),
            Operator::Or => eval_logical(false, arguments),
            Operator::Not => {
                if arguments.len() != 1 {
                    return Err(EvalexprError::wrong_operator_argument_amount(arguments.len(), 1));
                }
                match &arguments[0] {
                    Value::Boolean(b) => Ok(Value::Boolean(!*b)),
                    v => Err(EvalexprError::expected_boolean(v.copy_value())),
                }
            },
            Operator::Tuple => Ok(Value::Tuple(copy_values(arguments))),
            Operator::Assign | Operator::AddAssign | Operator::SubAssign | Operator::MulAssign | Operator::DivAssign
            | Operator::ModAssign | Operator::ExpAssign | Operator::AndAssign | Operator::OrAssign =>
                Err(EvalexprError::ContextNotMutable),
            Operator::Chain => {
                if arguments.len() == 0 {
                    return Err(EvalexprError::wrong_operator_argument_amount(0, 1));
                }
                Ok(arguments[arguments.len() - 1].copy_value())
            },
            Operator::Const { value } => {
                if arguments.len() != 0 {
                    return Err(EvalexprError::wrong_operator_argument_amount(arguments.len(), 0));
                }
                Ok(value.copy_value())
            },
            Operator::VariableIdentifierWrite { identifier } => Ok(Value::String(identifier.clone())),
            Operator::VariableIdentifierRead { identifier } => {
                match context.get_value(identifier.as_str()) {
                    Some(v) => Ok(v.copy_value()),
                    None => Err(EvalexprError::VariableIdentifierNotFound(identifier.clone())),
                }
            },
            Operator::FunctionIdentifier { identifier } => eval_call(identifier, arguments, context),
        }
    }

    /// The operator that an assignment operator applies before it assigns.
    fn assignment_base_operator(&self) -> (r: Operator<F>)
        requires
            is_assignment(*self),
            !(*self is Assign),
        ensures
            r == assignment_base(*self),
    {
        match self {
            Operator::AddAssign => Operator::Add,
            Operator::SubAssign => Operator::Sub,
            Operator::MulAssign => Operator::Mul,
            Operator::DivAssign => Operator::Div,
            Operator::ModAssign => Operator::Mod,
            Operator::ExpAssign => Operator::Exp,
            Operator::AndAssign => Operator::And,
            _ => Operator::Or,
        }
    }

    /// Evaluates the operator with the given arguments and mutable context.
    pub fn eval_mut<C: ContextWithMutableVariables<F>>(&self, arguments: &Vec<Value<F>>, context: &mut C) -> (r: EvalexprResult<Value<F>, F>)
        ensures
            match spec_eval_op_mut::<F, C>(*self, models_of(arguments@), old(context).spec_variables(),
                old(context).spec_builtins_disabled(), old(context).spec_has_functions()) {
                Some((m, vars)) => result_model(r) == m && final(context).spec_variables() == vars,
                None => true,
            },
            final(context).spec_builtins_disabled() == old(context).spec_builtins_disabled(),
            final(context).spec_has_functions() == old(context).spec_has_functions(),
    {
        proof { lemma_models_of(arguments@); }
        let assignment = matches!(self, Operator::Assign | Operator::AddAssign | Operator::SubAssign | Operator::MulAssign
            | Operator::DivAssign | Operator::ModAssign | Operator::ExpAssign | Operator::AndAssign | Operator::OrAssign);
        if !assignment {
            return self.eval(arguments, &*context);
        }
        if arguments.len() != 2 {
            return Err(EvalexprError::wrong_operator_argument_amount(arguments.len(), 2));
        }
        let target = match &arguments[0] {
            Value::String(s) => s.clone(),
            v => return Err(EvalexprError::expected_string(v.copy_value())),
        };
        if matches!(self, Operator::Assign) {
            return match context.set_value(target, arguments[1].copy_value()) {
                Ok(()) => Ok(Value::Empty),
                Err(e) => Err(e),
            };
        }
        let left = match context.get_value(target.as_str()) {
            Some(v) => v.copy_value(),
            None => return Err(EvalexprError::VariableIdentifierNotFound(target)),
        };
        let operands = vec![left, arguments[1].copy_value()];
        proof {
            lemma_models_of(operands@);
            assert(models_of(operands@) =~= seq![old(context).spec_variables()[target@], models_of(arguments@)[1]]);
        }
        let base = self.assignment_base_operator();
        match base.eval(&operands, &*context) {
            Ok(v) => match context.set_value(target, v) {
                Ok(()) => Ok(Value::Empty),
                Err(e) => Err(e),
            },
            Err(e) => Err(e),
        }
    }
}

} // verus!
