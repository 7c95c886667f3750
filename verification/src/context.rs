//! A context defines methods to retrieve variable values and call functions for literals in an expression tree.
//! If mutable, it also allows to assign to variables.
//!
//! This crate implements three basic variants: the `EmptyContext`, that returns `None` for each identifier
//! and cannot be manipulated, the `EmptyContextWithBuiltinFunctions`, which in addition allows the builtin
//! functions, and the `HashMapContext`, that stores its variables by identifier.
//! The `HashMapContext` is type-safe and returns an error if the user tries to assign a value of a different
//! type than before to an identifier.
use vstd::prelude::*;
use crate::numeric::EvalexprFloat;
use crate::value::{Value, VModel, ValueType, model_type, copy_values};
use crate::error::{EvalexprError, EvalexprResult, EModel};
use crate::text::str_equal;

verus! {

/// The error model that `EvalexprError::expected_type` builds: a value of the type `expected`
/// was expected, but `actual` was found.
pub open spec fn expected_type_model<F>(expected: ValueType, actual: VModel<F>) -> EModel<F> {
    match expected {
        ValueType::String => EModel::ExpectedString { actual },
        ValueType::Int => EModel::ExpectedInt { actual },
        ValueType::Float => EModel::ExpectedFloat { actual },
        ValueType::Boolean => EModel::ExpectedBoolean { actual },
        ValueType::Tuple => EModel::ExpectedTuple { actual },
        ValueType::Empty => EModel::ExpectedEmpty { actual },
    }
}

/// An immutable context.
pub trait Context<F: EvalexprFloat> {
    /// The variables of the context, by identifier.
    spec fn spec_variables(&self) -> Map<Seq<char>, VModel<F>>;

    /// Whether builtin functions are disabled.
    spec fn spec_builtins_disabled(&self) -> bool;

    /// Whether the context may define functions of its own. A context that defines none
    /// answers every function call with `FunctionIdentifierNotFound`.
    spec fn spec_has_functions(&self) -> bool;

    /// Returns the value that is linked to the given identifier.
    fn get_value(&self, identifier: &str) -> (r: Option<&Value<F>>)
        ensures
            match r {
                Some(v) => self.spec_variables().contains_key(identifier@) && v@ == self.spec_variables()[identifier@],
                None => !self.spec_variables().contains_key(identifier@),
            };

    /// Calls the function that is linked to the given identifier with the given argument.
    /// If no function with the given identifier is found, this method returns `EvalexprError::FunctionIdentifierNotFound`.
    fn call_function(&self, identifier: &str, argument: &Value<F>) -> (r: EvalexprResult<Value<F>, F>)
        ensures
            !self.spec_has_functions() ==> (r matches Err(e) && e@ == EModel::<F>::FunctionIdentifierNotFound(identifier@));

    /// Checks if builtin functions are disabled.
    fn are_builtin_functions_disabled(&self) -> (r: bool)
        ensures
            r == self.spec_builtins_disabled();

    /// Whether the context refuses to set the builtin functions to `disabled`:
    /// `None` if it accepts, else the error it answers with.
    spec fn spec_builtins_refusal(&self, disabled: bool) -> Option<EModel<F>>;

    /// Disables builtin functions if `disabled` is `true`, and enables them otherwise.
    /// If the context does not support enabling or disabling builtin functions, an error is returned.
    fn set_builtin_functions_disabled(&mut self, disabled: bool) -> (r: EvalexprResult<(), F>)
        ensures
            match old(self).spec_builtins_refusal(disabled) {
                None => r is Ok && final(self).spec_builtins_disabled() == disabled,
                Some(e) => (r matches Err(x) && x@ == e) && final(self).spec_builtins_disabled() == old(self).spec_builtins_disabled(),
            },
            final(self).spec_variables() == old(self).spec_variables(),
            final(self).spec_has_functions() == old(self).spec_has_functions();
}

/// A context that allows to assign to variables.
pub trait ContextWithMutableVariables<F: EvalexprFloat>: Context<F> {
    /// Whether the context refuses to set `identifier` to `value` while it holds `variables`:
    /// `None` if it accepts, else the error it answers with.
    spec fn spec_set_refusal(variables: Map<Seq<char>, VModel<F>>, identifier: Seq<char>, value: VModel<F>) -> Option<EModel<F>>;

    /// Sets the variable with the given identifier to the given value.
    fn set_value(&mut self, identifier: String, value: Value<F>) -> (r: EvalexprResult<(), F>)
        ensures
            match Self::spec_set_refusal(old(self).spec_variables(), identifier@, value@) {
                None => r is Ok && final(self).spec_variables() == old(self).spec_variables().insert(identifier@, value@),
                Some(e) => (r matches Err(x) && x@ == e) && final(self).spec_variables() == old(self).spec_variables(),
            },
            final(self).spec_builtins_disabled() == old(self).spec_builtins_disabled(),
            final(self).spec_has_functions() == old(self).spec_has_functions();

    /// Removes the variable with the given identifier from the context, and returns its value if it had one.
    fn remove_value(&mut self, identifier: &str) -> (r: EvalexprResult<Option<Value<F>>, F>)
        ensures
            r is Ok ==> final(self).spec_variables() == old(self).spec_variables().remove(identifier@),
            r matches Ok(Some(v)) ==> old(self).spec_variables().contains_key(identifier@)
                && v@ == old(self).spec_variables()[identifier@],
            r matches Ok(None) ==> !old(self).spec_variables().contains_key(identifier@),
            r is Err ==> final(self).spec_variables() == old(self).spec_variables(),
            final(self).spec_builtins_disabled() == old(self).spec_builtins_disabled(),
            final(self).spec_has_functions() == old(self).spec_has_functions();
}

/// A context that returns `None` for each identifier.
/// Builtin functions are disabled and cannot be enabled.
#[derive(Debug)]
pub struct EmptyContext;

impl<F: EvalexprFloat> Context<F> for EmptyContext {
    open spec fn spec_variables(&self) -> Map<Seq<char>, VModel<F>> {
        Map::empty()
    }

    open spec fn spec_builtins_disabled(&self) -> bool {
        true
    }

    open spec fn spec_has_functions(&self) -> bool {
        false
    }

    open spec fn spec_builtins_refusal(&self, disabled: bool) -> Option<EModel<F>> {
        if disabled { None } else { Some(EModel::BuiltinFunctionsCannotBeEnabled) }
    }

    fn get_value(&self, identifier: &str) -> (r: Option<&Value<F>>) {
        None
    }

    fn call_function(&self, identifier: &str, argument: &Value<F>) -> (r: EvalexprResult<Value<F>, F>) {
        Err(EvalexprError::FunctionIdentifierNotFound(identifier.to_owned()))
    }

    /// Builtin functions are always disabled for `EmptyContext`.
    fn are_builtin_functions_disabled(&self) -> (r: bool) {
        true
    }

    /// Builtin functions can't be enabled for `EmptyContext`.
    fn set_builtin_functions_disabled(&mut self, disabled: bool) -> (r: EvalexprResult<(), F>) {
        if disabled {
            Ok(())
        } else {
            Err(EvalexprError::BuiltinFunctionsCannotBeEnabled)
        }
    }
}

impl Default for EmptyContext {
    fn default() -> (r: Self) {
        EmptyContext
    }
}

/// A context that returns `None` for each identifier.
/// Builtin functions are enabled and cannot be disabled.
#[derive(Debug)]
pub struct EmptyContextWithBuiltinFunctions;

impl<F: EvalexprFloat> Context<F> for EmptyContextWithBuiltinFunctions {
    open spec fn spec_variables(&self) -> Map<Seq<char>, VModel<F>> {
        Map::empty()
    }

    open spec fn spec_builtins_disabled(&self) -> bool {
        false
    }

    open spec fn spec_has_functions(&self) -> bool {
        false
    }

    open spec fn spec_builtins_refusal(&self, disabled: bool) -> Option<EModel<F>> {
        if disabled { Some(EModel::BuiltinFunctionsCannotBeDisabled) } else { None }
    }

    fn get_value(&self, identifier: &str) -> (r: Option<&Value<F>>) {
        None
    }

    fn call_function(&self, identifier: &str, argument: &Value<F>) -> (r: EvalexprResult<Value<F>, F>) {
        Err(EvalexprError::FunctionIdentifierNotFound(identifier.to_owned()))
    }

    /// Builtin functions are always enabled for `EmptyContextWithBuiltinFunctions`.
    fn are_builtin_functions_disabled(&self) -> (r: bool) {
        false
    }

    /// Builtin functions can't be disabled for `EmptyContextWithBuiltinFunctions`.
    fn set_builtin_functions_disabled(&mut self, disabled: bool) -> (r: EvalexprResult<(), F>) {
        if disabled {
            Err(EvalexprError::BuiltinFunctionsCannotBeDisabled)
        } else {
            Ok(())
        }
    }
}

impl Default for EmptyContextWithBuiltinFunctions {
    fn default() -> (r: Self) {
        EmptyContextWithBuiltinFunctions
    }
}

/// A configuration that returns `None` for each identifier: no variables and no functions of its
/// own, while the builtin functions are available.
#[derive(Debug)]
pub struct EmptyConfiguration;

impl<F: EvalexprFloat> Context<F> for EmptyConfiguration {
    open spec fn spec_variables(&self) -> Map<Seq<char>, VModel<F>> {
        Map::empty()
    }

    open spec fn spec_builtins_disabled(&self) -> bool {
        false
    }

    open spec fn spec_has_functions(&self) -> bool {
        false
    }

    open spec fn spec_builtins_refusal(&self, disabled: bool) -> Option<EModel<F>> {
        if disabled { Some(EModel::BuiltinFunctionsCannotBeDisabled) } else { None }
    }

    fn get_value(&self, identifier: &str) -> (r: Option<&Value<F>>) {
        None
    }

    fn call_function(&self, identifier: &str, argument: &Value<F>) -> (r: EvalexprResult<Value<F>, F>) {
        Err(EvalexprError::FunctionIdentifierNotFound(identifier.to_owned()))
    }

    fn are_builtin_functions_disabled(&self) -> (r: bool) {
        false
    }

    fn set_builtin_functions_disabled(&mut self, disabled: bool) -> (r: EvalexprResult<(), F>) {
        if disabled {
            Err(EvalexprError::BuiltinFunctionsCannotBeDisabled)
        } else {
            Ok(())
        }
    }
}

/// No two entries of `s` share an identifier.
pub open spec fn keys_unique<F>(s: Seq<(String, Value<F>)>) -> bool {
    forall|i: int, j: int| 0 <= i < j < s.len() ==> #[trigger] s[i].0@ != #[trigger] s[j].0@
}

/// The variables that a sequence of entries stands for (a later entry overrides an earlier one).
pub open spec fn entries_model<F>(s: Seq<(String, Value<F>)>) -> Map<Seq<char>, VModel<F>>
    decreases s.len(),
{
    if s.len() == 0 {
        Map::empty()
    } else {
        entries_model(s.drop_last()).insert(s.last().0@, s.last().1@)
    }
}

proof fn lemma_entries_domain<F>(s: Seq<(String, Value<F>)>, k: Seq<char>)
    ensures
        entries_model(s).contains_key(k) <==> exists|i: int| 0 <= i < s.len() && #[trigger] s[i].0@ == k,
    decreases s.len(),
{
    if s.len() > 0 {
        lemma_entries_domain(s.drop_last(), k);
        if entries_model(s.drop_last()).contains_key(k) {
            let i = choose|i: int| 0 <= i < s.len() - 1 && #[trigger] s.drop_last()[i].0@ == k;
            assert(s[i].0@ == k);
        }
        if exists|i: int| 0 <= i < s.len() && #[trigger] s[i].0@ == k {
            let i = choose|i: int| 0 <= i < s.len() && #[trigger] s[i].0@ == k;
            if i < s.len() - 1 {
                assert(s.drop_last()[i].0@ == k);
            }
        }
    }
}

proof fn lemma_entries_lookup<F>(s: Seq<(String, Value<F>)>, i: int)
    requires
        keys_unique(s),
        0 <= i < s.len(),
    ensures
        entries_model(s).contains_key(s[i].0@),
        entries_model(s)[s[i].0@] == s[i].1@,
    decreases s.len(),
{
    if i < s.len() - 1 {
        assert(keys_unique(s.drop_last()));
        lemma_entries_lookup(s.drop_last(), i);
        assert(s.drop_last()[i] == s[i]);
        assert(s[i].0@ != s[s.len() - 1].0@);
    }
}

proof fn lemma_entries_update<F>(s: Seq<(String, Value<F>)>, i: int, v: Value<F>)
    requires
        keys_unique(s),
        0 <= i < s.len(),
    ensures
        keys_unique(s.update(i, (s[i].0, v))),
        entries_model(s.update(i, (s[i].0, v))) == entries_model(s).insert(s[i].0@, v@),
{
    let t = s.update(i, (s[i].0, v));
    assert(keys_unique(t)) by {
        assert forall|a: int, b: int| 0 <= a < b < t.len() implies #[trigger] t[a].0@ != #[trigger] t[b].0@ by {
            assert(s[a].0@ != s[b].0@);
        }
    }
    let m = entries_model(s).insert(s[i].0@, v@);
    assert forall|k: Seq<char>| #[trigger] entries_model(t).contains_key(k) <==> m.contains_key(k) by {
        lemma_entries_domain(t, k);
        lemma_entries_domain(s, k);
        if exists|j: int| 0 <= j < s.len() && #[trigger] s[j].0@ == k {
            let j = choose|j: int| 0 <= j < s.len() && #[trigger] s[j].0@ == k;
            assert(t[j].0@ == k);
        }
        if exists|j: int| 0 <= j < t.len() && #[trigger] t[j].0@ == k {
            let j = choose|j: int| 0 <= j < t.len() && #[trigger] t[j].0@ == k;
            assert(s[j].0@ == k);
        }
    }
    assert forall|k: Seq<char>| #[trigger] entries_model(t).contains_key(k) implies entries_model(t)[k] == m[k] by {
        lemma_entries_domain(t, k);
        let j = choose|j: int| 0 <= j < t.len() && #[trigger] t[j].0@ == k;
        lemma_entries_lookup(t, j);
        if j != i {
            lemma_entries_lookup(s, j);
        }
    }
    assert(entries_model(t) =~= m);
}

proof fn lemma_entries_push<F>(s: Seq<(String, Value<F>)>, k: String, v: Value<F>)
    requires
        keys_unique(s),
        !entries_model(s).contains_key(k@),
    ensures
        keys_unique(s.push((k, v))),
        entries_model(s.push((k, v))) == entries_model(s).insert(k@, v@),
{
    let t = s.push((k, v));
    assert(t.drop_last() =~= s);
    assert forall|a: int, b: int| 0 <= a < b < t.len() implies #[trigger] t[a].0@ != #[trigger] t[b].0@ by {
        if b == s.len() {
            lemma_entries_domain(s, k@);
            assert(t[a] == s[a]);
        } else {
            assert(t[a] == s[a] && t[b] == s[b]);
        }
    }
}

proof fn lemma_entries_remove<F>(s: Seq<(String, Value<F>)>, i: int)
    requires
        keys_unique(s),
        0 <= i < s.len(),
    ensures
        keys_unique(s.remove(i)),
        entries_model(s.remove(i)) == entries_model(s).remove(s[i].0@),
{
    let t = s.remove(i);
    let key = s[i].0@;
    assert(keys_unique(t)) by {
        assert forall|a: int, b: int| 0 <= a < b < t.len() implies #[trigger] t[a].0@ != #[trigger] t[b].0@ by {
            let a2 = if a < i { a } else { a + 1 };
            let b2 = if b < i { b } else { b + 1 };
            assert(t[a] == s[a2] && t[b] == s[b2]);
        }
    }
    let m = entries_model(s).remove(key);
    assert forall|k: Seq<char>| #[trigger] entries_model(t).contains_key(k) <==> m.contains_key(k) by {
        lemma_entries_domain(t, k);
        lemma_entries_domain(s, k);
        if exists|j: int| 0 <= j < t.len() && #[trigger] t[j].0@ == k {
            let j = choose|j: int| 0 <= j < t.len() && #[trigger] t[j].0@ == k;
            let j2 = if j < i { j } else { j + 1 };
            assert(s[j2].0@ == k);
            assert(s[j2].0@ != s[i].0@);
        }
        if k != key && exists|j: int| 0 <= j < s.len() && #[trigger] s[j].0@ == k {
            let j = choose|j: int| 0 <= j < s.len() && #[trigger] s[j].0@ == k;
            assert(j != i);
            let j2 = if j < i { j } else { j - 1 };
            assert(t[j2].0@ == k);
        }
    }
    assert forall|k: Seq<char>| #[trigger] entries_model(t).contains_key(k) implies entries_model(t)[k] == m[k] by {
        lemma_entries_domain(t, k);
        let j = choose|j: int| 0 <= j < t.len() && #[trigger] t[j].0@ == k;
        lemma_entries_lookup(t, j);
        let j2 = if j < i { j } else { j + 1 };
        assert(t[j] == s[j2]);
        lemma_entries_lookup(s, j2);
    }
    assert(entries_model(t) =~= m);
}

/// A context that stores its variables by identifier.
///
/// This context is type-safe, meaning that an identifier that is assigned a value of some type once cannot be
/// assigned a value of another type.
/// It defines no functions of its own; builtin functions are enabled unless they are disabled.
#[derive(Debug)]
pub struct HashMapContext<F> {
    variables: Vec<(String, Value<F>)>,
    without_builtin_functions: bool,
}

impl<F> HashMapContext<F> {
    #[verifier::type_invariant]
    spec fn inv(self) -> bool {
        keys_unique(self.variables@)
    }
}

impl<F: EvalexprFloat> HashMapContext<F> {
    /// The variables, by identifier.
    pub closed spec fn variables_model(&self) -> Map<Seq<char>, VModel<F>> {
        entries_model(self.variables@)
    }

    /// Whether builtin functions are disabled.
    pub closed spec fn builtins_disabled(&self) -> bool {
        self.without_builtin_functions
    }

    /// Constructs a `HashMapContext` with no mappings.
    pub fn new() -> (r: Self)
        ensures
            r.variables_model() == Map::<Seq<char>, VModel<F>>::empty(),
            !r.builtins_disabled(),
    {
        HashMapContext { variables: Vec::new(), without_builtin_functions: false }
    }

    /// Removes all variables from the context.
    pub fn clear_variables(&mut self)
        ensures
            final(self).variables_model() == Map::<Seq<char>, VModel<F>>::empty(),
            final(self).builtins_disabled() == old(self).builtins_disabled(),
    {
        self.variables = Vec::new();
    }

    /// Removes all functions from the context. This context holds no functions of its own,
    /// so nothing changes.
    pub fn clear_functions(&mut self)
        ensures
            final(self).variables_model() == old(self).variables_model(),
            final(self).builtins_disabled() == old(self).builtins_disabled(),
    {
    }

    /// Removes all variables and functions from the context.
    pub fn clear(&mut self)
        ensures
            final(self).variables_model() == Map::<Seq<char>, VModel<F>>::empty(),
            final(self).builtins_disabled() == old(self).builtins_disabled(),
    {
        self.clear_variables();
        self.clear_functions();
    }

    /// The position of the entry for `identifier`, if there is one.
    fn find(&self, identifier: &str) -> (r: Option<usize>)
        ensures
            match r {
                Some(i) => i < self.variables@.len() && self.variables@[i as int].0@ == identifier@,
                None => !self.variables_model().contains_key(identifier@),
            },
    {
        let mut i: usize = 0;
        while i < self.variables.len()
            invariant
                i <= self.variables@.len(),
                forall|j: int| 0 <= j < i ==> #[trigger] self.variables@[j].0@ != identifier@,
            decreases self.variables@.len() - i,
        {
            if str_equal(self.variables[i].0.as_str(), identifier) {
                return Some(i);
            }
            i += 1;
        }
        proof {
            lemma_entries_domain(self.variables@, identifier@);
        }
        None
    }

    /// Returns pairs of variable names and values, one for each variable.
    pub fn iter_variables(&self) -> (r: Vec<(String, Value<F>)>)
        ensures
            r@.len() == self.variables_model().dom().len(),
            forall|i: int| 0 <= i < r@.len() ==> self.variables_model().contains_key(#[trigger] r@[i].0@)
                && self.variables_model()[r@[i].0@] == r@[i].1@,
            keys_unique(r@),
    {
        proof { use_type_invariant(self); }
        let mut result: Vec<(String, Value<F>)> = Vec::new();
        let mut i: usize = 0;
        while i < self.variables.len()
            invariant
                i <= self.variables@.len(),
                keys_unique(self.variables@),
                result@.len() == i,
                forall|j: int| 0 <= j < i ==> (#[trigger] result@[j]).0@ == self.variables@[j].0@
                    && result@[j].1@ == self.variables@[j].1@,
            decreases self.variables@.len() - i,
        {
            let (k, v) = &self.variables[i];
            result.push((k.clone(), v.copy_value()));
            i += 1;
        }
        proof {
            assert forall|a: int, b: int| 0 <= a < b < result@.len() implies #[trigger] result@[a].0@ != #[trigger] result@[b].0@ by {
                assert(result@[a].0@ == self.variables@[a].0@);
                assert(result@[b].0@ == self.variables@[b].0@);
            }
            assert forall|j: int| 0 <= j < result@.len() implies self.variables_model().contains_key(#[trigger] result@[j].0@)
                && self.variables_model()[result@[j].0@] == result@[j].1@ by {
                lemma_entries_lookup(self.variables@, j);
            }
            lemma_entries_dom_len(self.variables@);
        }
        result
    }

    /// Returns the names of the variables.
    pub fn iter_variable_names(&self) -> (r: Vec<String>)
        ensures
            r@.len() == self.variables_model().dom().len(),
            forall|i: int| 0 <= i < r@.len() ==> self.variables_model().contains_key(#[trigger] r@[i]@),
            forall|i: int, j: int| 0 <= i < j < r@.len() ==> #[trigger] r@[i]@ != #[trigger] r@[j]@,
    {
        let entries = self.iter_variables();
        let mut result: Vec<String> = Vec::new();
        let mut i: usize = 0;
        while i < entries.len()
            invariant
                i <= entries@.len(),
                result@.len() == i,
                forall|j: int| 0 <= j < i ==> (#[trigger] result@[j])@ == entries@[j].0@,
            decreases entries@.len() - i,
        {
            result.push(entries[i].0.clone());
            i += 1;
        }
        proof {
            assert forall|a: int, b: int| 0 <= a < b < result@.len() implies #[trigger] result@[a]@ != #[trigger] result@[b]@ by {
                assert(result@[a]@ == entries@[a].0@);
                assert(result@[b]@ == entries@[b].0@);
            }
            assert forall|j: int| 0 <= j < result@.len() implies self.variables_model().contains_key(#[trigger] result@[j]@) by {
                assert(result@[j]@ == entries@[j].0@);
            }
        }
        result
    }
}

proof fn lemma_entries_dom_len<F>(s: Seq<(String, Value<F>)>)
    requires
        keys_unique(s),
    ensures
        entries_model(s).dom().finite(),
        entries_model(s).dom().len() == s.len(),
    decreases s.len(),
{
    if s.len() > 0 {
        let t = s.drop_last();
        assert(keys_unique(t));
        lemma_entries_dom_len(t);
        lemma_entries_domain(t, s.last().0@);
        if entries_model(t).contains_key(s.last().0@) {
            let j = choose|j: int| 0 <= j < t.len() && #[trigger] t[j].0@ == s.last().0@;
            assert(s[j].0@ != s[s.len() - 1].0@);
        }
    }
}

impl<F: EvalexprFloat> Context<F> for HashMapContext<F> {
    open spec fn spec_variables(&self) -> Map<Seq<char>, VModel<F>> {
        self.variables_model()
    }

    open spec fn spec_builtins_disabled(&self) -> bool {
        self.builtins_disabled()
    }

    open spec fn spec_has_functions(&self) -> bool {
        false
    }

    open spec fn spec_builtins_refusal(&self, disabled: bool) -> Option<EModel<F>> {
        None
    }

    fn get_value(&self, identifier: &str) -> (r: Option<&Value<F>>) {
        proof { use_type_invariant(self); }
        match self.find(identifier) {
            Some(i) => {
                proof { lemma_entries_lookup(self.variables@, i as int); }
                Some(&self.variables[i].1)
            },
            None => None,
        }
    }

    fn call_function(&self, identifier: &str, argument: &Value<F>) -> (r: EvalexprResult<Value<F>, F>) {
        Err(EvalexprError::FunctionIdentifierNotFound(identifier.to_owned()))
    }

    fn are_builtin_functions_disabled(&self) -> (r: bool) {
        self.without_builtin_functions
    }

    fn set_builtin_functions_disabled(&mut self, disabled: bool) -> (r: EvalexprResult<(), F>) {
        proof { use_type_invariant(&*self); }
        self.without_builtin_functions = disabled;
        Ok(())
    }
}

impl<F: EvalexprFloat> ContextWithMutableVariables<F> for HashMapContext<F> {
    /// A variable keeps its type: a value of another type than the one it holds is refused.
    open spec fn spec_set_refusal(variables: Map<Seq<char>, VModel<F>>, identifier: Seq<char>, value: VModel<F>) -> Option<EModel<F>> {
        if variables.contains_key(identifier) && model_type(variables[identifier]) != model_type(value) {
            Some(expected_type_model(model_type(variables[identifier]), value))
        } else {
            None
        }
    }

    fn set_value(&mut self, identifier: String, value: Value<F>) -> (r: EvalexprResult<(), F>) {
        proof { use_type_invariant(&*self); }
        match self.find(identifier.as_str()) {
            Some(i) => {
                proof { lemma_entries_lookup(self.variables@, i as int); }
                let existing_type = ValueType::from_value(&self.variables[i].1);
                let new_type = ValueType::from_value(&value);
                if existing_type == new_type {
                    let ghost old_entries = self.variables@;
                    let key = self.variables[i].0.clone();
                    proof {
                        lemma_entries_update(old_entries, i as int, value);
                    }
                    let mut entries: Vec<(String, Value<F>)> = Vec::new();
                    std::mem::swap(&mut entries, &mut self.variables);
                    entries.set(i, (key, value));
                    self.variables = entries;
                    proof {
                        assert(self.variables@ == old_entries.update(i as int, (old_entries[i as int].0, value)));
                    }
                    Ok(())
                } else {
                    Err(EvalexprError::expected_type(&self.variables[i].1, value))
                }
            },
            None => {
                proof {
                    lemma_entries_push(self.variables@, identifier, value);
                }
                let mut entries: Vec<(String, Value<F>)> = Vec::new();
                std::mem::swap(&mut entries, &mut self.variables);
                entries.push((identifier, value));
                self.variables = entries;
                Ok(())
            },
        }
    }

    fn remove_value(&mut self, identifier: &str) -> (r: EvalexprResult<Option<Value<F>>, F>)
        ensures
            r is Ok,
    {
        proof { use_type_invariant(&*self); }
        match self.find(identifier) {
            Some(i) => {
                proof {
                    lemma_entries_lookup(self.variables@, i as int);
                    lemma_entries_remove(self.variables@, i as int);
                }
                let mut entries: Vec<(String, Value<F>)> = Vec::new();
                std::mem::swap(&mut entries, &mut self.variables);
                let (_, v) = entries.remove(i);
                self.variables = entries;
                Ok(Some(v))
            },
            None => {
                proof {
                    assert(old(self).spec_variables().remove(identifier@) =~= old(self).spec_variables());
                }
                Ok(None)
            },
        }
    }
}

impl<F: EvalexprFloat> Default for HashMapContext<F> {
    fn default() -> (r: Self)
        ensures
            r.variables_model() == Map::<Seq<char>, VModel<F>>::empty(),
            !r.builtins_disabled(),
    {
        Self::new()
    }
}

} // verus!
