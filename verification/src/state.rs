//! What the compiler knows while it walks a program: the variables in scope
//! and the state shared with the host.

use vstd::prelude::*;
use crate::ident::Ident;
use crate::kind::Kind;
use crate::table::{lookup, Table};
use crate::type_def::TypeDef;

verus! {

/// A value known while compiling.
#[derive(Clone, Copy, Debug, PartialEq, Eq)]
pub enum Value {
    Null,
    Boolean(bool),
    Integer(i64),
}

impl Value {
    pub open spec fn spec_kind(&self) -> Kind {
        match self {
            Value::Null => Kind::spec_null(),
            Value::Boolean(_) => Kind::spec_boolean(),
            Value::Integer(_) => Kind::spec_integer(),
        }
    }

    #[verifier::when_used_as_spec(spec_kind)]
    pub fn kind(&self) -> (kind: Kind)
        ensures
            kind == self.spec_kind(),
    {
        match self {
            Value::Null => Kind::null(),
            Value::Boolean(_) => Kind::boolean(),
            Value::Integer(_) => Kind::integer(),
        }
    }
}

/// What is known of a variable: its type, and its value where that is fixed.
#[derive(Clone, Copy, Debug, PartialEq, Eq)]
pub struct Details {
    pub type_def: TypeDef,
    pub value: Option<Value>,
}

/// A lexical scope as a map from variable names to what is known of them.
pub type Scope = Map<Seq<char>, Details>;

/// The variables in scope.
#[derive(Debug)]
pub struct LocalEnv {
    bindings: Table<Details>,
}

impl View for LocalEnv {
    type V = Scope;

    closed spec fn view(&self) -> Scope {
        self.bindings@
    }
}

impl LocalEnv {
    /// The representation is sound. Every environment that this module hands
    /// out satisfies it.
    pub closed spec fn wf(&self) -> bool {
        self.bindings.wf()
    }

    pub fn new() -> (env: LocalEnv)
        ensures
            env.wf(),
            env@ == Scope::empty(),
    {
        LocalEnv { bindings: Table::new() }
    }

    /// What is known of the variable, if it is in scope.
    pub fn variable(&self, ident: &Ident) -> (details: Option<Details>)
        requires
            self.wf(),
        ensures
            details == lookup(self@, ident@),
    {
        match self.bindings.get(ident.as_str()) {
            Some(details) => Some(*details),
            None => None,
        }
    }

    /// Brings the variable into scope, shadowing an earlier one of that name.
    pub fn insert_variable(&mut self, ident: Ident, details: Details)
        requires
            old(self).wf(),
        ensures
            final(self).wf(),
            final(self)@ == old(self)@.insert(ident@, details),
    {
        self.bindings.insert(ident.as_str(), details);
    }

    /// Takes the variable out of scope and returns what was known of it.
    pub fn remove_variable(&mut self, ident: &Ident) -> (prior: Option<Details>)
        requires
            old(self).wf(),
        ensures
            final(self).wf(),
            final(self)@ == old(self)@.remove(ident@),
            prior == lookup(old(self)@, ident@),
    {
        self.bindings.remove(ident.as_str())
    }

    /// A copy of the scope as it stands.
    pub fn snapshot(&self) -> (copy: LocalEnv)
        requires
            self.wf(),
        ensures
            copy.wf(),
            copy@ == self@,
    {
        LocalEnv { bindings: self.bindings.duplicate() }
    }

    /// Puts the scope back to what a snapshot holds.
    pub fn restore(&mut self, snapshot: LocalEnv)
        ensures
            *final(self) == snapshot,
    {
        *self = snapshot;
    }
}

impl Default for LocalEnv {
    fn default() -> (env: LocalEnv)
        ensures
            env.wf(),
            env@ == Scope::empty(),
    {
        LocalEnv::new()
    }
}

/// State that the host shares with the functions it installs: a bag with at
/// most one value of each type. It is an `anymap::AnyMap`, which the verifier
/// does not look into.
#[verifier::external_body]
pub struct ContextBag {
    inner: anymap::AnyMap,
}

/// The number of values in a bag, as `anymap::AnyMap::len` counts them.
pub uninterp spec fn bag_len(bag: ContextBag) -> nat;

/// Calls `anymap::AnyMap::new`. Taken on trust: the bag that it creates holds
/// no value.
#[verifier::external_body]
fn bag_new() -> (bag: ContextBag)
    ensures
        bag_len(bag) == 0,
{
    ContextBag { inner: anymap::AnyMap::new() }
}

/// Calls `anymap::AnyMap::is_empty`. Taken on trust: it tells whether the bag
/// holds no value.
#[verifier::external_body]
fn bag_is_empty(bag: &ContextBag) -> (empty: bool)
    ensures
        empty == (bag_len(*bag) == 0),
{
    bag.inner.is_empty()
}

impl ContextBag {
    /// A bag that holds nothing.
    pub fn new() -> (bag: ContextBag)
        ensures
            bag_len(bag) == 0,
    {
        bag_new()
    }

    pub fn is_empty(&self) -> (empty: bool)
        ensures
            empty == (bag_len(*self) == 0),
    {
        bag_is_empty(self)
    }
}

/// What the compiler knows of the world outside the program.
pub struct ExternalEnv {
    target: Option<Details>,
    context: ContextBag,
}

impl ExternalEnv {
    /// The bag of host state that the environment holds at the moment.
    pub closed spec fn context(&self) -> ContextBag {
        self.context
    }

    /// What is known of the event that the program works on.
    pub closed spec fn spec_target(&self) -> Option<Details> {
        self.target
    }

    pub fn new() -> (env: ExternalEnv)
        ensures
            env.spec_target() is None,
            bag_len(env.context()) == 0,
    {
        ExternalEnv { target: None, context: ContextBag::new() }
    }

    #[verifier::when_used_as_spec(spec_target)]
    pub fn target(&self) -> (target: Option<Details>)
        ensures
            target == self.spec_target(),
    {
        self.target
    }

    pub fn update_target(&mut self, details: Details)
        ensures
            final(self).spec_target() == Some(details),
            final(self).context() == old(self).context(),
    {
        self.target = Some(details);
    }

    /// Puts `bag` in the place of the environment's bag and returns the bag
    /// that was there.
    pub fn swap_external_context(&mut self, bag: ContextBag) -> (prior: ContextBag)
        ensures
            prior == old(self).context(),
            final(self).context() == bag,
            final(self).spec_target() == old(self).spec_target(),
    {
        let mut bag = bag;
        std::mem::swap(&mut self.context, &mut bag);
        bag
    }

    /// Whether the environment's bag holds nothing at the moment.
    pub fn context_is_empty(&self) -> (empty: bool)
        ensures
            empty == (bag_len(self.context()) == 0),
    {
        self.context.is_empty()
    }
}

impl Default for ExternalEnv {
    fn default() -> (env: ExternalEnv)
        ensures
            env.spec_target() is None,
            bag_len(env.context()) == 0,
    {
        ExternalEnv::new()
    }
}

/// The variables of a running program.
#[derive(Debug)]
pub struct Context {
    variables: Table<Value>,
}

impl Context {
    pub closed spec fn wf(&self) -> bool {
        self.variables.wf()
    }

    /// The values of the variables.
    pub closed spec fn values(&self) -> Map<Seq<char>, Value> {
        self.variables@
    }

    pub fn new() -> (ctx: Context)
        ensures
            ctx.wf(),
            ctx.values() == Map::<Seq<char>, Value>::empty(),
    {
        Context { variables: Table::new() }
    }

    pub fn variable(&self, ident: &Ident) -> (value: Option<Value>)
        requires
            self.wf(),
        ensures
            value == lookup(self.values(), ident@),
    {
        match self.variables.get(ident.as_str()) {
            Some(value) => Some(*value),
            None => None,
        }
    }

    pub fn set_variable(&mut self, ident: &Ident, value: Value)
        requires
            old(self).wf(),
        ensures
            final(self).wf(),
            final(self).values() == old(self).values().insert(ident@, value),
    {
        self.variables.insert(ident.as_str(), value);
    }
}

} // verus!
