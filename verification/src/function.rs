//! What an installed function declares and what it is handed when a call to
//! it is compiled.

use vstd::prelude::*;
use crate::diagnostic::Diagnostic;
use crate::expression::Expression;
use crate::ident::Ident;
use crate::kind::Kind;
use crate::span::Span;
use crate::state::{bag_len, ContextBag, ExternalEnv, LocalEnv};
use crate::table::{lookup, Table};

verus! {

/// A formal parameter of a function.
#[derive(Clone, Copy, Debug, PartialEq, Eq)]
pub struct Parameter {
    /// The name by which a caller may set the parameter.
    pub keyword: &'static str,
    /// The kinds of value that the parameter accepts.
    pub kind: Kind,
    /// Whether a call has to set the parameter.
    pub required: bool,
}

impl Parameter {
    pub fn kind(&self) -> (kind: Kind)
        ensures
            kind == self.kind,
    {
        self.kind
    }
}

/// A use of a function, shown in its documentation.
#[derive(Clone, Copy, Debug, PartialEq, Eq)]
pub struct Example {
    pub title: &'static str,
    pub source: &'static str,
    pub result: Result<&'static str, &'static str>,
}

/// How the type of a closure variable follows from the call.
#[derive(Clone, Copy, Debug, PartialEq, Eq)]
pub enum VariableKind {
    /// The variable has exactly this kind.
    Exact(Kind),
    /// The variable has the type of the argument that the closure runs over.
    Target,
    /// The variable has the kind of the values inside that argument.
    TargetInnerValue,
    /// The variable has the kind of the keys inside that argument.
    TargetInnerKey,
}

/// A variable that a closure binds.
#[derive(Clone, Copy, Debug, PartialEq, Eq)]
pub struct Variable {
    pub kind: VariableKind,
}

/// One signature that a function accepts for its closure.
#[derive(Debug, PartialEq, Eq)]
pub struct Input {
    /// The parameter whose argument the closure runs over.
    pub parameter_keyword: &'static str,
    /// The kinds of that argument under which this signature applies.
    pub kind: Kind,
    /// The variables that the closure binds, in order.
    pub variables: Vec<Variable>,
    /// The kind that the closure's block has to return.
    pub output: Kind,
    pub example: Example,
}

/// The closure that a function expects: its signatures in order of
/// preference.
#[derive(Debug, PartialEq, Eq)]
pub struct Definition {
    pub inputs: Vec<Input>,
}

/// A closure as compiled: the variables it binds and its block.
#[derive(Debug, PartialEq, Eq)]
pub struct FunctionClosure<E> {
    pub variables: Vec<Ident>,
    pub block: E,
}

/// The arguments of a call by the keyword of the parameter each is bound to,
/// with the closure of the call where it has one.
#[derive(Debug)]
pub struct ArgumentList<E> {
    arguments: Table<E>,
    closure: Option<FunctionClosure<E>>,
}

impl<E> View for ArgumentList<E> {
    type V = Map<Seq<char>, E>;

    closed spec fn view(&self) -> Map<Seq<char>, E> {
        self.arguments@
    }
}

impl<E> Default for ArgumentList<E> {
    fn default() -> (list: Self)
        ensures
            list.wf(),
            list@ == Map::<Seq<char>, E>::empty(),
            list.spec_closure() is None,
    {
        ArgumentList::new()
    }
}

impl<E> ArgumentList<E> {
    /// The representation is sound. Every list that this module hands out
    /// satisfies it.
    pub closed spec fn wf(&self) -> bool {
        self.arguments.wf()
    }

    /// The closure of the call.
    pub closed spec fn spec_closure(&self) -> Option<FunctionClosure<E>> {
        self.closure
    }

    pub fn new() -> (list: Self)
        ensures
            list.wf(),
            list@ == Map::<Seq<char>, E>::empty(),
            list.spec_closure() is None,
    {
        ArgumentList { arguments: Table::new(), closure: None }
    }

    /// Binds the parameter of that keyword to `expr`. The last binding of a
    /// keyword is the one that stays.
    pub fn insert(&mut self, keyword: &str, expr: E)
        requires
            old(self).wf(),
        ensures
            final(self).wf(),
            final(self)@ == old(self)@.insert(keyword@, expr),
            final(self).spec_closure() == old(self).spec_closure(),
    {
        self.arguments.insert(keyword, expr);
    }

    /// Whether the parameter of that keyword is bound.
    pub fn contains(&self, keyword: &str) -> (bound: bool)
        requires
            self.wf(),
        ensures
            bound == self@.dom().contains(keyword@),
    {
        self.arguments.contains_key(keyword)
    }

    /// The keywords of the parameters that are bound, each once.
    pub fn keywords(&self) -> (keywords: Vec<String>)
        requires
            self.wf(),
        ensures
            keywords@.len() == self@.dom().len(),
            forall|i: int|
                0 <= i < keywords@.len() ==> self@.dom().contains(#[trigger] keywords@[i]@),
            forall|i: int, j: int|
                0 <= i < j < keywords@.len() ==> (#[trigger] keywords@[i])@ != (
                #[trigger] keywords@[j])@,
            forall|k: Seq<char>|
                self@.dom().contains(k) ==> exists|i: int|
                    0 <= i < keywords@.len() && (#[trigger] keywords@[i])@ == k,
    {
        self.arguments.keys()
    }

    /// The expression bound to the parameter of that keyword.
    pub fn get(&self, keyword: &str) -> (expr: Option<&E>)
        requires
            self.wf(),
        ensures
            match expr {
                Some(e) => lookup(self@, keyword@) == Some(*e),
                None => lookup(self@, keyword@) is None,
            },
    {
        self.arguments.get(keyword)
    }

    pub fn set_closure(&mut self, closure: FunctionClosure<E>)
        ensures
            final(self).wf() == old(self).wf(),
            final(self)@ == old(self)@,
            final(self).spec_closure() == Some(closure),
    {
        self.closure = Some(closure);
    }

    pub fn closure(&self) -> (closure: Option<&FunctionClosure<E>>)
        ensures
            match closure {
                Some(c) => self.spec_closure() == Some(*c),
                None => self.spec_closure() is None,
            },
    {
        self.closure.as_ref()
    }
}

/// What a function is handed besides the arguments when a call to it is
/// compiled.
pub struct FunctionCompileContext {
    span: Span,
    external_context: ContextBag,
}

impl FunctionCompileContext {
    /// The place of the call.
    pub closed spec fn spec_span(&self) -> Span {
        self.span
    }

    /// The host's bag, which the function may read and change.
    pub closed spec fn context(&self) -> ContextBag {
        self.external_context
    }

    /// A context for the call at `span`, with an empty bag.
    pub fn new(span: Span) -> (ctx: Self)
        ensures
            ctx.spec_span() == span,
            bag_len(ctx.context()) == 0,
    {
        FunctionCompileContext { span, external_context: ContextBag::new() }
    }

    #[verifier::when_used_as_spec(spec_span)]
    pub fn span(&self) -> (span: Span)
        ensures
            span == self.spec_span(),
    {
        self.span
    }

    /// The same context with `bag` for its bag.
    pub fn with_external_context(self, bag: ContextBag) -> (ctx: Self)
        ensures
            ctx.spec_span() == self.spec_span(),
            ctx.context() == bag,
    {
        FunctionCompileContext { span: self.span, external_context: bag }
    }

    /// Gives up the context for its bag.
    pub fn into_external_context(self) -> (bag: ContextBag)
        ensures
            bag == self.context(),
    {
        self.external_context
    }
}

/// A function that the host installs.
pub trait Function<E: Expression> {
    /// The name under which the function is called.
    spec fn spec_identifier(&self) -> &'static str;

    /// The parameters in the order of their declaration.
    spec fn spec_parameters(&self) -> Seq<Parameter>;

    /// The closure that the function expects, if it expects one.
    spec fn spec_closure(&self) -> Option<Definition>;

    /// Uses of the function, for its documentation.
    spec fn spec_examples(&self) -> Seq<Example>;

    fn identifier(&self) -> (identifier: &'static str)
        ensures
            identifier == self.spec_identifier(),
    ;

    fn parameters(&self) -> (parameters: &[Parameter])
        ensures
            parameters@ == self.spec_parameters(),
    ;

    fn closure(&self) -> (definition: Option<&Definition>)
        ensures
            match definition {
                Some(d) => self.spec_closure() == Some(*d),
                None => self.spec_closure() is None,
            },
    ;

    fn examples(&self) -> (examples: &[Example])
        ensures
            examples@ == self.spec_examples(),
    ;

    /// Compiles a call with the given arguments into the expression that
    /// carries it out. While it runs, the host's bag is in `ctx` and the
    /// environment holds an empty one.
    fn compile(
        &self,
        local: &mut LocalEnv,
        external: &mut ExternalEnv,
        ctx: &mut FunctionCompileContext,
        arguments: ArgumentList<E>,
    ) -> (outcome: Result<E, Diagnostic>)
        requires
            old(local).wf(),
            arguments.wf(),
            bag_len(old(external).context()) == 0,
        ensures
            final(local).wf(),
    ;
}

} // verus!
