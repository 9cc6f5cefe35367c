//! The static type of an expression.

use vstd::prelude::*;
use crate::kind::Kind;

verus! {

/// What is known of an expression before it runs: the kind of its value and
/// whether evaluating it may fail.
#[derive(Clone, Copy, Debug, PartialEq, Eq)]
pub struct TypeDef {
    pub kind: Kind,
    pub fallible: bool,
}

impl TypeDef {
    /// The type of an expression of the given kind that cannot fail.
    pub open spec fn of(kind: Kind) -> TypeDef {
        TypeDef { kind, fallible: false }
    }

    pub open spec fn spec_with_fallibility(self, fallible: bool) -> TypeDef {
        TypeDef { kind: self.kind, fallible }
    }

    pub fn new(kind: Kind) -> (td: TypeDef)
        ensures
            td == TypeDef::of(kind),
    {
        TypeDef { kind, fallible: false }
    }

    pub fn kind(&self) -> (kind: Kind)
        ensures
            kind == self.kind,
    {
        self.kind
    }

    pub fn is_fallible(&self) -> (fallible: bool)
        ensures
            fallible == self.fallible,
    {
        self.fallible
    }

    #[verifier::when_used_as_spec(spec_with_fallibility)]
    pub fn with_fallibility(self, fallible: bool) -> (td: TypeDef)
        ensures
            td == self.spec_with_fallibility(fallible),
    {
        TypeDef { kind: self.kind, fallible }
    }

    pub fn fallible(self) -> (td: TypeDef)
        ensures
            td == self.spec_with_fallibility(true),
    {
        self.with_fallibility(true)
    }

    pub fn infallible(self) -> (td: TypeDef)
        ensures
            td == self.spec_with_fallibility(false),
    {
        self.with_fallibility(false)
    }
}

} // verus!
