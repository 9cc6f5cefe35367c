//! A function that is described by data alone.

use vstd::prelude::*;
use crate::diagnostic::Diagnostic;
use crate::expression::{Atom, Expression};
use crate::function::{
    ArgumentList, Definition, Example, Function, FunctionCompileContext, Parameter,
};
use crate::state::{ExternalEnv, LocalEnv};

verus! {

/// A function whose calls all compile in the same way, whatever their
/// arguments are.
#[derive(Debug)]
pub struct Constant {
    pub identifier: &'static str,
    pub parameters: Vec<Parameter>,
    pub closure: Option<Definition>,
    pub examples: Vec<Example>,
    /// What compiling a call gives: an atom, or the refusal to compile.
    pub outcome: Result<Atom, Diagnostic>,
}

impl Function<Atom> for Constant {
    open spec fn spec_identifier(&self) -> &'static str {
        self.identifier
    }

    open spec fn spec_parameters(&self) -> Seq<Parameter> {
        self.parameters@
    }

    open spec fn spec_closure(&self) -> Option<Definition> {
        self.closure
    }

    open spec fn spec_examples(&self) -> Seq<Example> {
        self.examples@
    }

    fn identifier(&self) -> (identifier: &'static str) {
        self.identifier
    }

    fn parameters(&self) -> (parameters: &[Parameter]) {
        self.parameters.as_slice()
    }

    fn closure(&self) -> (definition: Option<&Definition>) {
        self.closure.as_ref()
    }

    fn examples(&self) -> (examples: &[Example]) {
        self.examples.as_slice()
    }

    /// Gives a copy of the outcome and leaves everything else as it is.
    fn compile(
        &self,
        local: &mut LocalEnv,
        external: &mut ExternalEnv,
        ctx: &mut FunctionCompileContext,
        arguments: ArgumentList<Atom>,
    ) -> (outcome: Result<Atom, Diagnostic>)
        ensures
            match self.outcome {
                Ok(atom) => outcome == Ok::<Atom, Diagnostic>(atom),
                Err(refusal) => outcome matches Err(e) && e@ == refusal@,
            },
            *final(local) == *old(local),
            *final(external) == *old(external),
            *final(ctx) == *old(ctx),
    {
        match &self.outcome {
            Ok(atom) => Ok(atom.duplicate()),
            Err(refusal) => Err(refusal.duplicate()),
        }
    }
}

} // verus!
