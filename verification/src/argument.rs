//! An argument as written at a call site.

use vstd::prelude::*;
use crate::expression::Expression;
use crate::ident::Ident;
use crate::span::{Node, Span};
use crate::state::{ExternalEnv, LocalEnv, Scope};
use crate::type_def::TypeDef;

verus! {

/// An argument of a call: an expression, with a keyword in front where the
/// caller named the parameter.
#[derive(Debug, PartialEq, Eq)]
pub struct FunctionArgument<E> {
    pub ident: Option<Node<Ident>>,
    pub expr: Node<E>,
}

impl<E: Expression> FunctionArgument<E> {
    /// The keyword as text, if the argument has one.
    pub open spec fn spec_keyword(&self) -> Option<Seq<char>> {
        match self.ident {
            Some(node) => Some(node.node@),
            None => None,
        }
    }

    /// The place of the keyword, if the argument has one.
    pub open spec fn spec_keyword_span(&self) -> Option<Span> {
        match self.ident {
            Some(node) => Some(node.span),
            None => None,
        }
    }

    /// The static type of the argument's expression under the given scope.
    pub open spec fn type_of(&self, scope: Scope, external: &ExternalEnv) -> TypeDef {
        self.expr.node.type_of(scope, external)
    }

    pub fn new(ident: Option<Node<Ident>>, expr: Node<E>) -> (argument: Self)
        ensures
            argument == (FunctionArgument { ident, expr }),
    {
        FunctionArgument { ident, expr }
    }

    pub fn keyword(&self) -> (keyword: Option<&str>)
        ensures
            match keyword {
                Some(k) => self.spec_keyword() == Some(k@),
                None => self.spec_keyword() is None,
            },
    {
        match &self.ident {
            Some(node) => Some(node.node.as_str()),
            None => None,
        }
    }

    #[verifier::when_used_as_spec(spec_keyword_span)]
    pub fn keyword_span(&self) -> (span: Option<Span>)
        ensures
            span == self.spec_keyword_span(),
    {
        match &self.ident {
            Some(node) => Some(node.span),
            None => None,
        }
    }

    /// The place of the argument's expression.
    pub fn span(&self) -> (span: Span)
        ensures
            span == self.expr.span,
    {
        self.expr.span
    }

    pub fn type_def(&self, local: &LocalEnv, external: &ExternalEnv) -> (type_def: TypeDef)
        requires
            local.wf(),
        ensures
            type_def == self.type_of(local@, external),
    {
        self.expr.node.type_def(local, external)
    }

    /// A copy of the argument.
    pub fn duplicate(&self) -> (copy: Self)
        ensures
            copy == *self,
    {
        let ident = match &self.ident {
            Some(node) => Some(Node { span: node.span, node: node.node.clone() }),
            None => None,
        };
        FunctionArgument {
            ident,
            expr: Node { span: self.expr.span, node: self.expr.node.duplicate() },
        }
    }

    /// The argument's expression.
    pub fn into_inner(self) -> (expr: E)
        ensures
            expr == self.expr.node,
    {
        self.expr.node
    }

    /// The argument as it reads in the source, without its keyword.
    pub fn to_string(&self) -> (text: String)
        ensures
            text@ == self.expr.node.display(),
    {
        self.expr.node.to_string()
    }

    /// The argument as it reads when a syntax tree is printed.
    pub fn to_debug_string(&self) -> (text: String)
        ensures
            text@ == self.expr.node.debug(),
    {
        self.expr.node.to_debug_string()
    }
}

} // verus!
