//! What the resolver asks of an expression, and the two leaf expressions.

use vstd::prelude::*;
use crate::diagnostic::{Label, Note};
use crate::ident::Ident;
use crate::kind::Kind;
use crate::span::Span;
use crate::state::{Context, ExternalEnv, LocalEnv, Scope, Value};
use crate::table::lookup;
use crate::text::{signed_decimal, signed_text};
use crate::type_def::TypeDef;

verus! {

/// How the evaluation of an expression ends when it does not give a value.
#[derive(Debug, PartialEq, Eq)]
#[allow(inconsistent_fields)]
pub enum ExpressionError {
    /// The program asked to stop.
    Abort { span: Span, message: Option<String> },
    /// The expression failed.
    Error { message: String, labels: Vec<Label>, notes: Vec<Note> },
}

/// An expression of the language, as far as the resolver needs to know it.
pub trait Expression: Sized {
    /// The static type of the expression under the given scope.
    spec fn type_of(&self, scope: Scope, external: &ExternalEnv) -> TypeDef;

    /// The value of the expression, where it is fixed before the program runs.
    spec fn constant(&self) -> Option<Value>;

    /// The expression as it reads in the source.
    spec fn display(&self) -> Seq<char>;

    /// The expression as it reads when a syntax tree is printed.
    spec fn debug(&self) -> Seq<char>;

    fn type_def(&self, local: &LocalEnv, external: &ExternalEnv) -> (type_def: TypeDef)
        requires
            local.wf(),
        ensures
            type_def == self.type_of(local@, external),
    ;

    fn as_value(&self) -> (value: Option<Value>)
        ensures
            value == self.constant(),
    ;

    fn to_string(&self) -> (text: String)
        ensures
            text@ == self.display(),
    ;

    fn to_debug_string(&self) -> (text: String)
        ensures
            text@ == self.debug(),
    ;

    fn duplicate(&self) -> (copy: Self)
        ensures
            copy == *self,
    ;

    /// Evaluates the expression.
    fn resolve(&self, ctx: &mut Context) -> (outcome: Result<Value, ExpressionError>)
        requires
            old(ctx).wf(),
        ensures
            final(ctx).wf(),
    ;

    /// Records in the environment what compiling this expression changes.
    /// Unless an expression says otherwise, that is nothing: the update
    /// succeeds and leaves the expression, the scope and the environment as
    /// they were.
    fn update_state(&mut self, local: &mut LocalEnv, external: &mut ExternalEnv) -> (outcome:
        Result<(), String>)
        requires
            old(local).wf(),
        ensures
            final(local).wf(),
        default_ensures
            outcome is Ok,
            *final(self) == *old(self),
            *final(local) == *old(local),
            *final(external) == *old(external),
    {
        Ok(())
    }
}

/// An expression without parts: a literal value or the name of a variable.
#[derive(Debug, PartialEq, Eq)]
pub enum Atom {
    Literal(Value),
    Variable(Ident),
}

/// How a literal value reads in the source.
pub open spec fn value_text(value: Value) -> Seq<char> {
    match value {
        Value::Null => "null"@,
        Value::Boolean(true) => "true"@,
        Value::Boolean(false) => "false"@,
        Value::Integer(n) => signed_text(n as int),
    }
}

/// Writes a literal value as it reads in the source.
pub fn value_to_string(value: Value) -> (text: String)
    ensures
        text@ == value_text(value),
{
    match value {
        Value::Null => String::from_str("null"),
        Value::Boolean(true) => String::from_str("true"),
        Value::Boolean(false) => String::from_str("false"),
        Value::Integer(n) => signed_decimal(n),
    }
}

impl Expression for Atom {
    /// A literal has the kind of its value. A variable has the type that the
    /// scope records for it, and is `null` where the scope does not know it.
    /// Neither can fail.
    open spec fn type_of(&self, scope: Scope, external: &ExternalEnv) -> TypeDef {
        match self {
            Atom::Literal(value) => TypeDef::of(value.spec_kind()),
            Atom::Variable(ident) => match lookup(scope, ident@) {
                Some(details) => details.type_def,
                None => TypeDef::of(Kind::spec_null()),
            },
        }
    }

    open spec fn constant(&self) -> Option<Value> {
        match self {
            Atom::Literal(value) => Some(*value),
            Atom::Variable(_) => None,
        }
    }

    open spec fn display(&self) -> Seq<char> {
        match self {
            Atom::Literal(value) => value_text(*value),
            Atom::Variable(ident) => ident@,
        }
    }

    open spec fn debug(&self) -> Seq<char> {
        match self {
            Atom::Literal(value) => "Literal("@ + value_text(*value) + ")"@,
            Atom::Variable(ident) => "Variable("@ + ident@ + ")"@,
        }
    }

    fn type_def(&self, local: &LocalEnv, external: &ExternalEnv) -> (type_def: TypeDef) {
        match self {
            Atom::Literal(value) => TypeDef::new(value.kind()),
            Atom::Variable(ident) => match local.variable(ident) {
                Some(details) => details.type_def,
                None => TypeDef::new(Kind::null()),
            },
        }
    }

    fn as_value(&self) -> (value: Option<Value>) {
        match self {
            Atom::Literal(value) => Some(*value),
            Atom::Variable(_) => None,
        }
    }

    fn to_string(&self) -> (text: String) {
        match self {
            Atom::Literal(value) => value_to_string(*value),
            Atom::Variable(ident) => String::from_str(ident.as_str()),
        }
    }

    fn to_debug_string(&self) -> (text: String) {
        match self {
            Atom::Literal(value) => {
                let mut text = String::from_str("Literal(");
                let inner = value_to_string(*value);
                text.append(inner.as_str());
                text.append(")");
                text
            },
            Atom::Variable(ident) => {
                let mut text = String::from_str("Variable(");
                text.append(ident.as_str());
                text.append(")");
                text
            },
        }
    }

    fn duplicate(&self) -> (copy: Self) {
        match self {
            Atom::Literal(value) => Atom::Literal(*value),
            Atom::Variable(ident) => Atom::Variable(ident.clone()),
        }
    }

    /// A literal evaluates to its value, a variable to the value that the
    /// context holds for it, and to `null` where it holds none.
    fn resolve(&self, ctx: &mut Context) -> (outcome: Result<Value, ExpressionError>)
        ensures
            *final(ctx) == *old(ctx),
            outcome == Ok::<Value, ExpressionError>(
                match self {
                    Atom::Literal(value) => *value,
                    Atom::Variable(ident) => if old(ctx).values().dom().contains(ident@) {
                        old(ctx).values()[ident@]
                    } else {
                        Value::Null
                    },
                },
            ),
    {
        match self {
            Atom::Literal(value) => Ok(*value),
            Atom::Variable(ident) => match ctx.variable(ident) {
                Some(value) => Ok(value),
                None => Ok(Value::Null),
            },
        }
    }

    /// Compiling an atom changes nothing.
    fn update_state(&mut self, local: &mut LocalEnv, external: &mut ExternalEnv) -> (outcome:
        Result<(), String>)
        ensures
            outcome is Ok,
            *final(self) == *old(self),
            *final(local) == *old(local),
            *final(external) == *old(external),
    {
        Ok(())
    }
}

} // verus!
