//! A call that has been bound to its function and compiled.

use std::sync::Arc;
use vstd::prelude::*;
use crate::argument::FunctionArgument;
use crate::binding::{debugs, displays, keywords_of};
use crate::builder::arguments_text;
use crate::diagnostic::{label_views, Label};
use crate::expression::{Expression, ExpressionError};
use crate::function::{Function, FunctionClosure};
use crate::placement::{given_keywords, place, placement, PlacementError};
use crate::span::{Node, Span};
use crate::state::{Context, ExternalEnv, LocalEnv, Scope, Value};
use crate::text::{decimal, decimal_text, join, joined, str_eq, texts};
use crate::type_def::TypeDef;

verus! {

/// A compiled call of a function.
#[derive(Debug)]
pub struct FunctionCall<E: Expression> {
    /// Whether the call asks to abort the program where it fails.
    pub abort_on_error: bool,
    /// The expression that carries out the call.
    pub expr: E,
    /// Whether some argument matches its parameter only in part.
    pub maybe_fallible_arguments: bool,
    /// Whether the block of the closure may fail.
    pub closure_fallible: bool,
    pub closure: Option<FunctionClosure<E>>,
    /// The place of the call.
    pub span: Span,
    /// The name of the function.
    pub ident: &'static str,
    /// The place of the function in the registry.
    pub function_id: usize,
    /// The arguments as written.
    pub arguments: Arc<Vec<Node<FunctionArgument<E>>>>,
}

/// The type of a call whose expression has type `inner`: an argument that
/// matches in part or a closure that may fail makes the call fallible, and
/// the request to abort on error makes it infallible whatever else holds.
pub open spec fn call_type(
    inner: TypeDef,
    maybe_fallible_arguments: bool,
    closure_fallible: bool,
    abort_on_error: bool,
) -> TypeDef {
    TypeDef {
        kind: inner.kind,
        fallible: !abort_on_error && (inner.fallible || maybe_fallible_arguments
            || closure_fallible),
    }
}

/// The message of a failed call: the name of the function, the place of the
/// call, and what went wrong.
pub open spec fn call_error_message(ident: Seq<char>, span: Span, message: Seq<char>) -> Seq<char> {
    "function call error for \""@ + ident + "\" at ("@ + decimal_text(span.start as nat) + ":"@
        + decimal_text(span.end as nat) + "): "@ + message
}

/// Turns the failure of a call's expression into the failure of the call: the
/// message names the function and the place of the call, and a primary label
/// with the first message points at the call.
pub fn call_error(ident: &str, span: Span, message: String, labels: Vec<Label>) -> (result: (
    String,
    Vec<Label>,
))
    ensures
        result.0@ == call_error_message(ident@, span, message@),
        label_views(result.1@) == label_views(labels@).push(
            Label::spec_primary(message@, span),
        ),
{
    let mut labels = labels;
    labels.push(Label::primary(message.clone(), span));
    let mut text = String::from_str("function call error for \"");
    text.append(ident);
    text.append("\" at (");
    let start = decimal(span.start as u64);
    text.append(start.as_str());
    text.append(":");
    let end = decimal(span.end as u64);
    text.append(end.as_str());
    text.append("): ");
    text.append(message.as_str());
    (text, labels)
}

impl<E: Expression> FunctionCall<E> {
    /// The type of the call under the given scope.
    pub open spec fn type_of(&self, scope: Scope, external: &ExternalEnv) -> TypeDef {
        call_type(
            self.expr.type_of(scope, external),
            self.maybe_fallible_arguments,
            self.closure_fallible,
            self.abort_on_error,
        )
    }

    /// The call as it reads in the source.
    pub open spec fn display(&self) -> Seq<char> {
        self.ident@ + "("@ + joined(displays((*self.arguments)@), ", "@) + ")"@
    }

    /// The call as it reads when a syntax tree is printed.
    pub open spec fn debug(&self) -> Seq<char> {
        "FunctionCall("@ + self.ident@ + "("@ + joined(debugs((*self.arguments)@), ", "@) + "))"@
    }

    /// Lays the arguments of the call out in the order in which `function`
    /// declares its parameters: one entry for each parameter, with its
    /// keyword and the argument that it gets, if it gets one. Arguments with
    /// a keyword go to the parameter they name, the last one where several
    /// name the same; the others fill the parameters that are left, in the
    /// order in which they are written.
    pub fn resolve_arguments<F: Function<E>>(&self, function: &F) -> (result: Result<
        Vec<(&'static str, Option<FunctionArgument<E>>)>,
        String,
    >)
        ensures
            match placement(
                keywords_of(function.spec_parameters()),
                given_keywords((*self.arguments)@),
            ) {
                Ok(slots) => {
                    &&& result matches Ok(v)
                    &&& v@.len() == function.spec_parameters().len()
                    &&& forall|p: int|
                        0 <= p < v@.len() ==> {
                            &&& (#[trigger] v@[p]).0 == function.spec_parameters()[p].keyword
                            &&& v@[p].1 == match slots[p] {
                                Some(i) => Some((*self.arguments)@[i].node),
                                None => None,
                            }
                        }
                },
                Err(PlacementError::UnknownKeyword(i)) => {
                    &&& result matches Err(message)
                    &&& 0 <= i < (*self.arguments)@.len()
                    &&& (*self.arguments)@[i].node.spec_keyword() matches Some(k)
                    &&& message@ == "parameter "@ + k + " not found."@
                },
                Err(PlacementError::TooMany) => {
                    &&& result matches Err(message)
                    &&& message@ == "Too many parameters"@
                },
            },
    {
        let parameters = function.parameters();
        let arguments: &Vec<Node<FunctionArgument<E>>> = &*self.arguments;
        let slots = match place(parameters, arguments) {
            Ok(slots) => slots,
            Err(message) => {
                return Err(message);
            },
        };
        let ghost want = placement(keywords_of(parameters@), given_keywords(arguments@))->Ok_0;
        let mut result: Vec<(&'static str, Option<FunctionArgument<E>>)> = Vec::new();
        let count = arguments.len();
        let mut p: usize = 0;
        while p < parameters.len()
            invariant
                count == arguments@.len(),
                p <= parameters@.len(),
                slots@.len() == parameters@.len(),
                want.len() == parameters@.len(),
                result@.len() == p,
                forall|q: int|
                    0 <= q < want.len() ==> match #[trigger] want[q] {
                        Some(i) => slots@[q] == Some(i as usize) && 0 <= i < arguments@.len(),
                        None => slots@[q] is None,
                    },
                forall|q: int|
                    0 <= q < p ==> {
                        &&& (#[trigger] result@[q]).0 == parameters@[q].keyword
                        &&& result@[q].1 == match want[q] {
                            Some(i) => Some(arguments@[i].node),
                            None => None,
                        }
                    },
            decreases parameters@.len() - p,
        {
            let argument = match slots[p] {
                Some(i) => Some(arguments[i].node.duplicate()),
                None => None,
            };
            assert(argument == match want[p as int] {
                Some(i) => Some(arguments@[i].node),
                None => None,
            });
            result.push((parameters[p].keyword, argument));
            p += 1;
        }
        Ok(result)
    }

    /// The arguments as they read in the source.
    pub fn arguments_fmt(&self) -> (text: Vec<String>)
        ensures
            texts(text@) == displays((*self.arguments)@),
    {
        arguments_text(&*self.arguments)
    }

    /// The arguments as they read when a syntax tree is printed.
    pub fn arguments_dbg(&self) -> (text: Vec<String>)
        ensures
            texts(text@) == debugs((*self.arguments)@),
    {
        let arguments: &Vec<Node<FunctionArgument<E>>> = &*self.arguments;
        let mut text: Vec<String> = Vec::new();
        let mut i: usize = 0;
        while i < arguments.len()
            invariant
                i <= arguments@.len(),
                text@.len() == i,
                forall|j: int|
                    0 <= j < i ==> (#[trigger] text@[j])@ == arguments@[j].node.expr.node.debug(),
            decreases arguments@.len() - i,
        {
            text.push(arguments[i].node.to_debug_string());
            i += 1;
        }
        text
    }

    /// The type of the call.
    pub fn type_def(&self, local: &LocalEnv, external: &ExternalEnv) -> (type_def: TypeDef)
        requires
            local.wf(),
        ensures
            type_def == self.type_of(local@, external),
    {
        let mut type_def = self.expr.type_def(local, external);

        // An argument that matches its parameter only in part may turn out
        // not to match when the program runs.
        if self.maybe_fallible_arguments {
            type_def = type_def.with_fallibility(true);
        }

        // A closure that may fail makes the call fail with it.
        if self.closure_fallible {
            type_def = type_def.with_fallibility(true);
        }

        // Where the call aborts on error, no error is left to handle.
        if self.abort_on_error {
            type_def = type_def.with_fallibility(false);
        }

        type_def
    }

    /// `reported` is what the outcome `inner` of evaluating the call's
    /// expression becomes as the outcome of the call: a value passes through;
    /// a failure gets the message and the label of a failure of this call
    /// (see `call_error`); a request to stop the program passes through as it
    /// is.
    pub open spec fn reports(
        &self,
        inner: Result<Value, ExpressionError>,
        reported: Result<Value, ExpressionError>,
    ) -> bool {
        match inner {
            Ok(value) => reported == Ok::<Value, ExpressionError>(value),
            Err(ExpressionError::Abort { span, message }) => reported == Err::<
                Value,
                ExpressionError,
            >(ExpressionError::Abort { span, message }),
            Err(ExpressionError::Error { message, labels, notes }) => {
                &&& reported matches Err(
                    ExpressionError::Error { message: text, labels: all, notes: same },
                )
                &&& text@ == call_error_message(self.ident@, self.span, message@)
                &&& label_views(all@) == label_views(labels@).push(
                    Label::spec_primary(message@, self.span),
                )
                &&& same == notes
            },
        }
    }

    /// Turns the outcome of evaluating the call's expression into the outcome
    /// of the call.
    pub fn report(&self, outcome: Result<Value, ExpressionError>) -> (reported: Result<
        Value,
        ExpressionError,
    >)
        ensures
            self.reports(outcome, reported),
    {
        match outcome {
            Ok(value) => Ok(value),
            Err(ExpressionError::Abort { span, message }) => Err(
                ExpressionError::Abort { span, message },
            ),
            Err(ExpressionError::Error { message, labels, notes }) => {
                let (message, labels) = call_error(self.ident, self.span, message, labels);
                Err(ExpressionError::Error { message, labels, notes })
            },
        }
    }

    /// Evaluates the call: evaluates its expression and reports whatever came
    /// of that as the outcome of the call.
    pub fn resolve(&self, ctx: &mut Context) -> (outcome: Result<Value, ExpressionError>)
        requires
            old(ctx).wf(),
        ensures
            final(ctx).wf(),
            exists|inner: Result<Value, ExpressionError>| #[trigger] self.reports(inner, outcome),
    {
        let inner = self.expr.resolve(ctx);
        let reported = self.report(inner);
        reported
    }

    /// Writes the call as it reads in the source.
    pub fn to_string(&self) -> (text: String)
        ensures
            text@ == self.display(),
    {
        let mut text = String::from_str(self.ident);
        text.append("(");
        let arguments = join(&self.arguments_fmt(), ", ");
        text.append(arguments.as_str());
        text.append(")");
        text
    }

    /// Writes the call as it reads when a syntax tree is printed.
    pub fn to_debug_string(&self) -> (text: String)
        ensures
            text@ == self.debug(),
    {
        let mut text = String::from_str("FunctionCall(");
        text.append(self.ident);
        text.append("(");
        let arguments = join(&self.arguments_dbg(), ", ");
        text.append(arguments.as_str());
        text.append("))");
        text
    }
}

/// Two calls are the same where they call a function of the same name.
impl<E: Expression> PartialEq for FunctionCall<E> {
    fn eq(&self, other: &Self) -> (same: bool) {
        str_eq(self.ident, other.ident)
    }
}

impl<E: Expression> vstd::std_specs::cmp::PartialEqSpecImpl for FunctionCall<E> {
    open spec fn obeys_eq_spec() -> bool {
        true
    }

    open spec fn eq_spec(&self, other: &Self) -> bool {
        self.ident@ == other.ident@
    }
}

/// With a request to abort on error the call cannot fail. Without one it may
/// fail exactly where its expression, an argument that matches in part, or
/// its closure may.
pub proof fn lemma_fallibility<E: Expression>(
    call: FunctionCall<E>,
    scope: Scope,
    external: &ExternalEnv,
)
    ensures
        call.abort_on_error ==> !call.type_of(scope, external).fallible,
        !call.abort_on_error ==> call.type_of(scope, external).fallible == (call.expr.type_of(
            scope,
            external,
        ).fallible || call.maybe_fallible_arguments || call.closure_fallible),
        call.type_of(scope, external).kind == call.expr.type_of(scope, external).kind,
{
}

} // verus!
