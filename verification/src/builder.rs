//! Binding a call to a function: from the call as written to a builder that
//! holds everything needed to compile it.

use std::sync::Arc;
use vstd::prelude::*;
use crate::argument::FunctionArgument;
use crate::binding::{
    accepts, call_outcome, closure_arguments_span, closure_scope, displays, first_missing,
    inner_key_kind, inner_value_kind, keywords_of, last_rejected, lemma_first_missing_found,
    lemma_first_missing_none, lemma_matched_found, lemma_matched_none, lemma_position_absent,
    lemma_position_found, matched, missing_at, node_names, position, Binding, CallSite,
};
use crate::call::FunctionCall;
use crate::diagnostic::Diagnostic;
use crate::error::{slices, Error, ErrorView};
use crate::expression::Expression;
use crate::function::{
    ArgumentList, Definition, Function, FunctionClosure, FunctionCompileContext, Input, Parameter,
    VariableKind,
};
use crate::ident::{names_of, Ident};
use crate::kind::Kind;
use crate::span::{Node, Span};
use crate::state::{ContextBag, Details, ExternalEnv, LocalEnv, Scope};
use crate::text::{str_eq, texts};
use crate::type_def::TypeDef;

verus! {

/// The names of the installed functions, in the order of the registry.
pub open spec fn identifiers<E: Expression, F: Function<E>>(funcs: Seq<F>) -> Seq<Seq<char>> {
    Seq::new(funcs.len(), |i: int| funcs[i].spec_identifier()@)
}

/// The call of `function` with the given arguments, as the resolver sees it.
pub open spec fn call_site<E: Expression, F: Function<E>>(
    function: &F,
    call_span: Span,
    ident_span: Span,
    abort_on_error: bool,
    arguments: Seq<Node<FunctionArgument<E>>>,
    local: &LocalEnv,
    external: &ExternalEnv,
) -> CallSite<E> {
    CallSite {
        call_span,
        ident_span,
        abort_on_error,
        identifier: function.spec_identifier()@,
        parameters: function.spec_parameters(),
        arguments,
        scope: local@,
        external: *external,
    }
}

/// The closure of a call that passed the checks.
#[derive(Debug, PartialEq, Eq)]
pub struct ClosureBinding {
    /// The variables that the closure binds, in order.
    pub variables: Vec<Ident>,
    /// Which of the function's signatures applies.
    pub input: usize,
    /// The kind that the closure's block has to return.
    pub output: Kind,
}

/// A call that is bound to a function and ready to be compiled.
pub struct Builder<'a, E: Expression, F: Function<E>> {
    pub abort_on_error: bool,
    pub maybe_fallible_arguments: bool,
    pub call_span: Span,
    pub ident_span: Span,
    /// The place of the function in the registry.
    pub function_id: usize,
    /// The arguments as written.
    pub arguments: Arc<Vec<Node<FunctionArgument<E>>>>,
    pub closure: Option<ClosureBinding>,
    /// The arguments by the keyword of their parameter.
    pub list: ArgumentList<E>,
    pub function: &'a F,
}

/// Finds the first function of the given name.
fn find_function<E: Expression, F: Function<E>>(funcs: &[F], name: &str) -> (found: Option<usize>)
    ensures
        match found {
            Some(i) => position(identifiers(funcs@), name@) == Some(i as int) && i < funcs@.len(),
            None => position(identifiers(funcs@), name@) is None,
        },
{
    let mut i: usize = 0;
    while i < funcs.len()
        invariant
            i <= funcs@.len(),
            forall|j: int| 0 <= j < i ==> identifiers(funcs@)[j] != name@,
        decreases funcs@.len() - i,
    {
        if str_eq(funcs[i].identifier(), name) {
            proof {
                lemma_position_found(identifiers(funcs@), name@, i as int);
            }
            return Some(i);
        }
        i += 1;
    }
    proof {
        lemma_position_absent(identifiers(funcs@), name@);
    }
    None
}

/// The names of all installed functions.
fn collect_identifiers<E: Expression, F: Function<E>>(funcs: &[F]) -> (idents: Vec<&'static str>)
    ensures
        slices(idents@) == identifiers(funcs@),
{
    let mut idents: Vec<&'static str> = Vec::new();
    let mut i: usize = 0;
    while i < funcs.len()
        invariant
            i <= funcs@.len(),
            idents@.len() == i,
            forall|j: int| 0 <= j < i ==> (#[trigger] idents@[j])@ == funcs@[j].spec_identifier()@,
        decreases funcs@.len() - i,
    {
        idents.push(funcs[i].identifier());
        i += 1;
    }
    idents
}

/// Finds the first parameter of the given keyword.
pub fn find_parameter(parameters: &[Parameter], keyword: &str) -> (found: Option<usize>)
    ensures
        match found {
            Some(i) => position(keywords_of(parameters@), keyword@) == Some(i as int) && i
                < parameters@.len(),
            None => position(keywords_of(parameters@), keyword@) is None,
        },
{
    let mut i: usize = 0;
    while i < parameters.len()
        invariant
            i <= parameters@.len(),
            forall|j: int| 0 <= j < i ==> keywords_of(parameters@)[j] != keyword@,
        decreases parameters@.len() - i,
    {
        if str_eq(parameters[i].keyword, keyword) {
            proof {
                lemma_position_found(keywords_of(parameters@), keyword@, i as int);
            }
            return Some(i);
        }
        i += 1;
    }
    proof {
        lemma_position_absent(keywords_of(parameters@), keyword@);
    }
    None
}

/// The keywords of all parameters.
fn collect_keywords(parameters: &[Parameter]) -> (keywords: Vec<&'static str>)
    ensures
        slices(keywords@) == keywords_of(parameters@),
{
    let mut keywords: Vec<&'static str> = Vec::new();
    let mut i: usize = 0;
    while i < parameters.len()
        invariant
            i <= parameters@.len(),
            keywords@.len() == i,
            forall|j: int| 0 <= j < i ==> (#[trigger] keywords@[j])@ == parameters@[j].keyword@,
        decreases parameters@.len() - i,
    {
        keywords.push(parameters[i].keyword);
        i += 1;
    }
    keywords
}

/// The arguments as they read in the source.
pub fn arguments_text<E: Expression>(arguments: &Vec<Node<FunctionArgument<E>>>) -> (text: Vec<
    String,
>)
    ensures
        texts(text@) == displays(arguments@),
{
    let mut text: Vec<String> = Vec::new();
    let mut i: usize = 0;
    while i < arguments.len()
        invariant
            i <= arguments@.len(),
            text@.len() == i,
            forall|j: int|
                0 <= j < i ==> (#[trigger] text@[j])@ == arguments@[j].node.expr.node.display(),
        decreases arguments@.len() - i,
    {
        text.push(arguments[i].node.to_string());
        i += 1;
    }
    text
}

proof fn lemma_maybe_fallible_step<E: Expression>(site: CallSite<E>, n: nat)
    ensures
        site.maybe_fallible(n + 1) == (site.maybe_fallible(n) || site.partial_match(n as int)),
{
}

proof fn lemma_first_error_stays<E: Expression>(site: CallSite<E>, i: nat, n: nat)
    requires
        i <= n,
        site.first_argument_error(i) is Some,
    ensures
        site.first_argument_error(n) == site.first_argument_error(i),
    decreases n,
{
    if i < n {
        lemma_first_error_stays(site, i, (n - 1) as nat);
    }
}

/// Binds the arguments to the parameters from left to right and checks each
/// against its parameter.
fn bind_arguments<E: Expression, F: Function<E>>(
    function: &F,
    call_span: Span,
    ident_span: Span,
    abort_on_error: bool,
    arguments: &Vec<Node<FunctionArgument<E>>>,
    local: &LocalEnv,
    external: &ExternalEnv,
) -> (result: Result<(ArgumentList<E>, bool), Error>)
    requires
        local.wf(),
        arguments@.len() <= function.spec_parameters().len(),
    ensures
        ({
            let site = call_site(
                function,
                call_span,
                ident_span,
                abort_on_error,
                arguments@,
                local,
                external,
            );
            match result {
                Ok((list, maybe)) => {
                    &&& site.first_argument_error(arguments@.len()) is None
                    &&& list.wf()
                    &&& list@ == site.bound(arguments@.len())
                    &&& list.spec_closure() is None
                    &&& maybe == site.maybe_fallible(arguments@.len())
                },
                Err(e) => site.first_argument_error(arguments@.len()) == Some(e@),
            }
        }),
{
    let ghost site = call_site(
        function,
        call_span,
        ident_span,
        abort_on_error,
        arguments@,
        local,
        external,
    );
    let parameters = function.parameters();
    let mut index: usize = 0;
    let mut list: ArgumentList<E> = ArgumentList::new();
    let mut maybe_fallible_arguments = false;
    let mut i: usize = 0;
    while i < arguments.len()
        invariant
            local.wf(),
            i <= arguments@.len() <= parameters@.len(),
            parameters@ == function.spec_parameters(),
            site == call_site(
                function,
                call_span,
                ident_span,
                abort_on_error,
                arguments@,
                local,
                external,
            ),
            index == site.cursor(i as nat),
            list.wf(),
            list@ == site.bound(i as nat),
            list.spec_closure() is None,
            maybe_fallible_arguments == site.maybe_fallible(i as nat),
            site.first_argument_error(i as nat) is None,
        decreases arguments@.len() - i,
    {
        let node = &arguments[i];
        let argument = &node.node;
        proof {
            site.lemma_cursor_bound(i as nat);
            site.lemma_cursor_bound((i + 1) as nat);
            lemma_maybe_fallible_step(site, i as nat);
        }
        let slot: usize = match &argument.ident {
            // An argument without a keyword goes to the parameter at the cursor.
            None => {
                index += 1;
                index - 1
            },
            // An argument with a keyword goes to the parameter it names.
            Some(keyword) => match find_parameter(parameters, keyword.node.as_str()) {
                Some(pos) => {
                    if pos == index {
                        index += 1;
                    }
                    pos
                },
                None => {
                    let e = Error::UnknownKeyword {
                        keyword_span: keyword.span,
                        ident_span,
                        keywords: collect_keywords(parameters),
                    };
                    proof {
                        lemma_first_error_stays(site, (i + 1) as nat, arguments@.len());
                    }
                    return Err(e);
                },
            },
        };
        let parameter = &parameters[slot];

        let argument_type_def = argument.type_def(local, external);
        let expr_kind = argument_type_def.kind();
        let param_kind = parameter.kind();

        // The argument must not be able to fail.
        if argument_type_def.is_fallible() {
            let e = Error::FallibleArgument { expr_span: argument.span() };
            proof {
                lemma_first_error_stays(site, (i + 1) as nat, arguments@.len());
            }
            return Err(e);
        }

        // The argument has to have a kind that the parameter accepts.
        if !param_kind.intersects(&expr_kind) {
            let e = Error::InvalidArgumentKind {
                function_ident: function.identifier(),
                abort_on_error,
                arguments_fmt: arguments_text(arguments),
                parameter: *parameter,
                got: expr_kind,
                argument: argument.to_string(),
                expr_span: argument.span(),
                argument_span: node.span(),
            };
            proof {
                lemma_first_error_stays(site, (i + 1) as nat, arguments@.len());
            }
            return Err(e);
        } else if !param_kind.is_superset(&expr_kind) {
            maybe_fallible_arguments = true;
        }

        list.insert(parameter.keyword, argument.expr.node.duplicate());
        i += 1;
    }
    Ok((list, maybe_fallible_arguments))
}

/// Checks that every required parameter is set.
fn check_required<E: Expression>(
    parameters: &[Parameter],
    list: &ArgumentList<E>,
    call_span: Span,
) -> (result: Result<(), Error>)
    requires
        list.wf(),
    ensures
        match result {
            Ok(()) => first_missing(parameters@, list@) is None,
            Err(e) => first_missing(parameters@, list@) matches Some(p) && e@
                == (ErrorView::MissingArgument {
                call_span,
                keyword: parameters@[p].keyword@,
                position: p as usize,
            }),
        },
{
    let mut p: usize = 0;
    while p < parameters.len()
        invariant
            list.wf(),
            p <= parameters@.len(),
            forall|q: int| 0 <= q < p ==> !missing_at(parameters@, list@, q),
        decreases parameters@.len() - p,
    {
        if parameters[p].required && !list.contains(parameters[p].keyword) {
            proof {
                lemma_first_missing_found(parameters@, list@, p as int);
            }
            return Err(
                Error::MissingArgument { call_span, keyword: parameters[p].keyword, position: p },
            );
        }
        p += 1;
    }
    proof {
        lemma_first_missing_none(parameters@, list@);
    }
    Ok(())
}

/// What came of looking for the signature of the closure that applies.
enum Selection {
    /// The signature at this place applies.
    Matched(usize),
    /// None applies; the kind is that of the argument for which the last
    /// signature was rejected, where one was.
    Unmatched(Option<Kind>),
}

/// Looks for the first signature that applies to the call.
fn select_input<E: Expression>(
    definition: &Definition,
    list: &ArgumentList<E>,
    local: &LocalEnv,
    external: &ExternalEnv,
) -> (selection: Selection)
    requires
        local.wf(),
        list.wf(),
    ensures
        match selection {
            Selection::Matched(k) => matched(definition.inputs@, list@, local@, external) == Some(
                k as int,
            ) && k < definition.inputs@.len(),
            Selection::Unmatched(kind) => matched(definition.inputs@, list@, local@, external)
                is None && kind == last_rejected(
                definition.inputs@,
                list@,
                local@,
                external,
                definition.inputs@.len(),
            ),
        },
{
    let mut err_found_kind: Option<Kind> = None;
    let mut k: usize = 0;
    while k < definition.inputs.len()
        invariant
            local.wf(),
            list.wf(),
            k <= definition.inputs@.len(),
            forall|j: int|
                0 <= j < k ==> !accepts(#[trigger] definition.inputs@[j], list@, local@, external),
            err_found_kind == last_rejected(definition.inputs@, list@, local@, external, k as nat),
        decreases definition.inputs@.len() - k,
    {
        let input = &definition.inputs[k];
        match list.get(input.parameter_keyword) {
            // Without an argument to run over, the signature cannot apply.
            None => {},
            Some(expr) => {
                let type_def = expr.type_def(local, external);
                if input.kind.is_superset(&type_def.kind()) {
                    proof {
                        lemma_matched_found(definition.inputs@, list@, local@, external, k as int);
                    }
                    return Selection::Matched(k);
                }
                // Remembered for the error in case no signature applies.
                err_found_kind = Some(type_def.kind());
            },
        }
        k += 1;
    }
    proof {
        lemma_matched_none(definition.inputs@, list@, local@, external);
    }
    Selection::Unmatched(err_found_kind)
}

/// The kind of what a collection of kind `target` holds.
fn compute_inner_value_kind(target: &Kind) -> (kind: Kind)
    ensures
        kind == inner_value_kind(*target),
{
    if let Some(members) = target.object_members() {
        members
    } else if let Some(members) = target.array_members() {
        members
    } else {
        Kind::any()
    }
}

/// The kind of the keys of a collection of kind `target`.
fn compute_inner_key_kind(target: &Kind) -> (kind: Kind)
    ensures
        kind == inner_key_kind(*target),
{
    let mut kind = Kind::empty();
    if !target.is_collection() {
        kind = Kind::any();
    } else {
        if target.contains_object() {
            kind.add_bytes();
        }
        if target.contains_array() {
            kind.add_integer();
        }
    }
    kind
}

/// Brings the variables of the closure into scope, one after the other.
fn bind_variables<E: Expression>(
    input: &Input,
    variables: &Vec<Node<Ident>>,
    target: &E,
    local: &mut LocalEnv,
    external: &ExternalEnv,
) -> (names: Vec<Ident>)
    requires
        old(local).wf(),
        input.variables@.len() == variables@.len(),
    ensures
        final(local).wf(),
        final(local)@ == closure_scope(
            input.variables@,
            node_names(variables@),
            *target,
            old(local)@,
            external,
            variables@.len(),
        ),
        names_of(names@) == node_names(variables@),
{
    let mut names: Vec<Ident> = Vec::new();
    let mut index: usize = 0;
    while index < variables.len()
        invariant
            local.wf(),
            index <= variables@.len(),
            input.variables@.len() == variables@.len(),
            local@ == closure_scope(
                input.variables@,
                node_names(variables@),
                *target,
                old(local)@,
                external,
                index as nat,
            ),
            names@.len() == index,
            forall|j: int| 0 <= j < index ==> (#[trigger] names@[j])@ == variables@[j].node@,
        decreases variables@.len() - index,
    {
        let call_ident = &variables[index];
        let type_def = target.type_def(local, external);
        let details = match input.variables[index].kind {
            VariableKind::Exact(kind) => Details { type_def: TypeDef::new(kind), value: None },
            VariableKind::Target => Details { type_def, value: target.as_value() },
            VariableKind::TargetInnerValue => Details {
                type_def: TypeDef::new(compute_inner_value_kind(&type_def.kind())),
                value: None,
            },
            VariableKind::TargetInnerKey => Details {
                type_def: TypeDef::new(compute_inner_key_kind(&type_def.kind())),
                value: None,
            },
        };
        local.insert_variable(call_ident.node.clone(), details);
        names.push(call_ident.node.clone());
        index += 1;
    }
    names
}

/// The place of the closure's variables, or of the call where it has none.
fn variables_span(call_span: Span, variables: &Vec<Node<Ident>>) -> (span: Span)
    ensures
        span == closure_arguments_span(call_span, variables@),
{
    if variables.len() == 0 {
        call_span
    } else {
        Span::new(variables[0].span.start, variables[variables.len() - 1].span.end)
    }
}

impl<'a, E: Expression, F: Function<E>> Builder<'a, E, F> {
    /// The builder holds the binding `binding` of a call with the given
    /// arguments to the function at `id`.
    pub open spec fn holds(
        &self,
        binding: Binding<E>,
        site: CallSite<E>,
        id: int,
        function: &F,
        arguments: Seq<Node<FunctionArgument<E>>>,
        closure_variables: Option<Node<Vec<Node<Ident>>>>,
    ) -> bool {
        &&& self.abort_on_error == site.abort_on_error
        &&& self.maybe_fallible_arguments == binding.maybe_fallible_arguments
        &&& self.call_span == site.call_span
        &&& self.ident_span == site.ident_span
        &&& self.function_id == id
        &&& self.function == function
        &&& (*self.arguments)@ == arguments
        &&& self.list.wf()
        &&& self.list@ == binding.bound
        &&& self.list.spec_closure() is None
        &&& match self.closure {
            None => binding.input is None,
            Some(closure) => {
                &&& binding.input == Some(closure.input as int)
                &&& function.spec_closure() matches Some(definition)
                &&& closure.input < definition.inputs@.len()
                &&& closure.output == definition.inputs@[closure.input as int].output
                &&& closure_variables matches Some(variables)
                &&& names_of(closure.variables@) == node_names(variables.node@)
            },
        }
    }

    /// Binds the call `ident(arguments) closure_variables` to the function of
    /// that name in `funcs`.
    ///
    /// The outcome is the one that `call_outcome` states for the first
    /// function named `ident`: an error, with the scope left as it was, or a
    /// builder, with the variables of the closure brought into scope. Where no
    /// function has that name the call is undefined.
    pub fn new(
        call_span: Span,
        ident: Node<Ident>,
        abort_on_error: bool,
        arguments: Vec<Node<FunctionArgument<E>>>,
        funcs: &'a [F],
        local: &mut LocalEnv,
        external: &mut ExternalEnv,
        closure_variables: Option<Node<Vec<Node<Ident>>>>,
    ) -> (result: Result<Self, Error>)
        requires
            old(local).wf(),
        ensures
            final(local).wf(),
            *final(external) == *old(external),
            result matches Ok(builder) ==> builder.function_id < funcs@.len() && builder.list.wf(),
            match position(identifiers(funcs@), ident.node@) {
                None => {
                    &&& result matches Err(e)
                    &&& e@ == (ErrorView::Undefined {
                        ident_span: ident.span,
                        ident: ident.node@,
                        idents: identifiers(funcs@),
                    })
                    &&& final(local)@ == old(local)@
                },
                Some(id) => {
                    let site = call_site(
                        &funcs@[id],
                        call_span,
                        ident.span,
                        abort_on_error,
                        arguments@,
                        old(local),
                        old(external),
                    );
                    match call_outcome(site, funcs@[id].spec_closure(), closure_variables) {
                        Err(e) => {
                            &&& result matches Err(err)
                            &&& err@ == e
                            &&& final(local)@ == old(local)@
                        },
                        Ok(binding) => {
                            &&& result matches Ok(builder)
                            &&& builder.holds(
                                binding,
                                site,
                                id,
                                &funcs@[id],
                                arguments@,
                                closure_variables,
                            )
                            &&& final(local)@ == binding.scope
                        },
                    }
                },
            },
    {
        let (ident_span, ident) = ident.take();

        // Check if function exists.
        let function_id = match find_function(funcs, ident.as_str()) {
            Some(id) => id,
            None => {
                let idents = collect_identifiers(funcs);
                return Err(Error::Undefined { ident_span, ident, idents });
            },
        };
        let function = &funcs[function_id];
        let parameters = function.parameters();

        // Check function arity.
        if arguments.len() > parameters.len() {
            let start = arguments[0].span().start();
            let end = arguments[arguments.len() - 1].span().end();
            return Err(
                Error::WrongNumberOfArgs {
                    arguments_span: Span::new(start, end),
                    max: parameters.len(),
                },
            );
        }

        let (list, maybe_fallible_arguments) = match bind_arguments(
            function,
            call_span,
            ident_span,
            abort_on_error,
            &arguments,
            &*local,
            &*external,
        ) {
            Ok(bound) => bound,
            Err(e) => {
                return Err(e);
            },
        };

        // Check missing required arguments.
        match check_required(parameters, &list, call_span) {
            Ok(()) => {},
            Err(e) => {
                return Err(e);
            },
        }

        // Check function closure validity.
        let closure = match (function.closure(), &closure_variables) {
            // A closure where the function takes none.
            (None, Some(variables)) => {
                return Err(
                    Error::UnexpectedClosure { call_span, closure_span: variables.span() },
                );
            },
            // No closure where the function takes one.
            (Some(definition), None) => {
                let example = if definition.inputs.len() > 0 {
                    Some(definition.inputs[0].example)
                } else {
                    None
                };
                return Err(Error::MissingClosure { call_span, example });
            },
            (Some(definition), Some(variables)) => {
                match select_input(definition, &list, &*local, &*external) {
                    // None of the signatures takes the argument.
                    Selection::Unmatched(found) => {
                        let found_kind = match found {
                            Some(kind) => kind,
                            None => Kind::any(),
                        };
                        return Err(Error::ClosureParameterTypeMismatch { call_span, found_kind });
                    },
                    Selection::Matched(k) => {
                        let input = &definition.inputs[k];
                        if input.variables.len() != variables.node.len() {
                            return Err(
                                Error::ClosureArityMismatch {
                                    ident_span,
                                    closure_arguments_span: variables_span(
                                        call_span,
                                        &variables.node,
                                    ),
                                    expected: input.variables.len(),
                                    supplied: variables.node.len(),
                                },
                            );
                        }
                        // The signature applies, so its parameter is set.
                        let target = list.get(input.parameter_keyword).unwrap();
                        let names = bind_variables(input, &variables.node, target, local, &*external);
                        Some(ClosureBinding { variables: names, input: k, output: input.output })
                    },
                }
            },
            (None, None) => None,
        };

        Ok(
            Builder {
                abort_on_error,
                maybe_fallible_arguments,
                call_span,
                ident_span,
                function_id,
                arguments: Arc::new(arguments),
                closure,
                list,
                function,
            },
        )
    }
}

/// The scope once the first `n` of the named variables are taken out of it
/// again: a variable that `snapshot` knows gets back what the snapshot holds
/// for it, any other leaves the scope.
pub open spec fn unbound(scope: Scope, snapshot: Scope, names: Seq<Seq<char>>, n: nat) -> Scope
    decreases n,
{
    if n == 0 {
        scope
    } else {
        let before = unbound(scope, snapshot, names, (n - 1) as nat);
        let name = names[n - 1];
        if snapshot.dom().contains(name) {
            before.insert(name, snapshot[name])
        } else {
            before.remove(name)
        }
    }
}

/// Takes the variables of a closure out of scope again. A variable that the
/// snapshot knows gets back what the snapshot holds for it.
pub fn unbind_variables(local: &mut LocalEnv, snapshot: &LocalEnv, variables: &Vec<Ident>)
    requires
        old(local).wf(),
        snapshot.wf(),
    ensures
        final(local).wf(),
        final(local)@ == unbound(
            old(local)@,
            snapshot@,
            names_of(variables@),
            variables@.len(),
        ),
{
    let mut i: usize = 0;
    while i < variables.len()
        invariant
            local.wf(),
            snapshot.wf(),
            i <= variables@.len(),
            local@ == unbound(old(local)@, snapshot@, names_of(variables@), i as nat),
        decreases variables@.len() - i,
    {
        let ident = &variables[i];
        match snapshot.variable(ident) {
            Some(details) => {
                local.insert_variable(ident.clone(), details);
            },
            None => {
                let _ = local.remove_variable(ident);
            },
        }
        i += 1;
    }
}

/// What is wrong with the kind that a closure's block returns, if anything.
pub open spec fn return_type_error(block_span: Span, found: Kind, expected: Kind) -> Option<
    ErrorView,
> {
    if expected.spec_is_superset(&found) {
        None
    } else {
        Some(
            ErrorView::ReturnTypeMismatch { block_span, found_kind: found, expected_kind: expected },
        )
    }
}

/// Checks that a closure's block returns a kind that the function accepts.
pub fn check_return_type(block_span: Span, found: Kind, expected: Kind) -> (result: Result<
    (),
    Error,
>)
    ensures
        match result {
            Ok(()) => return_type_error(block_span, found, expected) is None,
            Err(e) => return_type_error(block_span, found, expected) == Some(e@),
        },
{
    if !expected.is_superset(&found) {
        return Err(
            Error::ReturnTypeMismatch { block_span, found_kind: found, expected_kind: expected },
        );
    }
    Ok(())
}

/// What is wrong with a request to abort on error, if anything: it is refused
/// where the call cannot fail, that is where neither an argument matches in
/// part nor the compiled expression may fail.
pub open spec fn abort_error(
    abort_on_error: bool,
    maybe_fallible_arguments: bool,
    fallible: bool,
    ident_span: Span,
) -> Option<ErrorView> {
    if abort_on_error && !maybe_fallible_arguments && !fallible {
        Some(
            ErrorView::AbortInfallible {
                ident_span,
                abort_span: Span { start: ident_span.end, end: (ident_span.end + 1) as usize },
            },
        )
    } else {
        None
    }
}

/// Checks a request to abort on error against what is known of the call.
pub fn check_abort(
    abort_on_error: bool,
    maybe_fallible_arguments: bool,
    fallible: bool,
    ident_span: Span,
) -> (result: Result<(), Error>)
    requires
        ident_span.end < usize::MAX,
    ensures
        match result {
            Ok(()) => abort_error(abort_on_error, maybe_fallible_arguments, fallible, ident_span)
                is None,
            Err(e) => abort_error(abort_on_error, maybe_fallible_arguments, fallible, ident_span)
                == Some(e@),
        },
{
    if abort_on_error && !maybe_fallible_arguments && !fallible {
        return Err(
            Error::AbortInfallible {
                ident_span,
                abort_span: Span::new(ident_span.end(), ident_span.end() + 1),
            },
        );
    }
    Ok(())
}

/// What becomes of a call once its function has answered: a refusal is
/// handed on as an error of compilation, an expression is accepted unless the
/// call asks to abort on an error that cannot happen.
pub open spec fn compiled_outcome<E: Expression>(
    compiled: Result<E, Diagnostic>,
    abort_on_error: bool,
    maybe_fallible_arguments: bool,
    call_span: Span,
    ident_span: Span,
    scope: Scope,
    external: &ExternalEnv,
) -> Result<E, ErrorView> {
    match compiled {
        Err(refusal) => Err(ErrorView::Compilation { call_span, error: refusal@ }),
        Ok(expr) => match abort_error(
            abort_on_error,
            maybe_fallible_arguments,
            expr.type_of(scope, external).fallible,
            ident_span,
        ) {
            Some(e) => Err(e),
            None => Ok(expr),
        },
    }
}

/// Decides what becomes of a call once its function has answered.
pub fn accept_compiled<E: Expression>(
    compiled: Result<E, Diagnostic>,
    abort_on_error: bool,
    maybe_fallible_arguments: bool,
    call_span: Span,
    ident_span: Span,
    local: &LocalEnv,
    external: &ExternalEnv,
) -> (result: Result<E, Error>)
    requires
        local.wf(),
        ident_span.end < usize::MAX,
    ensures
        match compiled_outcome(
            compiled,
            abort_on_error,
            maybe_fallible_arguments,
            call_span,
            ident_span,
            local@,
            external,
        ) {
            Ok(expr) => result matches Ok(accepted) && accepted == expr,
            Err(e) => result matches Err(err) && err@ == e,
        },
{
    let expr = match compiled {
        Ok(expr) => expr,
        Err(error) => {
            return Err(Error::Compilation { call_span, error });
        },
    };

    // Asking for an infallible function to abort on error makes no sense.
    let expr_type = expr.type_def(local, external);
    match check_abort(abort_on_error, maybe_fallible_arguments, expr_type.is_fallible(), ident_span) {
        Ok(()) => Ok(expr),
        Err(e) => Err(e),
    }
}

/// Decides what becomes of a call once its expression has tried to record
/// its state: a failure is handed on with the place of the call.
pub fn accept_state_update(outcome: Result<(), String>, call_span: Span) -> (result: Result<
    (),
    Error,
>)
    ensures
        match outcome {
            Ok(()) => result is Ok,
            Err(error) => result matches Err(e) && e@ == (ErrorView::UpdateState {
                call_span,
                error: error@,
            }),
        },
{
    match outcome {
        Ok(()) => Ok(()),
        Err(error) => Err(Error::UpdateState { call_span, error }),
    }
}

fn clone_idents(idents: &Vec<Ident>) -> (copy: Vec<Ident>)
    ensures
        copy@ =~= idents@,
{
    let mut copy: Vec<Ident> = Vec::new();
    let mut i: usize = 0;
    while i < idents.len()
        invariant
            i <= idents@.len(),
            copy@.len() == i,
            forall|j: int| 0 <= j < i ==> copy@[j] == idents@[j],
        decreases idents@.len() - i,
    {
        copy.push(idents[i].clone());
        i += 1;
    }
    copy
}

impl<'a, E: Expression, F: Function<E>> Builder<'a, E, F> {
    /// The scope once the variables of the closure, where the call has one,
    /// are taken out of `scope` again.
    pub open spec fn scope_after_closure(&self, scope: Scope, snapshot: Scope) -> Scope {
        match self.closure {
            Some(closure) => unbound(
                scope,
                snapshot,
                names_of(closure.variables@),
                closure.variables@.len(),
            ),
            None => scope,
        }
    }

    /// The type of the closure's block once its variables are out of scope.
    pub open spec fn block_type(
        &self,
        block: Option<Node<E>>,
        scope: Scope,
        snapshot: Scope,
        external: &ExternalEnv,
    ) -> TypeDef {
        block.unwrap().node.type_of(self.scope_after_closure(scope, snapshot), external)
    }

    /// What is wrong with the closure's block, if anything.
    pub open spec fn block_error(
        &self,
        block: Option<Node<E>>,
        scope: Scope,
        snapshot: Scope,
        external: &ExternalEnv,
    ) -> Option<ErrorView> {
        match self.closure {
            Some(closure) => return_type_error(
                block.unwrap().span,
                self.block_type(block, scope, snapshot, external).kind,
                closure.output,
            ),
            None => None,
        }
    }

    /// The call `call` is what this builder compiles to, whatever expression
    /// the function gave for it.
    pub open spec fn built(
        &self,
        call: FunctionCall<E>,
        block: Option<Node<E>>,
        scope: Scope,
        snapshot: Scope,
        external: &ExternalEnv,
    ) -> bool {
        &&& call.abort_on_error == self.abort_on_error
        &&& call.maybe_fallible_arguments == self.maybe_fallible_arguments
        &&& call.span == self.call_span
        &&& call.ident == self.function.spec_identifier()
        &&& call.function_id == self.function_id
        &&& call.arguments == self.arguments
        &&& match self.closure {
            Some(closure) => {
                &&& call.closure_fallible == self.block_type(
                    block,
                    scope,
                    snapshot,
                    external,
                ).fallible
                &&& call.closure matches Some(compiled)
                &&& compiled.variables@ == closure.variables@
                &&& compiled.block == block.unwrap().node
            },
            None => !call.closure_fallible && call.closure is None,
        }
    }

    /// `result` is what becomes of the call where the function answers
    /// `compiled` and leaves the scope `scope` and the environment
    /// `environment` behind, and the compiled expression answers `update`
    /// when it is asked to record its state: what `compiled_outcome` refuses
    /// is refused, a failure to record the state is handed on with the place
    /// of the call, and anything else gives the compiled call.
    pub open spec fn concludes(
        &self,
        block: Option<Node<E>>,
        scope_before: Scope,
        snapshot: Scope,
        external_before: &ExternalEnv,
        compiled: Result<E, Diagnostic>,
        scope: Scope,
        environment: ExternalEnv,
        update: Result<(), String>,
        result: Result<FunctionCall<E>, Error>,
    ) -> bool {
        match compiled_outcome(
            compiled,
            self.abort_on_error,
            self.maybe_fallible_arguments,
            self.call_span,
            self.ident_span,
            scope,
            &environment,
        ) {
            Err(e) => result matches Err(err) && err@ == e,
            Ok(_) => match update {
                Err(message) => result matches Err(err) && err@ == (ErrorView::UpdateState {
                    call_span: self.call_span,
                    error: message@,
                }),
                Ok(()) => result matches Ok(call) && self.built(
                    call,
                    block,
                    scope_before,
                    snapshot,
                    external_before,
                ),
            },
        }
    }

    /// Compiles the call. `closure_block` is the block of the closure,
    /// compiled in the scope that `new` left behind; `local_snapshot` is the
    /// scope as it was before `new` ran.
    ///
    /// First the variables of the closure leave the scope again and the
    /// block's type is checked; a block of the wrong kind ends the
    /// compilation there. Then the function compiles the call, with the
    /// host's bag moved into its context for the time being. What it returns
    /// decides the rest, as `accept_compiled` and `accept_state_update`
    /// state: a refusal is handed on, a request to abort on an error that
    /// cannot happen is refused, and so is an expression that cannot record
    /// its state.
    pub fn compile(
        self,
        local: &mut LocalEnv,
        external: &mut ExternalEnv,
        closure_block: Option<Node<E>>,
        local_snapshot: LocalEnv,
    ) -> (result: Result<FunctionCall<E>, Error>)
        requires
            old(local).wf(),
            local_snapshot.wf(),
            self.list.wf(),
            self.closure is Some ==> closure_block is Some,
            self.ident_span.end < usize::MAX,
        ensures
            final(local).wf(),
            match self.block_error(closure_block, old(local)@, local_snapshot@, old(external)) {
                Some(e) => {
                    &&& result matches Err(err)
                    &&& err@ == e
                    &&& final(local)@ == self.scope_after_closure(old(local)@, local_snapshot@)
                    &&& *final(external) == *old(external)
                },
                None => exists|
                    compiled: Result<E, Diagnostic>,
                    scope: Scope,
                    environment: ExternalEnv,
                    update: Result<(), String>,
                |
                    #[trigger] self.concludes(
                        closure_block,
                        old(local)@,
                        local_snapshot@,
                        old(external),
                        compiled,
                        scope,
                        environment,
                        update,
                        result,
                    ),
            },
    {
        let ghost this = self;
        let Builder {
            abort_on_error,
            maybe_fallible_arguments,
            call_span,
            ident_span,
            function_id,
            arguments,
            closure: binding,
            list,
            function,
        } = self;
        let mut list = list;
        let mut closure_fallible = false;
        let mut closure: Option<FunctionClosure<E>> = None;

        // Check if we have a closure we need to compile.
        if let Some(binding) = binding {
            let block = closure_block.expect("closure must contain block");

            // The block is compiled, so the closure's variables leave the scope.
            unbind_variables(local, &local_snapshot, &binding.variables);

            let block_type = block.node.type_def(&*local, &*external);
            closure_fallible = block_type.is_fallible();

            let (block_span, block) = block.take();

            // The block has to return what the matched signature asks for.
            match check_return_type(block_span, block_type.kind(), binding.output) {
                Ok(()) => {},
                Err(e) => {
                    return Err(e);
                },
            }

            let fnclosure = FunctionClosure {
                variables: clone_idents(&binding.variables),
                block: block.duplicate(),
            };
            list.set_closure(fnclosure);

            closure = Some(FunctionClosure { variables: binding.variables, block });
        }

        // The function gets the host's bag in its context; the environment
        // holds an empty one until the function is done.
        let external_context = external.swap_external_context(ContextBag::new());
        let mut compile_ctx = FunctionCompileContext::new(call_span).with_external_context(
            external_context,
        );

        let compiled = function.compile(local, external, &mut compile_ctx, list);

        // Put the bag back into the environment.
        let _ = external.swap_external_context(compile_ctx.into_external_context());

        let ghost answer = compiled;
        let ghost scope = local@;
        let ghost environment = *external;
        let mut expr = match accept_compiled(
            compiled,
            abort_on_error,
            maybe_fallible_arguments,
            call_span,
            ident_span,
            &*local,
            &*external,
        ) {
            Ok(expr) => expr,
            Err(e) => {
                let result = Err(e);
                assert(this.concludes(
                    closure_block,
                    old(local)@,
                    local_snapshot@,
                    old(external),
                    answer,
                    scope,
                    environment,
                    Ok(()),
                    result,
                ));
                return result;
            },
        };

        // Update the state if necessary.
        let update = expr.update_state(local, external);
        let ghost updated = update;
        match accept_state_update(update, call_span) {
            Ok(()) => {},
            Err(e) => {
                let result = Err(e);
                assert(this.concludes(
                    closure_block,
                    old(local)@,
                    local_snapshot@,
                    old(external),
                    answer,
                    scope,
                    environment,
                    updated,
                    result,
                ));
                return result;
            },
        }

        let result = Ok(
            FunctionCall {
                abort_on_error,
                expr,
                maybe_fallible_arguments,
                closure_fallible,
                closure,
                span: call_span,
                ident: function.identifier(),
                function_id,
                arguments,
            },
        );
        assert(this.concludes(
            closure_block,
            old(local)@,
            local_snapshot@,
            old(external),
            answer,
            scope,
            environment,
            updated,
            result,
        ));
        result
    }
}

} // verus!
