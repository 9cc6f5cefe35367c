//! The rules by which a call is bound to a function, stated over sequences
//! and maps.

use vstd::prelude::*;
use crate::argument::FunctionArgument;
use crate::error::ErrorView;
use crate::expression::Expression;
use crate::function::{Definition, Input, Parameter, Variable, VariableKind};
use crate::ident::Ident;
use crate::kind::Kind;
use crate::span::{Node, Span};
use crate::state::{Details, ExternalEnv, Scope};
use crate::type_def::TypeDef;

verus! {

/// A call as the resolver sees it once the function is known.
pub struct CallSite<E> {
    pub call_span: Span,
    pub ident_span: Span,
    pub abort_on_error: bool,
    /// The name of the function.
    pub identifier: Seq<char>,
    pub parameters: Seq<Parameter>,
    pub arguments: Seq<Node<FunctionArgument<E>>>,
    /// The variables in scope at the call.
    pub scope: Scope,
    pub external: ExternalEnv,
}

/// `i` is the first place at which `keys` holds `key`.
pub open spec fn is_first(keys: Seq<Seq<char>>, key: Seq<char>, i: int) -> bool {
    &&& 0 <= i < keys.len()
    &&& keys[i] == key
    &&& forall|j: int| 0 <= j < i ==> keys[j] != key
}

/// The first place at which `keys` holds `key`.
pub open spec fn position(keys: Seq<Seq<char>>, key: Seq<char>) -> Option<int> {
    if exists|i: int| is_first(keys, key, i) {
        Some(choose|i: int| is_first(keys, key, i))
    } else {
        None
    }
}

/// A first place of `key` is the place that `position` gives.
pub proof fn lemma_position_found(keys: Seq<Seq<char>>, key: Seq<char>, i: int)
    requires
        is_first(keys, key, i),
    ensures
        position(keys, key) == Some(i),
{
}

/// Where `keys` does not hold `key`, `position` gives no place.
pub proof fn lemma_position_absent(keys: Seq<Seq<char>>, key: Seq<char>)
    requires
        forall|j: int| 0 <= j < keys.len() ==> keys[j] != key,
    ensures
        position(keys, key) is None,
{
}

/// The keywords of the parameters, in the order of their declaration.
pub open spec fn keywords_of(parameters: Seq<Parameter>) -> Seq<Seq<char>> {
    Seq::new(parameters.len(), |i: int| parameters[i].keyword@)
}

/// The arguments as they read in the source.
pub open spec fn displays<E: Expression>(arguments: Seq<Node<FunctionArgument<E>>>) -> Seq<
    Seq<char>,
> {
    Seq::new(arguments.len(), |i: int| arguments[i].node.expr.node.display())
}

/// The arguments as they read when a syntax tree is printed.
pub open spec fn debugs<E: Expression>(arguments: Seq<Node<FunctionArgument<E>>>) -> Seq<
    Seq<char>,
> {
    Seq::new(arguments.len(), |i: int| arguments[i].node.expr.node.debug())
}

impl<E: Expression> CallSite<E> {
    /// The positional cursor once the first `n` arguments are bound: the
    /// parameter that the next argument without a keyword goes to. An
    /// argument without a keyword moves it on by one; one with a keyword does
    /// so only where it names the very parameter that the cursor stands at.
    pub open spec fn cursor(self, n: nat) -> int
        decreases n,
    {
        if n == 0 {
            0
        } else {
            let before = self.cursor((n - 1) as nat);
            match self.arguments[n - 1].node.spec_keyword() {
                None => before + 1,
                Some(k) => if position(keywords_of(self.parameters), k) == Some(before) {
                    before + 1
                } else {
                    before
                },
            }
        }
    }

    /// The parameter that argument `i` is bound to: the one it names, or the
    /// one at the cursor where it names none.
    pub open spec fn slot(self, i: int) -> Option<int> {
        match self.arguments[i].node.spec_keyword() {
            None => Some(self.cursor(i as nat)),
            Some(k) => position(keywords_of(self.parameters), k),
        }
    }

    /// The static type of argument `i`.
    pub open spec fn argument_type(self, i: int) -> TypeDef {
        self.arguments[i].node.type_of(self.scope, &self.external)
    }

    /// Argument `i` may have a kind that its parameter accepts, and may have
    /// one that it does not.
    pub open spec fn partial_match(self, i: int) -> bool {
        match self.slot(i) {
            Some(p) => {
                let expected = self.parameters[p].kind;
                let got = self.argument_type(i).kind;
                expected.spec_intersects(&got) && !expected.spec_is_superset(&got)
            },
            None => false,
        }
    }

    /// What is wrong with argument `i` by itself, if anything: it names a
    /// parameter that the function does not have, it may fail, or it can
    /// never have a kind that its parameter accepts.
    pub open spec fn argument_error(self, i: int) -> Option<ErrorView> {
        let argument = self.arguments[i];
        match self.slot(i) {
            None => Some(
                ErrorView::UnknownKeyword {
                    keyword_span: argument.node.spec_keyword_span().unwrap(),
                    ident_span: self.ident_span,
                    keywords: keywords_of(self.parameters),
                },
            ),
            Some(p) => {
                let parameter = self.parameters[p];
                let type_def = self.argument_type(i);
                if type_def.fallible {
                    Some(ErrorView::FallibleArgument { expr_span: argument.node.expr.span })
                } else if !parameter.kind.spec_intersects(&type_def.kind) {
                    Some(
                        ErrorView::InvalidArgumentKind {
                            function_ident: self.identifier,
                            abort_on_error: self.abort_on_error,
                            arguments_fmt: displays(self.arguments),
                            parameter,
                            got: type_def.kind,
                            argument: argument.node.expr.node.display(),
                            expr_span: argument.node.expr.span,
                            argument_span: argument.span,
                        },
                    )
                } else {
                    None
                }
            },
        }
    }

    /// The error of the first among the first `n` arguments that has one.
    pub open spec fn first_argument_error(self, n: nat) -> Option<ErrorView>
        decreases n,
    {
        if n == 0 {
            None
        } else {
            match self.first_argument_error((n - 1) as nat) {
                Some(e) => Some(e),
                None => self.argument_error(n - 1),
            }
        }
    }

    /// The expressions bound by the first `n` arguments, by keyword. A later
    /// argument for a parameter replaces an earlier one.
    pub open spec fn bound(self, n: nat) -> Map<Seq<char>, E>
        decreases n,
    {
        if n == 0 {
            Map::empty()
        } else {
            let before = self.bound((n - 1) as nat);
            match self.slot(n - 1) {
                Some(p) => before.insert(
                    self.parameters[p].keyword@,
                    self.arguments[n - 1].node.expr.node,
                ),
                None => before,
            }
        }
    }

    /// One of the first `n` arguments matches its parameter only in part.
    pub open spec fn maybe_fallible(self, n: nat) -> bool {
        exists|i: int| 0 <= i < n && self.partial_match(i)
    }

    /// The place of all the arguments together.
    pub open spec fn arguments_span(self) -> Span {
        Span { start: self.arguments.first().span.start, end: self.arguments.last().span.end }
    }

    /// The cursor never runs ahead of the arguments.
    pub proof fn lemma_cursor_bound(self, n: nat)
        ensures
            0 <= self.cursor(n) <= n,
        decreases n,
    {
        if n > 0 {
            self.lemma_cursor_bound((n - 1) as nat);
        }
    }

    /// Where the call has no more arguments than the function has parameters,
    /// every argument without a keyword finds a parameter.
    pub proof fn lemma_positional_slot(self, i: int)
        requires
            0 <= i < self.arguments.len() <= self.parameters.len(),
            self.arguments[i].node.spec_keyword() is None,
        ensures
            self.slot(i) matches Some(p) && 0 <= p < self.parameters.len(),
    {
        self.lemma_cursor_bound(i as nat);
    }
}

/// Parameter `p` is required and `bound` does not set it.
pub open spec fn missing_at<E>(parameters: Seq<Parameter>, bound: Map<Seq<char>, E>, p: int) -> bool {
    parameters[p].required && !bound.dom().contains(parameters[p].keyword@)
}

/// `p` is the first required parameter that `bound` does not set.
pub open spec fn is_first_missing<E>(
    parameters: Seq<Parameter>,
    bound: Map<Seq<char>, E>,
    p: int,
) -> bool {
    &&& 0 <= p < parameters.len()
    &&& missing_at(parameters, bound, p)
    &&& forall|q: int| 0 <= q < p ==> !missing_at(parameters, bound, q)
}

/// The first required parameter that `bound` does not set.
pub open spec fn first_missing<E>(parameters: Seq<Parameter>, bound: Map<Seq<char>, E>) -> Option<
    int,
> {
    if exists|p: int| is_first_missing(parameters, bound, p) {
        Some(choose|p: int| is_first_missing(parameters, bound, p))
    } else {
        None
    }
}

/// A first unset required parameter is the one that `first_missing` gives.
pub proof fn lemma_first_missing_found<E>(
    parameters: Seq<Parameter>,
    bound: Map<Seq<char>, E>,
    p: int,
)
    requires
        is_first_missing(parameters, bound, p),
    ensures
        first_missing(parameters, bound) == Some(p),
{
}

/// Where every required parameter is set, `first_missing` gives none.
pub proof fn lemma_first_missing_none<E>(parameters: Seq<Parameter>, bound: Map<Seq<char>, E>)
    requires
        forall|q: int| 0 <= q < parameters.len() ==> !missing_at(parameters, bound, q),
    ensures
        first_missing(parameters, bound) is None,
{
}

/// The signature `input` applies: the parameter it runs over is set, and to
/// an argument of a kind that the signature covers.
pub open spec fn accepts<E: Expression>(
    input: Input,
    bound: Map<Seq<char>, E>,
    scope: Scope,
    external: &ExternalEnv,
) -> bool {
    &&& bound.dom().contains(input.parameter_keyword@)
    &&& input.kind.spec_is_superset(&bound[input.parameter_keyword@].type_of(scope, external).kind)
}

/// The parameter that `input` runs over is set, to an argument of a kind that
/// the signature does not cover.
pub open spec fn rejects<E: Expression>(
    input: Input,
    bound: Map<Seq<char>, E>,
    scope: Scope,
    external: &ExternalEnv,
) -> bool {
    &&& bound.dom().contains(input.parameter_keyword@)
    &&& !input.kind.spec_is_superset(&bound[input.parameter_keyword@].type_of(scope, external).kind)
}

/// `k` is the first signature that applies.
pub open spec fn is_matched<E: Expression>(
    inputs: Seq<Input>,
    bound: Map<Seq<char>, E>,
    scope: Scope,
    external: &ExternalEnv,
    k: int,
) -> bool {
    &&& 0 <= k < inputs.len()
    &&& accepts(inputs[k], bound, scope, external)
    &&& forall|j: int| 0 <= j < k ==> !accepts(inputs[j], bound, scope, external)
}

/// The first signature that applies.
pub open spec fn matched<E: Expression>(
    inputs: Seq<Input>,
    bound: Map<Seq<char>, E>,
    scope: Scope,
    external: &ExternalEnv,
) -> Option<int> {
    if exists|k: int| is_matched(inputs, bound, scope, external, k) {
        Some(choose|k: int| is_matched(inputs, bound, scope, external, k))
    } else {
        None
    }
}

/// A first signature that applies is the one that `matched` gives.
pub proof fn lemma_matched_found<E: Expression>(
    inputs: Seq<Input>,
    bound: Map<Seq<char>, E>,
    scope: Scope,
    external: &ExternalEnv,
    k: int,
)
    requires
        is_matched(inputs, bound, scope, external, k),
    ensures
        matched(inputs, bound, scope, external) == Some(k),
{
}

/// Where no signature applies, `matched` gives none.
pub proof fn lemma_matched_none<E: Expression>(
    inputs: Seq<Input>,
    bound: Map<Seq<char>, E>,
    scope: Scope,
    external: &ExternalEnv,
)
    requires
        forall|j: int| 0 <= j < inputs.len() ==> !accepts(inputs[j], bound, scope, external),
    ensures
        matched(inputs, bound, scope, external) is None,
{
}

/// The kind of the argument that the last of the first `n` signatures to be
/// rejected was rejected for.
pub open spec fn last_rejected<E: Expression>(
    inputs: Seq<Input>,
    bound: Map<Seq<char>, E>,
    scope: Scope,
    external: &ExternalEnv,
    n: nat,
) -> Option<Kind>
    decreases n,
{
    if n == 0 {
        None
    } else if rejects(inputs[n - 1], bound, scope, external) {
        Some(bound[inputs[n - 1].parameter_keyword@].type_of(scope, external).kind)
    } else {
        last_rejected(inputs, bound, scope, external, (n - 1) as nat)
    }
}

/// The kind of what a collection of kind `target` holds: of an object's
/// values where it may be an object, else of an array's elements where it may
/// be an array, else any.
pub open spec fn inner_value_kind(target: Kind) -> Kind {
    match target.spec_object_members() {
        Some(members) => members,
        None => match target.spec_array_members() {
            Some(members) => members,
            None => Kind::spec_any(),
        },
    }
}

/// The kind of the keys of a collection of kind `target`: byte strings for an
/// object, integers for an array, both where it may be either, and any where
/// it may be something else than a collection.
pub open spec fn inner_key_kind(target: Kind) -> Kind {
    if !target.spec_is_collection() {
        Kind::spec_any()
    } else {
        let keys = if target.spec_contains_object() {
            Kind::spec_empty().spec_or(Kind::spec_bytes())
        } else {
            Kind::spec_empty()
        };
        if target.spec_contains_array() {
            keys.spec_or(Kind::spec_integer())
        } else {
            keys
        }
    }
}

/// What a closure variable of the given kind is known to be, for a closure
/// that runs over `target`.
pub open spec fn variable_details<E: Expression>(
    kind: VariableKind,
    target: E,
    scope: Scope,
    external: &ExternalEnv,
) -> Details {
    let type_def = target.type_of(scope, external);
    match kind {
        VariableKind::Exact(kind) => Details { type_def: TypeDef::of(kind), value: None },
        VariableKind::Target => Details { type_def, value: target.constant() },
        VariableKind::TargetInnerValue => Details {
            type_def: TypeDef::of(inner_value_kind(type_def.kind)),
            value: None,
        },
        VariableKind::TargetInnerKey => Details {
            type_def: TypeDef::of(inner_key_kind(type_def.kind)),
            value: None,
        },
    }
}

/// The scope once the first `n` closure variables are bound, one after the
/// other.
pub open spec fn closure_scope<E: Expression>(
    variables: Seq<Variable>,
    names: Seq<Seq<char>>,
    target: E,
    scope: Scope,
    external: &ExternalEnv,
    n: nat,
) -> Scope
    decreases n,
{
    if n == 0 {
        scope
    } else {
        let before = closure_scope(variables, names, target, scope, external, (n - 1) as nat);
        before.insert(
            names[n - 1],
            variable_details(variables[n - 1].kind, target, before, external),
        )
    }
}

/// The texts of the identifiers behind a sequence of nodes.
pub open spec fn node_names(nodes: Seq<Node<Ident>>) -> Seq<Seq<char>> {
    Seq::new(nodes.len(), |i: int| nodes[i].node@)
}

/// The place of the closure's variables, or of the call where it has none.
pub open spec fn closure_arguments_span(call_span: Span, variables: Seq<Node<Ident>>) -> Span {
    if variables.len() == 0 {
        call_span
    } else {
        Span { start: variables.first().span.start, end: variables.last().span.end }
    }
}

/// A closure that passed the checks: the signature that applies and the
/// scope with its variables bound.
pub struct BoundClosure {
    pub input: int,
    pub scope: Scope,
}

/// The outcome of checking the closure of a call against what the function
/// expects: an error, no closure, or the signature that applies together
/// with the scope in which the closure's variables are bound.
pub open spec fn closure_outcome<E: Expression>(
    site: CallSite<E>,
    definition: Option<Definition>,
    variables: Option<Node<Vec<Node<Ident>>>>,
    bound: Map<Seq<char>, E>,
) -> Result<Option<BoundClosure>, ErrorView> {
    match (definition, variables) {
        (None, None) => Ok(None),
        (None, Some(variables)) => Err(
            ErrorView::UnexpectedClosure {
                call_span: site.call_span,
                closure_span: variables.span,
            },
        ),
        (Some(definition), None) => Err(
            ErrorView::MissingClosure {
                call_span: site.call_span,
                example: if definition.inputs@.len() > 0 {
                    Some(definition.inputs@[0].example)
                } else {
                    None
                },
            },
        ),
        (Some(definition), Some(variables)) => {
            let inputs = definition.inputs@;
            match matched(inputs, bound, site.scope, &site.external) {
                None => Err(
                    ErrorView::ClosureParameterTypeMismatch {
                        call_span: site.call_span,
                        found_kind: match last_rejected(
                            inputs,
                            bound,
                            site.scope,
                            &site.external,
                            inputs.len(),
                        ) {
                            Some(kind) => kind,
                            None => Kind::spec_any(),
                        },
                    },
                ),
                Some(k) => {
                    let input = inputs[k];
                    if input.variables@.len() != variables.node@.len() {
                        Err(
                            ErrorView::ClosureArityMismatch {
                                ident_span: site.ident_span,
                                closure_arguments_span: closure_arguments_span(
                                    site.call_span,
                                    variables.node@,
                                ),
                                expected: input.variables@.len() as usize,
                                supplied: variables.node@.len() as usize,
                            },
                        )
                    } else {
                        Ok(
                            Some(
                                BoundClosure {
                                    input: k,
                                    scope: closure_scope(
                                        input.variables@,
                                        node_names(variables.node@),
                                        bound[input.parameter_keyword@],
                                        site.scope,
                                        &site.external,
                                        input.variables@.len(),
                                    ),
                                },
                            ),
                        )
                    }
                },
            }
        },
    }
}

/// A call that passed every check.
pub struct Binding<E> {
    /// Whether some argument matches its parameter only in part.
    pub maybe_fallible_arguments: bool,
    /// The arguments by the keyword of their parameter.
    pub bound: Map<Seq<char>, E>,
    /// The signature of the closure that applies, where the call has one.
    pub input: Option<int>,
    /// The scope after the call is bound: the scope before it, with the
    /// variables of the closure where the call has one.
    pub scope: Scope,
}

/// The outcome of binding the call `site` to its function: the first error
/// in the order arity, arguments from left to right, required parameters,
/// closure; or the binding.
pub open spec fn call_outcome<E: Expression>(
    site: CallSite<E>,
    definition: Option<Definition>,
    variables: Option<Node<Vec<Node<Ident>>>>,
) -> Result<Binding<E>, ErrorView> {
    let n = site.arguments.len();
    if n > site.parameters.len() {
        Err(
            ErrorView::WrongNumberOfArgs {
                arguments_span: site.arguments_span(),
                max: site.parameters.len() as usize,
            },
        )
    } else {
        match site.first_argument_error(n) {
            Some(e) => Err(e),
            None => {
                let bound = site.bound(n);
                match first_missing(site.parameters, bound) {
                    Some(p) => Err(
                        ErrorView::MissingArgument {
                            call_span: site.call_span,
                            keyword: site.parameters[p].keyword@,
                            position: p as usize,
                        },
                    ),
                    None => match closure_outcome(site, definition, variables, bound) {
                        Err(e) => Err(e),
                        Ok(closure) => Ok(
                            Binding {
                                maybe_fallible_arguments: site.maybe_fallible(n),
                                bound,
                                input: match closure {
                                    Some(c) => Some(c.input),
                                    None => None,
                                },
                                scope: match closure {
                                    Some(c) => c.scope,
                                    None => site.scope,
                                },
                            },
                        ),
                    },
                }
            },
        }
    }
}

} // verus!
