//! What holds of every call, proved from the rules of binding.

use vstd::prelude::*;
use crate::binding::{
    call_outcome, closure_scope, first_missing, is_first_missing, keywords_of, missing_at,
    position, CallSite,
};
use crate::builder::unbound;
use crate::expression::Expression;
use crate::function::{Definition, Variable};
use crate::ident::Ident;
use crate::labels::{closest, is_closest};
use crate::levenshtein::spec_distance;
use crate::placement::{
    first_unknown, given_keywords, holes, lemma_holes_monotone, lemma_named, lemma_positional,
    named, names, placed, placement, positional, unknown,
};
use crate::span::Node;
use crate::state::{ExternalEnv, Scope};
use crate::table::lookup;

verus! {

/// Binding the variables of a closure leaves every other variable as it was.
pub proof fn lemma_closure_scope_frame<E: Expression>(
    variables: Seq<Variable>,
    names: Seq<Seq<char>>,
    target: E,
    scope: Scope,
    external: &ExternalEnv,
    n: nat,
    x: Seq<char>,
)
    requires
        n <= names.len(),
        forall|k: int| 0 <= k < n ==> names[k] != x,
    ensures
        lookup(closure_scope(variables, names, target, scope, external, n), x) == lookup(scope, x),
    decreases n,
{
    if n > 0 {
        lemma_closure_scope_frame(variables, names, target, scope, external, (n - 1) as nat, x);
    }
}

/// Once the variables of a closure have left the scope again, a variable
/// that the closure bound is what the snapshot holds for it, and is gone
/// where the snapshot holds nothing; every other variable is what it was.
pub proof fn lemma_unbound(
    scope: Scope,
    snapshot: Scope,
    names: Seq<Seq<char>>,
    n: nat,
    x: Seq<char>,
)
    requires
        n <= names.len(),
    ensures
        lookup(unbound(scope, snapshot, names, n), x) == if exists|k: int|
            0 <= k < n && names[k] == x {
            lookup(snapshot, x)
        } else {
            lookup(scope, x)
        },
    decreases n,
{
    if n > 0 {
        lemma_unbound(scope, snapshot, names, (n - 1) as nat, x);
        if names[n - 1] == x {
            assert(0 <= n - 1 < n && names[n - 1] == x);
        } else if exists|k: int| 0 <= k < n && names[k] == x {
            let k = choose|k: int| 0 <= k < n && names[k] == x;
            assert(0 <= k < n - 1 && names[k] == x);
        } else {
            assert forall|k: int| 0 <= k < n - 1 implies names[k] != x by {
                assert(!(0 <= k < n && names[k] == x));
            }
        }
    }
}

/// Scope balance: where the snapshot is the scope as it was before the
/// closure's variables were bound, taking them out again gives that scope
/// back.
pub proof fn lemma_scope_balance<E: Expression>(
    variables: Seq<Variable>,
    names: Seq<Seq<char>>,
    target: E,
    scope: Scope,
    external: &ExternalEnv,
)
    requires
        variables.len() == names.len(),
    ensures
        unbound(
            closure_scope(variables, names, target, scope, external, names.len()),
            scope,
            names,
            names.len(),
        ) == scope,
{
    let n = names.len();
    let bound = closure_scope(variables, names, target, scope, external, n);
    let after = unbound(bound, scope, names, n);
    assert forall|x: Seq<char>| lookup(after, x) == lookup(scope, x) by {
        lemma_unbound(bound, scope, names, n, x);
        if !(exists|k: int| 0 <= k < n && names[k] == x) {
            assert forall|k: int| 0 <= k < n implies names[k] != x by {
                assert(!(0 <= k < n && names[k] == x));
            }
            lemma_closure_scope_frame(variables, names, target, scope, external, n, x);
        }
    }
    assert forall|x: Seq<char>| after.dom().contains(x) == scope.dom().contains(x) by {
        assert(lookup(after, x) == lookup(scope, x));
    }
    assert forall|x: Seq<char>| after.dom().contains(x) implies after[x] == scope[x] by {
        assert(lookup(after, x) == lookup(scope, x));
    }
    assert(after =~= scope);
}

/// No error among the first `n` arguments means no error in any of them.
pub proof fn lemma_no_argument_error<E: Expression>(site: CallSite<E>, n: nat, i: int)
    requires
        site.first_argument_error(n) is None,
        0 <= i < n,
    ensures
        site.argument_error(i) is None,
    decreases n,
{
    if i < n - 1 {
        lemma_no_argument_error(site, (n - 1) as nat, i);
    }
}

/// The partial-match flag: a call that is bound is marked as one whose
/// arguments may fail exactly where some argument has a kind that shares a
/// shape with the kind of its parameter without lying within it.
pub proof fn lemma_partial_match_flag<E: Expression>(
    site: CallSite<E>,
    definition: Option<Definition>,
    variables: Option<Node<Vec<Node<Ident>>>>,
)
    requires
        call_outcome(site, definition, variables) is Ok,
    ensures
        call_outcome(site, definition, variables)->Ok_0.maybe_fallible_arguments <==> exists|
            i: int,
        |
            0 <= i < site.arguments.len() && #[trigger] site.partial_match(i),
        forall|i: int|
            0 <= i < site.arguments.len() ==> (#[trigger] site.partial_match(i) <==> {
                let expected = site.parameters[site.slot(i).unwrap()].kind;
                let got = site.argument_type(i).kind;
                expected.spec_intersects(&got) && !expected.spec_is_superset(&got)
            }),
{
    let n = site.arguments.len();
    assert forall|i: int| 0 <= i < n implies (#[trigger] site.partial_match(i) <==> {
        let expected = site.parameters[site.slot(i).unwrap()].kind;
        let got = site.argument_type(i).kind;
        expected.spec_intersects(&got) && !expected.spec_is_superset(&got)
    }) by {
        lemma_no_argument_error(site, n, i);
    }
}

/// What holds of a call that is bound: every argument goes to a parameter of
/// the function, may have a kind that the parameter accepts and cannot fail;
/// every required parameter is set; and the call has a closure exactly where
/// the function expects one and the caller wrote one.
pub proof fn lemma_bound_call<E: Expression>(
    site: CallSite<E>,
    definition: Option<Definition>,
    variables: Option<Node<Vec<Node<Ident>>>>,
)
    requires
        call_outcome(site, definition, variables) is Ok,
    ensures
        site.arguments.len() <= site.parameters.len(),
        forall|i: int|
            0 <= i < site.arguments.len() ==> {
                &&& (#[trigger] site.slot(i)) is Some
                &&& site.parameters[site.slot(i).unwrap()].kind.spec_intersects(
                    &site.argument_type(i).kind,
                )
                &&& !site.argument_type(i).fallible
            },
        forall|p: int|
            0 <= p < site.parameters.len() && (#[trigger] site.parameters[p]).required
                ==> call_outcome(site, definition, variables)->Ok_0.bound.dom().contains(
                site.parameters[p].keyword@,
            ),
        call_outcome(site, definition, variables)->Ok_0.input is Some <==> definition is Some
            && variables is Some,
{
    let n = site.arguments.len();
    assert forall|i: int| 0 <= i < n implies {
        &&& (#[trigger] site.slot(i)) is Some
        &&& site.parameters[site.slot(i).unwrap()].kind.spec_intersects(
            &site.argument_type(i).kind,
        )
        &&& !site.argument_type(i).fallible
    } by {
        lemma_no_argument_error(site, n, i);
    }
    let bound = site.bound(n);
    assert forall|p: int| 0 <= p < site.parameters.len() && (
    #[trigger] site.parameters[p]).required implies bound.dom().contains(
        site.parameters[p].keyword@,
    ) by {
        if missing_at(site.parameters, bound, p) {
            lemma_some_missing(site, bound, p);
        }
    }
}

proof fn lemma_some_missing<E: Expression>(site: CallSite<E>, bound: Map<Seq<char>, E>, p: int)
    requires
        0 <= p < site.parameters.len(),
        missing_at(site.parameters, bound, p),
    ensures
        first_missing(site.parameters, bound) is Some,
    decreases p,
{
    if forall|q: int| 0 <= q < p ==> !missing_at(site.parameters, bound, q) {
        assert(is_first_missing(site.parameters, bound, p));
    } else {
        let q = choose|q: int| 0 <= q < p && missing_at(site.parameters, bound, q);
        lemma_some_missing(site, bound, q);
    }
}

/// Some candidate is closest wherever there is a candidate at all.
pub proof fn lemma_closest_exists(candidates: Seq<Seq<char>>, name: Seq<char>, n: nat)
    requires
        0 < n <= candidates.len(),
    ensures
        exists|i: int| is_closest(candidates.take(n as int), name, i),
    decreases n,
{
    let now = candidates.take(n as int);
    if n == 1 {
        assert(is_closest(now, name, 0));
    } else {
        let before = candidates.take(n - 1);
        lemma_closest_exists(candidates, name, (n - 1) as nat);
        let i = choose|i: int| is_closest(before, name, i);
        assert forall|j: int| 0 <= j < n - 1 implies now[j] == before[j] by {}
        if spec_distance(name, now[n - 1]) < spec_distance(name, now[i]) {
            assert forall|j: int| 0 <= j < n implies spec_distance(name, now[n - 1])
                <= spec_distance(name, #[trigger] now[j]) by {
                if j < n - 1 {
                    assert(spec_distance(name, before[i]) <= spec_distance(name, before[j]));
                }
            }
            assert forall|j: int| 0 <= j < n - 1 implies spec_distance(name, now[n - 1])
                < spec_distance(name, #[trigger] now[j]) by {
                assert(spec_distance(name, before[i]) <= spec_distance(name, before[j]));
            }
            assert(is_closest(now, name, n - 1));
        } else {
            assert forall|j: int| 0 <= j < n implies spec_distance(name, now[i]) <= spec_distance(
                name,
                #[trigger] now[j],
            ) by {
                if j < n - 1 {
                    assert(spec_distance(name, before[i]) <= spec_distance(name, before[j]));
                }
            }
            assert forall|j: int| 0 <= j < i implies spec_distance(name, now[i]) < spec_distance(
                name,
                #[trigger] now[j],
            ) by {
                assert(spec_distance(name, before[i]) < spec_distance(name, before[j]));
            }
            assert(is_closest(now, name, i));
        }
    }
}

/// Suggestion minimality: the function that is suggested in place of an
/// undefined one is at the least edit distance from the name that was
/// written, and is the first in the registry among those that are.
pub proof fn lemma_suggestion_minimal(candidates: Seq<Seq<char>>, name: Seq<char>)
    requires
        candidates.len() > 0,
    ensures
        closest(candidates, name) matches Some(i) && is_closest(candidates, name, i),
{
    lemma_closest_exists(candidates, name, candidates.len());
    assert(candidates.take(candidates.len() as int) =~= candidates);
}

/// Binding determinism: where the arguments can be laid out, the layout has
/// one place for each parameter, in the order of their declaration, and each
/// place is empty or holds an argument of the call. They can be laid out
/// unless a keyword is unknown or the arguments without a keyword outnumber
/// the parameters that no argument names.
pub proof fn lemma_layout_shape(keywords: Seq<Seq<char>>, given: Seq<Option<Seq<char>>>)
    ensures
        placement(keywords, given) is Ok <==> first_unknown(keywords, given, given.len()) is None
            && positional(given, given.len()).len() <= holes(keywords, given, keywords.len()),
        placement(keywords, given) matches Ok(slots) ==> {
            &&& slots.len() == keywords.len()
            &&& forall|p: int|
                0 <= p < slots.len() ==> (#[trigger] slots[p] matches Some(i) ==> 0 <= i
                    < given.len())
        },
{
    if placement(keywords, given) is Ok {
        let slots = placement(keywords, given)->Ok_0;
        lemma_positional(given, given.len());
        assert forall|p: int| 0 <= p < slots.len() implies (#[trigger] slots[p] matches Some(i)
            ==> 0 <= i < given.len()) by {
            lemma_named(keywords, given, p, given.len());
        }
    }
}

/// Arguments with and without keywords do not disturb each other: a
/// parameter that an argument names gets the last argument that names it,
/// and the arguments without a keyword fill the other parameters from the
/// first on, without a gap and in the order in which they are written.
pub proof fn lemma_layout_stable(
    keywords: Seq<Seq<char>>,
    given: Seq<Option<Seq<char>>>,
    p: int,
    q: int,
)
    requires
        0 <= p < q < keywords.len(),
    ensures
        named(keywords, given, p, given.len()) is Some ==> placed(keywords, given, p) == named(
            keywords,
            given,
            p,
            given.len(),
        ),
        named(keywords, given, p, given.len()) is None && named(keywords, given, q, given.len())
            is None && placed(keywords, given, q) is Some ==> placed(keywords, given, p) is Some
            && placed(keywords, given, p)->0 < placed(keywords, given, q)->0,
{
    if named(keywords, given, p, given.len()) is None && named(keywords, given, q, given.len())
        is None && placed(keywords, given, q) is Some {
        lemma_holes_monotone(keywords, given, p as nat, q as nat);
        lemma_positional(given, given.len());
    }
}

/// No two arguments name the same parameter, and every keyword is known.
pub open spec fn distinct_keywords(keywords: Seq<Seq<char>>, given: Seq<Option<Seq<char>>>) -> bool {
    &&& forall|i: int| 0 <= i < given.len() ==> !unknown(keywords, given, i)
    &&& forall|i: int, j: int, p: int|
        0 <= i < j < given.len() && names(keywords, given, i, p) ==> !names(keywords, given, j, p)
}

/// The keywords with those at `i` and `j` exchanged.
pub open spec fn exchanged<A>(items: Seq<A>, i: int, j: int) -> Seq<A> {
    items.update(i, items[j]).update(j, items[i])
}

/// The place at which the argument at `a` is found after the exchange.
pub open spec fn exchanged_place(i: int, j: int, a: int) -> int {
    if a == i {
        j
    } else if a == j {
        i
    } else {
        a
    }
}

proof fn lemma_named_unique(
    keywords: Seq<Seq<char>>,
    given: Seq<Option<Seq<char>>>,
    p: int,
    a: int,
)
    requires
        0 <= a < given.len(),
        names(keywords, given, a, p),
        forall|i: int, j: int, p: int|
            0 <= i < j < given.len() && names(keywords, given, i, p) ==> !names(
                keywords,
                given,
                j,
                p,
            ),
    ensures
        named(keywords, given, p, given.len()) == Some(a),
{
    lemma_named(keywords, given, p, given.len());
    let found = named(keywords, given, p, given.len());
    if found is None {
        assert(!names(keywords, given, a, p));
    } else {
        let b = found->0;
        if a < b {
            assert(!names(keywords, given, b, p));
        }
        if b < a {
            assert(!names(keywords, given, a, p));
        }
    }
}

proof fn lemma_positional_exchanged(given: Seq<Option<Seq<char>>>, i: int, j: int, n: nat)
    requires
        0 <= i < given.len(),
        0 <= j < given.len(),
        given[i] is Some,
        given[j] is Some,
        n <= given.len(),
    ensures
        positional(exchanged(given, i, j), n) == positional(given, n),
    decreases n,
{
    if n > 0 {
        lemma_positional_exchanged(given, i, j, (n - 1) as nat);
    }
}

proof fn lemma_first_unknown_none(keywords: Seq<Seq<char>>, given: Seq<Option<Seq<char>>>, n: nat)
    requires
        n <= given.len(),
        forall|i: int| 0 <= i < given.len() ==> !unknown(keywords, given, i),
    ensures
        first_unknown(keywords, given, n) is None,
    decreases n,
{
    if n > 0 {
        lemma_first_unknown_none(keywords, given, (n - 1) as nat);
    }
}

proof fn lemma_holes_exchanged(
    keywords: Seq<Seq<char>>,
    given: Seq<Option<Seq<char>>>,
    i: int,
    j: int,
    p: nat,
)
    requires
        0 <= i < j < given.len(),
        given[i] is Some,
        given[j] is Some,
        distinct_keywords(keywords, given),
    ensures
        holes(keywords, exchanged(given, i, j), p) == holes(keywords, given, p),
    decreases p,
{
    if p > 0 {
        lemma_holes_exchanged(keywords, given, i, j, (p - 1) as nat);
        lemma_named_exchanged(keywords, given, i, j, p - 1);
    }
}

proof fn lemma_distinct_exchanged(
    keywords: Seq<Seq<char>>,
    given: Seq<Option<Seq<char>>>,
    i: int,
    j: int,
)
    requires
        0 <= i < j < given.len(),
        given[i] is Some,
        given[j] is Some,
        distinct_keywords(keywords, given),
    ensures
        distinct_keywords(keywords, exchanged(given, i, j)),
{
    let other = exchanged(given, i, j);
    assert forall|a: int| 0 <= a < other.len() implies !unknown(keywords, other, a) by {
        let b = exchanged_place(i, j, a);
        assert(other[a] == given[b]);
        assert(!unknown(keywords, given, b));
    }
    assert forall|a: int, b: int, p: int|
        0 <= a < b < other.len() && names(keywords, other, a, p) implies !names(
        keywords,
        other,
        b,
        p,
    ) by {
        let a0 = exchanged_place(i, j, a);
        let b0 = exchanged_place(i, j, b);
        assert(other[a] == given[a0]);
        assert(other[b] == given[b0]);
        assert(names(keywords, given, a0, p));
        if a0 < b0 {
            assert(!names(keywords, given, b0, p));
        } else {
            if names(keywords, given, b0, p) {
                assert(!names(keywords, given, a0, p));
            }
        }
    }
}

proof fn lemma_named_exchanged(
    keywords: Seq<Seq<char>>,
    given: Seq<Option<Seq<char>>>,
    i: int,
    j: int,
    p: int,
)
    requires
        0 <= i < j < given.len(),
        given[i] is Some,
        given[j] is Some,
        distinct_keywords(keywords, given),
    ensures
        named(keywords, exchanged(given, i, j), p, given.len()) == match named(
            keywords,
            given,
            p,
            given.len(),
        ) {
            Some(a) => Some(exchanged_place(i, j, a)),
            None => None,
        },
{
    let other = exchanged(given, i, j);
    lemma_named(keywords, given, p, given.len());
    lemma_distinct_exchanged(keywords, given, i, j);
    match named(keywords, given, p, given.len()) {
        Some(a) => {
            let b = exchanged_place(i, j, a);
            assert(other[b] == given[a]);
            assert(names(keywords, other, b, p));
            lemma_named_unique(keywords, other, p, b);
        },
        None => {
            lemma_named(keywords, other, p, other.len());
            if named(keywords, other, p, other.len()) is Some {
                let b = named(keywords, other, p, other.len())->0;
                let a = exchanged_place(i, j, b);
                assert(other[b] == given[a]);
                assert(names(keywords, given, a, p));
            }
        },
    }
}

/// Keyword independence: where no two arguments name the same parameter and
/// every keyword is known, exchanging two arguments that have keywords
/// changes nothing in what each parameter gets. (Where two arguments name
/// one parameter the later one wins, so their order matters.)
pub proof fn lemma_keyword_order<A>(
    keywords: Seq<Seq<char>>,
    given: Seq<Option<Seq<char>>>,
    arguments: Seq<A>,
    i: int,
    j: int,
)
    requires
        arguments.len() == given.len(),
        0 <= i < j < given.len(),
        given[i] is Some,
        given[j] is Some,
        distinct_keywords(keywords, given),
    ensures
        placement(keywords, exchanged(given, i, j)) is Ok <==> placement(keywords, given) is Ok,
        placement(keywords, given) matches Ok(slots) ==> {
            let after = placement(keywords, exchanged(given, i, j))->Ok_0;
            &&& after.len() == slots.len()
            &&& forall|p: int|
                0 <= p < slots.len() ==> match #[trigger] slots[p] {
                    Some(a) => after[p] matches Some(b) && exchanged(arguments, i, j)[b]
                        == arguments[a],
                    None => after[p] is None,
                }
        },
{
    let other = exchanged(given, i, j);
    lemma_first_unknown_none(keywords, given, given.len());
    lemma_distinct_exchanged(keywords, given, i, j);
    lemma_first_unknown_none(keywords, other, other.len());
    lemma_positional_exchanged(given, i, j, given.len());
    lemma_holes_exchanged(keywords, given, i, j, keywords.len());
    if placement(keywords, given) is Ok {
        let slots = placement(keywords, given)->Ok_0;
        let after = placement(keywords, other)->Ok_0;
        lemma_positional(given, given.len());
        assert forall|p: int| 0 <= p < slots.len() implies match #[trigger] slots[p] {
            Some(a) => after[p] matches Some(b) && exchanged(arguments, i, j)[b] == arguments[a],
            None => after[p] is None,
        } by {
            lemma_named_exchanged(keywords, given, i, j, p);
            lemma_holes_exchanged(keywords, given, i, j, p as nat);
            lemma_named(keywords, given, p, given.len());
            if named(keywords, given, p, given.len()) is None {
                let h = holes(keywords, given, p as nat);
                let free = positional(given, given.len());
                if h < free.len() {
                    let a = free[h as int];
                    assert(given[a] is None);
                    assert(a != i && a != j);
                }
            }
        }
    }
}

/// How many of the first `n` arguments name one of the first `p` parameters.
pub open spec fn naming_below(
    keywords: Seq<Seq<char>>,
    given: Seq<Option<Seq<char>>>,
    p: int,
    n: nat,
) -> nat
    decreases n,
{
    if n == 0 {
        0
    } else {
        naming_below(keywords, given, p, (n - 1) as nat) + if given[n - 1] matches Some(k)
            && position(keywords, k) matches Some(q) && q < p {
            1nat
        } else {
            0nat
        }
    }
}

proof fn lemma_naming_step(
    keywords: Seq<Seq<char>>,
    given: Seq<Option<Seq<char>>>,
    p: int,
    n: nat,
)
    requires
        n <= given.len(),
    ensures
        naming_below(keywords, given, p, n) <= naming_below(keywords, given, p + 1, n),
        named(keywords, given, p, n) is Some ==> naming_below(keywords, given, p, n)
            < naming_below(keywords, given, p + 1, n),
        naming_below(keywords, given, p, n) + positional(given, n).len() <= n,
    decreases n,
{
    if n > 0 {
        lemma_naming_step(keywords, given, p, (n - 1) as nat);
    }
}

proof fn lemma_named_count(keywords: Seq<Seq<char>>, given: Seq<Option<Seq<char>>>, p: nat)
    ensures
        p <= holes(keywords, given, p) + naming_below(keywords, given, p as int, given.len()),
    decreases p,
{
    if p > 0 {
        lemma_named_count(keywords, given, (p - 1) as nat);
        lemma_naming_step(keywords, given, p - 1, given.len());
    }
}

/// A call that is bound can be laid out: its keywords are known, and the
/// parameters that no argument names are enough for the arguments without a
/// keyword.
pub proof fn lemma_bound_call_lays_out<E: Expression>(
    site: CallSite<E>,
    definition: Option<Definition>,
    variables: Option<Node<Vec<Node<Ident>>>>,
)
    requires
        call_outcome(site, definition, variables) is Ok,
    ensures
        placement(keywords_of(site.parameters), given_keywords(site.arguments)) is Ok,
{
    let keywords = keywords_of(site.parameters);
    let given = given_keywords(site.arguments);
    let n = site.arguments.len();
    assert forall|i: int| 0 <= i < given.len() implies !unknown(keywords, given, i) by {
        lemma_no_argument_error(site, n, i);
    }
    lemma_first_unknown_none(keywords, given, given.len());
    lemma_named_count(keywords, given, keywords.len());
    lemma_naming_step(keywords, given, keywords.len() as int, given.len());
}

/// The last of the first `n` arguments that is bound under the keyword `key`.
pub open spec fn binding_of<E: Expression>(site: CallSite<E>, key: Seq<char>, n: nat) -> Option<int>
    decreases n,
{
    if n == 0 {
        None
    } else if site.slot(n - 1) matches Some(p) && site.parameters[p].keyword@ == key {
        Some(n - 1)
    } else {
        binding_of(site, key, (n - 1) as nat)
    }
}

/// What the first `n` arguments bind under a keyword is the expression of the
/// last of them that is bound under it.
pub proof fn lemma_bound_is_last_binding<E: Expression>(site: CallSite<E>, key: Seq<char>, n: nat)
    ensures
        match binding_of(site, key, n) {
            Some(i) => 0 <= i < n && site.bound(n).dom().contains(key) && site.bound(n)[key]
                == site.arguments[i].node.expr.node,
            None => !site.bound(n).dom().contains(key),
        },
    decreases n,
{
    if n > 0 {
        lemma_bound_is_last_binding(site, key, (n - 1) as nat);
    }
}

/// The same call with the arguments at `i` and `j` exchanged.
pub open spec fn exchanged_call<E: Expression>(site: CallSite<E>, i: int, j: int) -> CallSite<E> {
    CallSite { arguments: exchanged(site.arguments, i, j), ..site }
}

/// Every argument of the call has a keyword that the function knows, and no
/// two arguments name the same parameter.
pub open spec fn named_apart<E: Expression>(site: CallSite<E>) -> bool {
    &&& forall|i: int|
        0 <= i < site.arguments.len() ==> (#[trigger] site.arguments[i]).node.spec_keyword()
            is Some
    &&& distinct_keywords(keywords_of(site.parameters), given_keywords(site.arguments))
}

proof fn lemma_binding_unique<E: Expression>(site: CallSite<E>, key: Seq<char>, a: int)
    requires
        named_apart(site),
        0 <= a < site.arguments.len(),
        site.slot(a) matches Some(p) && site.parameters[p].keyword@ == key,
    ensures
        binding_of(site, key, site.arguments.len()) == Some(a),
{
    let n = site.arguments.len();
    lemma_binding_found(site, key, n);
    let b = binding_of(site, key, n)->0;
    if binding_of(site, key, n) is None {
        assert(!(site.slot(a) matches Some(p) && site.parameters[p].keyword@ == key));
    } else if a != b {
        let keywords = keywords_of(site.parameters);
        let given = given_keywords(site.arguments);
        let p = site.slot(a)->0;
        let q = site.slot(b)->0;
        assert(site.arguments[a].node.spec_keyword() is Some);
        assert(site.arguments[b].node.spec_keyword() is Some);
        let ka = given[a]->0;
        let kb = given[b]->0;
        lemma_position_is_first(keywords, ka);
        lemma_position_is_first(keywords, kb);
        assert(keywords[p] == ka);
        assert(keywords[q] == kb);
        assert(ka == kb);
        assert(names(keywords, given, a, p));
        assert(names(keywords, given, b, p));
        if a < b {
            assert(!names(keywords, given, b, p));
        } else {
            assert(!names(keywords, given, a, p));
        }
    }
}

proof fn lemma_position_is_first(keys: Seq<Seq<char>>, key: Seq<char>)
    ensures
        position(keys, key) matches Some(i) ==> 0 <= i < keys.len() && keys[i] == key,
{
    if exists|i: int| crate::binding::is_first(keys, key, i) {
        let i = choose|i: int| crate::binding::is_first(keys, key, i);
        assert(crate::binding::is_first(keys, key, i));
    }
}

proof fn lemma_binding_found<E: Expression>(site: CallSite<E>, key: Seq<char>, n: nat)
    ensures
        match binding_of(site, key, n) {
            Some(i) => 0 <= i < n && (site.slot(i) matches Some(p) && site.parameters[p].keyword@
                == key),
            None => forall|i: int|
                0 <= i < n ==> !(#[trigger] site.slot(i) matches Some(p)
                    && site.parameters[p].keyword@ == key),
        },
    decreases n,
{
    if n > 0 {
        lemma_binding_found(site, key, (n - 1) as nat);
    }
}

/// Keyword independence of the binding: in a call whose arguments all have
/// keywords, none of them unknown and no two for the same parameter,
/// exchanging two arguments changes nothing in what is bound. (An argument
/// without a keyword goes to the parameter at the cursor, which depends on
/// the keywords before it, so the order matters once such arguments are
/// mixed in.)
pub proof fn lemma_keyword_order_of_binding<E: Expression>(site: CallSite<E>, i: int, j: int)
    requires
        0 <= i < j < site.arguments.len(),
        named_apart(site),
    ensures
        exchanged_call(site, i, j).bound(site.arguments.len()) == site.bound(site.arguments.len()),
{
    let other = exchanged_call(site, i, j);
    let n = site.arguments.len();
    let keywords = keywords_of(site.parameters);
    let given = given_keywords(site.arguments);
    assert(given_keywords(other.arguments) =~= exchanged(given, i, j));
    lemma_distinct_exchanged(keywords, given, i, j);
    assert(named_apart(other)) by {
        assert forall|a: int| 0 <= a < other.arguments.len() implies (
        #[trigger] other.arguments[a]).node.spec_keyword() is Some by {
            let b = exchanged_place(i, j, a);
            assert(other.arguments[a] == site.arguments[b]);
        }
    }
    assert forall|key: Seq<char>| lookup(other.bound(n), key) == lookup(
        site.bound(n),
        key,
    ) by {
        lemma_bound_is_last_binding(site, key, n);
        lemma_bound_is_last_binding(other, key, n);
        lemma_binding_found(site, key, n);
        lemma_binding_found(other, key, n);
        match binding_of(site, key, n) {
            Some(a) => {
                let b = exchanged_place(i, j, a);
                assert(other.arguments[b] == site.arguments[a]);
                assert(other.slot(b) == site.slot(a));
                lemma_binding_unique(other, key, b);
            },
            None => {
                if binding_of(other, key, n) is Some {
                    let b = binding_of(other, key, n)->0;
                    let a = exchanged_place(i, j, b);
                    assert(other.arguments[b] == site.arguments[a]);
                    assert(other.slot(b) == site.slot(a));
                }
            },
        }
    }
    assert forall|key: Seq<char>| other.bound(n).dom().contains(key) == site.bound(
        n,
    ).dom().contains(key) by {
        assert(lookup(other.bound(n), key) == lookup(site.bound(n), key));
    }
    assert forall|key: Seq<char>| other.bound(n).dom().contains(key) implies other.bound(n)[key]
        == site.bound(n)[key] by {
        assert(lookup(other.bound(n), key) == lookup(site.bound(n), key));
    }
    assert(other.bound(n) =~= site.bound(n));
}

} // verus!
