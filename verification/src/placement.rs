//! Laying the arguments of a call out in the order of the parameters.

use vstd::prelude::*;
use crate::argument::FunctionArgument;
use crate::binding::{keywords_of, position};
use crate::builder::find_parameter;
use crate::expression::Expression;
use crate::function::Parameter;
use crate::span::Node;

verus! {

/// The keywords of the arguments as written; `None` for an argument without.
pub open spec fn given_keywords<E: Expression>(arguments: Seq<Node<FunctionArgument<E>>>) -> Seq<
    Option<Seq<char>>,
> {
    Seq::new(arguments.len(), |i: int| arguments[i].node.spec_keyword())
}

/// Argument `i` names parameter `p`.
pub open spec fn names(
    keywords: Seq<Seq<char>>,
    given: Seq<Option<Seq<char>>>,
    i: int,
    p: int,
) -> bool {
    given[i] matches Some(k) && position(keywords, k) == Some(p)
}

/// Argument `i` has a keyword that no parameter has.
pub open spec fn unknown(keywords: Seq<Seq<char>>, given: Seq<Option<Seq<char>>>, i: int) -> bool {
    given[i] matches Some(k) && position(keywords, k) is None
}

/// The first of the first `n` arguments whose keyword no parameter has.
pub open spec fn first_unknown(
    keywords: Seq<Seq<char>>,
    given: Seq<Option<Seq<char>>>,
    n: nat,
) -> Option<int>
    decreases n,
{
    if n == 0 {
        None
    } else {
        match first_unknown(keywords, given, (n - 1) as nat) {
            Some(i) => Some(i),
            None => if unknown(keywords, given, n - 1) {
                Some(n - 1)
            } else {
                None
            },
        }
    }
}

/// The last of the first `n` arguments that names parameter `p`.
pub open spec fn named(
    keywords: Seq<Seq<char>>,
    given: Seq<Option<Seq<char>>>,
    p: int,
    n: nat,
) -> Option<int>
    decreases n,
{
    if n == 0 {
        None
    } else if names(keywords, given, n - 1, p) {
        Some(n - 1)
    } else {
        named(keywords, given, p, (n - 1) as nat)
    }
}

/// How many of the first `p` parameters no argument names.
pub open spec fn holes(keywords: Seq<Seq<char>>, given: Seq<Option<Seq<char>>>, p: nat) -> nat
    decreases p,
{
    if p == 0 {
        0
    } else {
        holes(keywords, given, (p - 1) as nat) + if named(keywords, given, p - 1, given.len())
            is None {
            1nat
        } else {
            0nat
        }
    }
}

/// The arguments without a keyword among the first `n`, in the order in which
/// they are written.
pub open spec fn positional(given: Seq<Option<Seq<char>>>, n: nat) -> Seq<int>
    decreases n,
{
    if n == 0 {
        Seq::empty()
    } else if given[n - 1] is None {
        positional(given, (n - 1) as nat).push(n - 1)
    } else {
        positional(given, (n - 1) as nat)
    }
}

/// The argument that ends up at parameter `p`: the last one that names it;
/// or, where none does and `p` is the `h`-th parameter that no argument
/// names, the `h`-th argument without a keyword, if there are that many.
pub open spec fn placed(keywords: Seq<Seq<char>>, given: Seq<Option<Seq<char>>>, p: int) -> Option<
    int,
> {
    match named(keywords, given, p, given.len()) {
        Some(i) => Some(i),
        None => {
            let h = holes(keywords, given, p as nat);
            let free = positional(given, given.len());
            if h < free.len() {
                Some(free[h as int])
            } else {
                None
            }
        },
    }
}

/// Why the arguments cannot be laid out.
pub enum PlacementError {
    /// The argument at this place has a keyword that no parameter has.
    UnknownKeyword(int),
    /// There are more arguments without a keyword than parameters left for
    /// them.
    TooMany,
}

/// The arguments laid out in the order of the parameters: for each parameter
/// the place of the argument that it gets, if it gets one.
pub open spec fn placement(keywords: Seq<Seq<char>>, given: Seq<Option<Seq<char>>>) -> Result<
    Seq<Option<int>>,
    PlacementError,
> {
    match first_unknown(keywords, given, given.len()) {
        Some(i) => Err(PlacementError::UnknownKeyword(i)),
        None => if positional(given, given.len()).len() > holes(keywords, given, keywords.len()) {
            Err(PlacementError::TooMany)
        } else {
            Ok(Seq::new(keywords.len(), |p: int| placed(keywords, given, p)))
        },
    }
}

pub proof fn lemma_first_unknown_stays(
    keywords: Seq<Seq<char>>,
    given: Seq<Option<Seq<char>>>,
    i: nat,
    n: nat,
)
    requires
        i <= n,
        first_unknown(keywords, given, i) is Some,
    ensures
        first_unknown(keywords, given, n) == first_unknown(keywords, given, i),
    decreases n,
{
    if i < n {
        lemma_first_unknown_stays(keywords, given, i, (n - 1) as nat);
    }
}

/// What `named` returns is an argument that names the parameter, and no
/// later argument does.
pub proof fn lemma_named(keywords: Seq<Seq<char>>, given: Seq<Option<Seq<char>>>, p: int, n: nat)
    ensures
        match named(keywords, given, p, n) {
            Some(i) => 0 <= i < n && names(keywords, given, i, p) && forall|j: int|
                i < j < n ==> !names(keywords, given, j, p),
            None => forall|j: int| 0 <= j < n ==> !names(keywords, given, j, p),
        },
    decreases n,
{
    if n > 0 {
        lemma_named(keywords, given, p, (n - 1) as nat);
    }
}

/// The arguments without a keyword are listed in rising order, and each of
/// them is listed.
pub proof fn lemma_positional(given: Seq<Option<Seq<char>>>, n: nat)
    requires
        n <= given.len(),
    ensures
        positional(given, n).len() <= n,
        forall|k: int|
            0 <= k < positional(given, n).len() ==> 0 <= #[trigger] positional(given, n)[k] < n
                && given[positional(given, n)[k]] is None,
        forall|k: int, l: int|
            0 <= k < l < positional(given, n).len() ==> positional(given, n)[k] < positional(
                given,
                n,
            )[l],
        forall|i: int|
            0 <= i < n && given[i] is None ==> exists|k: int|
                0 <= k < positional(given, n).len() && #[trigger] positional(given, n)[k] == i,
    decreases n,
{
    if n > 0 {
        lemma_positional(given, (n - 1) as nat);
        let before = positional(given, (n - 1) as nat);
        let now = positional(given, n);
        assert forall|i: int| 0 <= i < n && given[i] is None implies exists|k: int|
            0 <= k < now.len() && #[trigger] now[k] == i by {
            if i == n - 1 {
                assert(now[before.len() as int] == i);
            } else {
                let k = choose|k: int| 0 <= k < before.len() && #[trigger] before[k] == i;
                assert(now[k] == i);
            }
        }
    }
}

/// The count of unnamed parameters grows with the prefix, and by one past
/// each unnamed parameter.
pub proof fn lemma_holes_monotone(
    keywords: Seq<Seq<char>>,
    given: Seq<Option<Seq<char>>>,
    p: nat,
    q: nat,
)
    requires
        p <= q,
    ensures
        holes(keywords, given, p) <= holes(keywords, given, q),
        p < q && named(keywords, given, p as int, given.len()) is None ==> holes(
            keywords,
            given,
            p,
        ) < holes(keywords, given, q),
    decreases q,
{
    if p < q {
        lemma_holes_monotone(keywords, given, p, (q - 1) as nat);
    }
}

/// Lays the arguments out in the order of the parameters.
pub fn place<E: Expression>(
    parameters: &[Parameter],
    arguments: &Vec<Node<FunctionArgument<E>>>,
) -> (result: Result<Vec<Option<usize>>, String>)
    ensures
        match placement(keywords_of(parameters@), given_keywords(arguments@)) {
            Ok(slots) => {
                &&& result matches Ok(v)
                &&& v@.len() == slots.len()
                &&& forall|p: int|
                    0 <= p < slots.len() ==> match #[trigger] slots[p] {
                        Some(i) => v@[p] == Some(i as usize) && 0 <= i < arguments@.len(),
                        None => v@[p] is None,
                    }
            },
            Err(PlacementError::UnknownKeyword(i)) => {
                &&& result matches Err(message)
                &&& 0 <= i < arguments@.len()
                &&& given_keywords(arguments@)[i] matches Some(k)
                &&& message@ == "parameter "@ + k + " not found."@
            },
            Err(PlacementError::TooMany) => {
                &&& result matches Err(message)
                &&& message@ == "Too many parameters"@
            },
        },
{
    let ghost keywords = keywords_of(parameters@);
    let ghost given = given_keywords(arguments@);
    let n = parameters.len();
    let mut slots: Vec<Option<usize>> = Vec::new();
    let mut p: usize = 0;
    while p < n
        invariant
            p <= n,
            slots@.len() == p,
            forall|q: int| 0 <= q < p ==> slots@[q] is None,
        decreases n - p,
    {
        slots.push(None);
        p += 1;
    }

    // Put the arguments with a keyword in their places and keep the others
    // for later.
    let mut unnamed: Vec<usize> = Vec::new();
    let mut i: usize = 0;
    while i < arguments.len()
        invariant
            i <= arguments@.len(),
            n == parameters@.len(),
            keywords == keywords_of(parameters@),
            given == given_keywords(arguments@),
            slots@.len() == n,
            first_unknown(keywords, given, i as nat) is None,
            forall|q: int|
                0 <= q < n ==> match named(keywords, given, q, i as nat) {
                    Some(a) => #[trigger] slots@[q] == Some(a as usize),
                    None => slots@[q] is None,
                },
            unnamed@.len() == positional(given, i as nat).len(),
            forall|k: int| 0 <= k < unnamed@.len() ==> #[trigger] unnamed@[k] == positional(
                given,
                i as nat,
            )[k],
        decreases arguments@.len() - i,
    {
        match arguments[i].node.keyword() {
            None => {
                unnamed.push(i);
            },
            Some(keyword) => {
                match find_parameter(parameters, keyword) {
                    None => {
                        let mut message = String::from_str("parameter ");
                        message.append(keyword);
                        message.append(" not found.");
                        proof {
                            assert(unknown(keywords, given, i as int));
                            assert(first_unknown(keywords, given, (i + 1) as nat) == Some(
                                i as int,
                            ));
                            lemma_first_unknown_stays(
                                keywords,
                                given,
                                (i + 1) as nat,
                                given.len(),
                            );
                        }
                        return Err(message);
                    },
                    Some(pos) => {
                        slots.set(pos, Some(i));
                    },
                }
            },
        }
        i += 1;
    }

    // Fill the places that are left with the other arguments, in order.
    let mut pos: usize = 0;
    let mut m: usize = 0;
    let ghost free = positional(given, given.len());
    proof {
        lemma_positional(given, given.len());
    }
    while m < unnamed.len()
        invariant
            m <= unnamed@.len(),
            pos <= n,
            n == keywords.len(),
            keywords == keywords_of(parameters@),
            given == given_keywords(arguments@),
            first_unknown(keywords, given, given.len()) is None,
            given.len() == arguments@.len(),
            slots@.len() == n,
            free == positional(given, given.len()),
            unnamed@.len() == free.len(),
            forall|k: int| 0 <= k < unnamed@.len() ==> #[trigger] unnamed@[k] == free[k],
            forall|k: int| 0 <= k < free.len() ==> 0 <= #[trigger] free[k] < given.len(),
            forall|q: int|
                0 <= q < n ==> #[trigger] slots@[q] == (match named(
                    keywords,
                    given,
                    q,
                    given.len(),
                ) {
                    Some(a) => Some(a as usize),
                    None => if holes(keywords, given, q as nat) < m {
                        Some(free[holes(keywords, given, q as nat) as int] as usize)
                    } else {
                        None
                    },
                }),
            forall|q: int| 0 <= q < pos ==> (#[trigger] slots@[q]) is Some,
            holes(keywords, given, pos as nat) <= m,
            holes(keywords, given, n as nat) >= m,
        decreases unnamed@.len() - m,
    {
        while pos < n && slots[pos].is_some()
            invariant
                pos <= n,
                slots@.len() == n,
                forall|q: int| 0 <= q < pos ==> (#[trigger] slots@[q]) is Some,
                forall|q: int|
                    0 <= q < n ==> #[trigger] slots@[q] == (match named(
                        keywords,
                        given,
                        q,
                        given.len(),
                    ) {
                        Some(a) => Some(a as usize),
                        None => if holes(keywords, given, q as nat) < m {
                            Some(free[holes(keywords, given, q as nat) as int] as usize)
                        } else {
                            None
                        },
                    }),
                holes(keywords, given, pos as nat) <= m,
            decreases n - pos,
        {
            proof {
                // A filled place adds no hole beyond those already counted.
                let q = pos as int;
                assert(slots@[q] is Some);
                if named(keywords, given, q, given.len()) is None {
                    assert(holes(keywords, given, q as nat) < m);
                }
            }
            pos += 1;
        }
        if pos >= n {
            proof {
                assert(holes(keywords, given, n as nat) <= m);
                assert(free.len() > holes(keywords, given, keywords.len()));
            }
            return Err(String::from_str("Too many parameters"));
        }
        proof {
            assert(slots@[pos as int] is None);
            assert(named(keywords, given, pos as int, given.len()) is None);
            assert(holes(keywords, given, pos as nat) == m);
            lemma_holes_monotone(keywords, given, pos as nat, n as nat);
            assert forall|q: int| 0 <= q < n && q != pos && named(
                keywords,
                given,
                q,
                given.len(),
            ) is None implies holes(keywords, given, q as nat) != m by {
                if q < pos {
                    lemma_holes_monotone(keywords, given, q as nat, pos as nat);
                } else {
                    lemma_holes_monotone(keywords, given, pos as nat, q as nat);
                }
            }
        }
        slots.set(pos, Some(unnamed[m]));
        m += 1;
    }
    proof {
        assert(free.len() <= holes(keywords, given, keywords.len()));
        assert forall|q: int| 0 <= q < n implies slots@[q] == (match placed(keywords, given, q) {
            Some(a) => Some(a as usize),
            None => None,
        }) by {
            assert(slots@[q] == (match named(keywords, given, q, given.len()) {
                Some(a) => Some(a as usize),
                None => if holes(keywords, given, q as nat) < m {
                    Some(free[holes(keywords, given, q as nat) as int] as usize)
                } else {
                    None
                },
            }));
        }
        let want = Seq::new(keywords.len(), |p: int| placed(keywords, given, p));
        assert forall|q: int| 0 <= q < n implies match #[trigger] want[q] {
            Some(a) => slots@[q] == Some(a as usize) && 0 <= a < arguments@.len(),
            None => slots@[q] is None,
        } by {
            lemma_named(keywords, given, q, given.len());
        }
    }
    Ok(slots)
}

} // verus!
