//! The edit distance between two texts.

use vstd::prelude::*;

verus! {

pub open spec fn min2(a: nat, b: nat) -> nat {
    if a <= b {
        a
    } else {
        b
    }
}

/// The least number of characters to insert, delete or replace to turn `a`
/// into `b`.
pub open spec fn spec_distance(a: Seq<char>, b: Seq<char>) -> nat
    decreases a.len() + b.len(),
{
    if a.len() == 0 {
        b.len()
    } else if b.len() == 0 {
        a.len()
    } else {
        let replaced = spec_distance(a.drop_last(), b.drop_last()) + if a.last() == b.last() {
            0nat
        } else {
            1nat
        };
        let deleted = spec_distance(a.drop_last(), b) + 1;
        let inserted = spec_distance(a, b.drop_last()) + 1;
        min2(replaced, min2(deleted, inserted))
    }
}

/// The distance is at most the length of the longer text.
pub proof fn lemma_distance_bound(a: Seq<char>, b: Seq<char>)
    ensures
        spec_distance(a, b) <= a.len() || spec_distance(a, b) <= b.len(),
    decreases a.len() + b.len(),
{
    if a.len() > 0 && b.len() > 0 {
        lemma_distance_bound(a.drop_last(), b.drop_last());
    }
}

/// The edit distance between two texts.
pub fn distance(a: &Vec<char>, b: &Vec<char>) -> (d: usize)
    ensures
        d == spec_distance(a@, b@),
{
    let n = a.len();
    let m = b.len();
    // `prev[j]` is the distance between the first `i` characters of `a` and
    // the first `j` characters of `b`.
    let mut prev: Vec<usize> = Vec::new();
    let mut j: usize = 0;
    while j < m
        invariant
            j <= m,
            prev@.len() == j,
            forall|k: int| 0 <= k < j ==> prev@[k] == k,
        decreases m - j,
    {
        prev.push(j);
        j += 1;
    }
    prev.push(m);
    assert forall|k: int| 0 <= k <= m implies prev@[k] == spec_distance(
        a@.take(0),
        b@.take(k),
    ) by {
    }
    let mut i: usize = 0;
    while i < n
        invariant
            i <= n,
            n == a@.len(),
            m == b@.len(),
            prev@.len() == m + 1,
            forall|k: int|
                0 <= k <= m ==> #[trigger] prev@[k] == spec_distance(a@.take(i as int), b@.take(k)),
        decreases n - i,
    {
        let mut cur: Vec<usize> = Vec::new();
        cur.push(i + 1);
        let mut j: usize = 0;
        while j < m
            invariant
                i < n,
                j <= m,
                n == a@.len(),
                m == b@.len(),
                prev@.len() == m + 1,
                cur@.len() == j + 1,
                forall|k: int|
                    0 <= k <= m ==> #[trigger] prev@[k] == spec_distance(
                        a@.take(i as int),
                        b@.take(k),
                    ),
                forall|k: int|
                    0 <= k <= j ==> #[trigger] cur@[k] == spec_distance(
                        a@.take(i + 1),
                        b@.take(k),
                    ),
            decreases m - j,
        {
            let ghost x = a@.take(i + 1);
            let ghost y = b@.take(j + 1);
            proof {
                assert(x.drop_last() =~= a@.take(i as int));
                assert(y.drop_last() =~= b@.take(j as int));
                lemma_distance_bound(a@.take(i as int), b@.take(j as int));
            }
            let other = if prev[j + 1] <= cur[j] {
                prev[j + 1]
            } else {
                cur[j]
            };
            let best = if a[i] == b[j] {
                if other < prev[j] {
                    other + 1
                } else {
                    prev[j]
                }
            } else {
                if other < prev[j] {
                    other + 1
                } else {
                    prev[j] + 1
                }
            };
            cur.push(best);
            j += 1;
        }
        prev = cur;
        i += 1;
    }
    assert(a@.take(n as int) =~= a@);
    assert(b@.take(m as int) =~= b@);
    prev[m]
}

} // verus!
