//! A small map from names to values that remembers insertion order.

use vstd::prelude::*;
use crate::text::str_eq;

verus! {

/// What `map` holds for `name`, if anything.
pub open spec fn lookup<V>(map: Map<Seq<char>, V>, name: Seq<char>) -> Option<V> {
    if map.dom().contains(name) {
        Some(map[name])
    } else {
        None
    }
}

/// A finite map keyed by text. No key is stored twice.
#[derive(Debug)]
pub struct Table<V> {
    keys: Vec<String>,
    values: Vec<V>,
}

impl<V> Table<V> {
    /// Keys and values line up, and no two keys are the same text.
    pub closed spec fn wf(&self) -> bool {
        &&& self.keys@.len() == self.values@.len()
        &&& forall|i: int, j: int|
            0 <= i < j < self.keys@.len() ==> (#[trigger] self.keys@[i])@ != (
            #[trigger] self.keys@[j])@
    }

    closed spec fn holds(&self, key: Seq<char>, i: int) -> bool {
        0 <= i < self.keys@.len() && self.keys@[i]@ == key
    }

    /// The map that the table stands for.
    pub closed spec fn view(&self) -> Map<Seq<char>, V> {
        Map::new(
            |k: Seq<char>| exists|i: int| self.holds(k, i),
            |k: Seq<char>| self.values@[choose|i: int| self.holds(k, i)],
        )
    }

    pub fn new() -> (table: Self)
        ensures
            table.wf(),
            table@ == Map::<Seq<char>, V>::empty(),
    {
        let table = Table { keys: Vec::new(), values: Vec::new() };
        assert(table@ =~= Map::<Seq<char>, V>::empty());
        table
    }

    proof fn lemma_slot(&self, key: Seq<char>, i: int)
        requires
            self.wf(),
            self.holds(key, i),
        ensures
            self@.dom().contains(key),
            self@[key] == self.values@[i],
    {
        let j = choose|j: int| self.holds(key, j);
        assert(self.holds(key, j));
        assert(i == j);
    }

    proof fn lemma_absent(&self, key: Seq<char>)
        requires
            forall|i: int| 0 <= i < self.keys@.len() ==> (#[trigger] self.keys@[i])@ != key,
        ensures
            !self@.dom().contains(key),
    {
        if self@.dom().contains(key) {
            let j = choose|j: int| self.holds(key, j);
            assert(self.holds(key, j));
        }
    }

    fn position(&self, key: &str) -> (r: Option<usize>)
        requires
            self.wf(),
        ensures
            match r {
                Some(i) => self.holds(key@, i as int) && self@.dom().contains(key@) && self@[key@]
                    == self.values@[i as int],
                None => !self@.dom().contains(key@) && forall|i: int|
                    0 <= i < self.keys@.len() ==> (#[trigger] self.keys@[i])@ != key@,
            },
    {
        let mut i: usize = 0;
        while i < self.keys.len()
            invariant
                self.wf(),
                i <= self.keys@.len(),
                forall|j: int| 0 <= j < i ==> (#[trigger] self.keys@[j])@ != key@,
            decreases self.keys@.len() - i,
        {
            if str_eq(self.keys[i].as_str(), key) {
                proof {
                    self.lemma_slot(key@, i as int);
                }
                return Some(i);
            }
            i += 1;
        }
        proof {
            self.lemma_absent(key@);
        }
        None
    }

    /// How many keys the table holds.
    pub fn len(&self) -> (n: usize)
        requires
            self.wf(),
        ensures
            self@.dom().finite(),
            n == self@.dom().len(),
    {
        proof {
            self.lemma_len();
        }
        self.keys.len()
    }

    /// The keys of the table, each once, in the order in which they came in.
    pub fn keys(&self) -> (keys: Vec<String>)
        requires
            self.wf(),
        ensures
            keys@.len() == self@.dom().len(),
            forall|i: int| 0 <= i < keys@.len() ==> self@.dom().contains(#[trigger] keys@[i]@),
            forall|i: int, j: int|
                0 <= i < j < keys@.len() ==> (#[trigger] keys@[i])@ != (#[trigger] keys@[j])@,
            forall|k: Seq<char>|
                self@.dom().contains(k) ==> exists|i: int|
                    0 <= i < keys@.len() && (#[trigger] keys@[i])@ == k,
    {
        let mut keys: Vec<String> = Vec::new();
        let mut i: usize = 0;
        while i < self.keys.len()
            invariant
                self.wf(),
                i <= self.keys@.len(),
                keys@.len() == i,
                forall|j: int| 0 <= j < i ==> (#[trigger] keys@[j])@ == self.keys@[j]@,
            decreases self.keys@.len() - i,
        {
            keys.push(self.keys[i].clone());
            i += 1;
        }
        proof {
            self.lemma_len();
            assert forall|i: int| 0 <= i < keys@.len() implies self@.dom().contains(
                #[trigger] keys@[i]@,
            ) by {
                assert(self.holds(keys@[i]@, i));
            }
            assert forall|k: Seq<char>| self@.dom().contains(k) implies exists|i: int|
                0 <= i < keys@.len() && (#[trigger] keys@[i])@ == k by {
                let i = choose|i: int| self.holds(k, i);
                assert(self.holds(k, i));
                assert(keys@[i]@ == k);
            }
        }
        keys
    }

    proof fn lemma_len(&self)
        requires
            self.wf(),
        ensures
            self@.dom().finite(),
            self@.dom().len() == self.keys@.len(),
    {
        let n = self.keys@.len() as int;
        let keys = self.keys@;
        let named = Set::new(|k: Seq<char>| exists|i: int| 0 <= i < n && keys[i]@ == k);
        lemma_prefix_keys(keys, n);
        assert(self@.dom() =~= named) by {
            assert forall|k: Seq<char>| self@.dom().contains(k) implies named.contains(k) by {
                let i = choose|i: int| self.holds(k, i);
                assert(self.holds(k, i));
                assert(0 <= i < n && keys[i]@ == k);
            }
            assert forall|k: Seq<char>| named.contains(k) implies self@.dom().contains(k) by {
                let i = choose|i: int| 0 <= i < n && keys[i]@ == k;
                assert(self.holds(k, i));
            }
        }
    }

    pub fn contains_key(&self, key: &str) -> (r: bool)
        requires
            self.wf(),
        ensures
            r == self@.dom().contains(key@),
    {
        self.position(key).is_some()
    }

    pub fn get(&self, key: &str) -> (r: Option<&V>)
        requires
            self.wf(),
        ensures
            match r {
                Some(value) => lookup(self@, key@) == Some(*value),
                None => lookup(self@, key@) is None,
            },
    {
        match self.position(key) {
            Some(i) => Some(&self.values[i]),
            None => None,
        }
    }

    /// Binds `key` to `value`; an earlier binding of the same key is replaced.
    pub fn insert(&mut self, key: &str, value: V)
        requires
            old(self).wf(),
        ensures
            final(self).wf(),
            final(self)@ == old(self)@.insert(key@, value),
    {
        match self.position(key) {
            Some(i) => {
                self.values.set(i, value);
                proof {
                    assert(self.wf());
                    assert forall|k: Seq<char>| #[trigger]
                        self@.dom().contains(k) == old(self)@.insert(key@, value).dom().contains(
                            k,
                        ) by {
                        if self@.dom().contains(k) {
                            let j = choose|j: int| self.holds(k, j);
                            assert(self.holds(k, j));
                            assert(old(self).holds(k, j));
                        }
                        if old(self)@.dom().contains(k) {
                            let j = choose|j: int| old(self).holds(k, j);
                            assert(old(self).holds(k, j));
                            assert(self.holds(k, j));
                        }
                        if k == key@ {
                            assert(self.holds(k, i as int));
                        }
                    }
                    assert forall|k: Seq<char>| self@.dom().contains(k) implies #[trigger] self@[k]
                        == old(self)@.insert(key@, value)[k] by {
                        let j = choose|j: int| self.holds(k, j);
                        assert(self.holds(k, j));
                        self.lemma_slot(k, j);
                        if k != key@ {
                            assert(old(self).holds(k, j));
                            old(self).lemma_slot(k, j);
                        } else {
                            assert(j == i);
                        }
                    }
                    assert(self@ =~= old(self)@.insert(key@, value));
                }
            },
            None => {
                let ghost n = self.keys@.len() as int;
                self.keys.push(String::from_str(key));
                self.values.push(value);
                proof {
                    assert(self.wf());
                    assert(self.holds(key@, n));
                    assert forall|k: Seq<char>| #[trigger]
                        self@.dom().contains(k) == old(self)@.insert(key@, value).dom().contains(
                            k,
                        ) by {
                        if self@.dom().contains(k) {
                            let j = choose|j: int| self.holds(k, j);
                            assert(self.holds(k, j));
                            if j < n {
                                assert(old(self).holds(k, j));
                            }
                        }
                        if old(self)@.dom().contains(k) {
                            let j = choose|j: int| old(self).holds(k, j);
                            assert(old(self).holds(k, j));
                            assert(self.holds(k, j));
                        }
                    }
                    assert forall|k: Seq<char>| self@.dom().contains(k) implies #[trigger] self@[k]
                        == old(self)@.insert(key@, value)[k] by {
                        let j = choose|j: int| self.holds(k, j);
                        assert(self.holds(k, j));
                        self.lemma_slot(k, j);
                        if k != key@ {
                            assert(old(self).holds(k, j));
                            old(self).lemma_slot(k, j);
                        } else {
                            assert(j == n);
                        }
                    }
                    assert(self@ =~= old(self)@.insert(key@, value));
                }
            },
        }
    }

    /// Unbinds `key` and returns what it was bound to.
    pub fn remove(&mut self, key: &str) -> (prior: Option<V>)
        requires
            old(self).wf(),
        ensures
            final(self).wf(),
            final(self)@ == old(self)@.remove(key@),
            prior == lookup(old(self)@, key@),
    {
        match self.position(key) {
            Some(i) => {
                let _ = self.keys.remove(i);
                let value = self.values.remove(i);
                proof {
                    assert(self.wf());
                    assert forall|k: Seq<char>| #[trigger]
                        self@.dom().contains(k) == old(self)@.remove(key@).dom().contains(k) by {
                        if self@.dom().contains(k) {
                            let j = choose|j: int| self.holds(k, j);
                            assert(self.holds(k, j));
                            let jj = if j < i { j } else { j + 1 };
                            assert(old(self).holds(k, jj));
                        }
                        if old(self)@.dom().contains(k) && k != key@ {
                            let j = choose|j: int| old(self).holds(k, j);
                            assert(old(self).holds(k, j));
                            let jj = if j < i { j } else { j - 1 };
                            assert(self.holds(k, jj));
                        }
                    }
                    assert forall|k: Seq<char>| self@.dom().contains(k) implies #[trigger] self@[k]
                        == old(self)@.remove(key@)[k] by {
                        let j = choose|j: int| self.holds(k, j);
                        assert(self.holds(k, j));
                        self.lemma_slot(k, j);
                        let jj = if j < i { j } else { j + 1 };
                        assert(old(self).holds(k, jj));
                        old(self).lemma_slot(k, jj);
                    }
                    assert(self@ =~= old(self)@.remove(key@));
                }
                Some(value)
            },
            None => {
                assert(self@ =~= old(self)@.remove(key@));
                None
            },
        }
    }
}

proof fn lemma_prefix_keys(keys: Seq<String>, n: int)
    requires
        0 <= n <= keys.len(),
        forall|i: int, j: int|
            0 <= i < j < keys.len() ==> (#[trigger] keys[i])@ != (#[trigger] keys[j])@,
    ensures
        Set::new(|k: Seq<char>| exists|i: int| 0 <= i < n && keys[i]@ == k).finite(),
        Set::new(|k: Seq<char>| exists|i: int| 0 <= i < n && keys[i]@ == k).len() == n,
    decreases n,
{
    let s = Set::new(|k: Seq<char>| exists|i: int| 0 <= i < n && keys[i]@ == k);
    if n == 0 {
        assert(s =~= Set::<Seq<char>>::empty());
    } else {
        let r = Set::new(|k: Seq<char>| exists|i: int| 0 <= i < n - 1 && keys[i]@ == k);
        lemma_prefix_keys(keys, n - 1);
        let last = keys[n - 1]@;
        assert(s =~= r.insert(last)) by {
            assert forall|k: Seq<char>| s.contains(k) implies r.insert(last).contains(k) by {
                let i = choose|i: int| 0 <= i < n && keys[i]@ == k;
                if i < n - 1 {
                    assert(0 <= i < n - 1 && keys[i]@ == k);
                }
            }
            assert forall|k: Seq<char>| r.insert(last).contains(k) implies s.contains(k) by {
                if k == last {
                    assert(0 <= n - 1 < n && keys[n - 1]@ == k);
                } else {
                    let i = choose|i: int| 0 <= i < n - 1 && keys[i]@ == k;
                    assert(0 <= i < n && keys[i]@ == k);
                }
            }
        }
        assert(!r.contains(last)) by {
            if r.contains(last) {
                let i = choose|i: int| 0 <= i < n - 1 && keys[i]@ == last;
                assert(keys[i]@ != keys[n - 1]@);
            }
        }
    }
}

impl<V: Copy> Table<V> {
    /// A table with the same bindings.
    pub fn duplicate(&self) -> (copy: Self)
        requires
            self.wf(),
        ensures
            copy.wf(),
            copy@ == self@,
    {
        let mut keys: Vec<String> = Vec::new();
        let mut values: Vec<V> = Vec::new();
        let mut i: usize = 0;
        while i < self.keys.len()
            invariant
                self.wf(),
                i <= self.keys@.len(),
                keys@.len() == i,
                values@.len() == i,
                forall|j: int| 0 <= j < i ==> (#[trigger] keys@[j])@ == self.keys@[j]@,
                forall|j: int| 0 <= j < i ==> #[trigger] values@[j] == self.values@[j],
            decreases self.keys@.len() - i,
        {
            keys.push(self.keys[i].clone());
            values.push(self.values[i]);
            i += 1;
        }
        let copy = Table { keys, values };
        proof {
            assert(copy.wf());
            assert forall|k: Seq<char>| #[trigger] copy@.dom().contains(k) == self@.dom().contains(
                k,
            ) by {
                if copy@.dom().contains(k) {
                    let j = choose|j: int| copy.holds(k, j);
                    assert(copy.holds(k, j));
                    assert(self.holds(k, j));
                }
                if self@.dom().contains(k) {
                    let j = choose|j: int| self.holds(k, j);
                    assert(self.holds(k, j));
                    assert(copy.holds(k, j));
                }
            }
            assert forall|k: Seq<char>| copy@.dom().contains(k) implies #[trigger] copy@[k]
                == self@[k] by {
                let j = choose|j: int| copy.holds(k, j);
                assert(copy.holds(k, j));
                copy.lemma_slot(k, j);
                assert(self.holds(k, j));
                self.lemma_slot(k, j);
            }
            assert(copy@ =~= self@);
        }
        copy
    }
}

} // verus!
