//! Insertion-ordered map and set. Their iteration order feeds challenge
//! derivation, so it must be the same on the prover's and the verifier's side.
use vstd::prelude::*;

verus! {

/// A key that can be compared by its view.
pub trait MapKey: View + Sized {
    fn key_eq(&self, o: &Self) -> (r: bool)
        ensures
            r == (self@ == o@),
    ;
}

impl MapKey for String {
    fn key_eq(&self, o: &Self) -> (r: bool) {
        *self == *o
    }
}

/// A map that remembers the order in which its keys were first inserted.
#[derive(Debug, PartialEq, Eq)]
pub struct IndexMap<K, V> {
    entries: Vec<(K, V)>,
}

impl<K: MapKey, V> IndexMap<K, V> {
    /// The keys' views, in insertion order.
    pub closed spec fn keys(&self) -> Seq<K::V> {
        Seq::new(self.entries@.len(), |i: int| self.entries@[i].0@)
    }

    /// The values, in the order of their keys.
    pub closed spec fn values(&self) -> Seq<V> {
        Seq::new(self.entries@.len(), |i: int| self.entries@[i].1)
    }

    /// No key occurs twice.
    pub open spec fn wf(&self) -> bool {
        &&& self.keys().no_duplicates()
        &&& self.keys().len() == self.values().len()
    }

    pub open spec fn contains(&self, k: K::V) -> bool {
        self.keys().contains(k)
    }

    /// The value stored under `k`, when `k` is present.
    pub open spec fn spec_get(&self, k: K::V) -> V {
        self.values()[self.keys().index_of(k)]
    }

    pub fn new() -> (r: Self)
        ensures
            r.wf(),
            r.keys() == Seq::<K::V>::empty(),
            r.values() == Seq::<V>::empty(),
    {
        let r = IndexMap { entries: Vec::new() };
        assert(r.keys() =~= Seq::<K::V>::empty());
        assert(r.values() =~= Seq::<V>::empty());
        r
    }

    pub fn len(&self) -> (r: usize)
        ensures
            r == self.keys().len(),
            r == self.values().len(),
    {
        self.entries.len()
    }

    /// The key and value at position `i` of the insertion order.
    pub fn get_index(&self, i: usize) -> (r: (&K, &V))
        requires
            i < self.keys().len(),
        ensures
            r.0@ == self.keys()[i as int],
            *r.1 == self.values()[i as int],
    {
        let e = &self.entries[i];
        (&e.0, &e.1)
    }

    /// The position of `k` in the insertion order, if present.
    pub fn get_index_of(&self, k: &K) -> (r: Option<usize>)
        requires
            self.wf(),
        ensures
            r is None <==> !self.contains(k@),
            r matches Some(i) ==> i < self.keys().len() && self.keys()[i as int] == k@
                && self.keys().index_of(k@) == i,
    {
        let mut i: usize = 0;
        while i < self.entries.len()
            invariant
                i <= self.entries@.len(),
                self.wf(),
                forall|j: int| 0 <= j < i ==> self.keys()[j] != k@,
            decreases self.entries@.len() - i,
        {
            if self.entries[i].0.key_eq(k) {
                let ghost ks = self.keys();
                assert(ks[i as int] == k@);
                assert(ks.index_of(k@) == i as int) by {
                    let j = ks.index_of(k@);
                    assert(ks.contains(k@));
                    assert(0 <= j < ks.len() && ks[j] == k@);
                    assert(ks.no_duplicates());
                    if j != i as int {
                        assert(ks[j] != ks[i as int]);
                    }
                }
                return Some(i);
            }
            i = i + 1;
        }
        proof {
            assert forall|j: int| 0 <= j < self.keys().len() implies self.keys()[j] != k@ by {}
        }
        None
    }

    /// The value stored under `k`, if present.
    pub fn get(&self, k: &K) -> (r: Option<&V>)
        requires
            self.wf(),
        ensures
            r is None <==> !self.contains(k@),
            r matches Some(v) ==> *v == self.spec_get(k@),
    {
        match self.get_index_of(k) {
            Some(i) => Some(&self.entries[i].1),
            None => None,
        }
    }

    /// Stores `v` under `k`. A new key goes last; an existing key keeps its
    /// position and has its value replaced.
    pub fn insert(&mut self, k: K, v: V)
        requires
            old(self).wf(),
        ensures
            final(self).wf(),
            old(self).contains(k@) ==> final(self).keys() == old(self).keys()
                && final(self).values() == old(self).values().update(
                old(self).keys().index_of(k@),
                v,
            ),
            !old(self).contains(k@) ==> final(self).keys() == old(self).keys().push(k@)
                && final(self).values() == old(self).values().push(v),
    {
        match self.get_index_of(&k) {
            Some(i) => {
                self.entries.remove(i);
                self.entries.insert(i, (k, v));
                assert(self.keys() =~= old(self).keys());
                assert(self.values() =~= old(self).values().update(i as int, v));
            },
            None => {
                self.entries.push((k, v));
                assert(self.keys() =~= old(self).keys().push(k@));
                assert(self.values() =~= old(self).values().push(v));
            },
        }
    }
}

/// A set that remembers the order in which its elements were first inserted.
#[derive(Debug, PartialEq, Eq)]
pub struct IndexSet<K> {
    items: Vec<K>,
}

impl<K: MapKey> IndexSet<K> {
    /// The elements' views, in insertion order.
    pub closed spec fn items(&self) -> Seq<K::V> {
        Seq::new(self.items@.len(), |i: int| self.items@[i]@)
    }

    pub open spec fn wf(&self) -> bool {
        self.items().no_duplicates()
    }

    pub fn new() -> (r: Self)
        ensures
            r.wf(),
            r.items() == Seq::<K::V>::empty(),
    {
        let r = IndexSet { items: Vec::new() };
        assert(r.items() =~= Seq::<K::V>::empty());
        r
    }

    pub fn len(&self) -> (r: usize)
        ensures
            r == self.items().len(),
    {
        self.items.len()
    }

    pub fn contains(&self, k: &K) -> (r: bool)
        ensures
            r == self.items().contains(k@),
    {
        let mut i: usize = 0;
        while i < self.items.len()
            invariant
                i <= self.items@.len(),
                forall|j: int| 0 <= j < i ==> self.items()[j] != k@,
            decreases self.items@.len() - i,
        {
            if self.items[i].key_eq(k) {
                assert(self.items()[i as int] == k@);
                return true;
            }
            i = i + 1;
        }
        false
    }

    /// Adds `k` at the end unless an equal element is already present.
    pub fn insert(&mut self, k: K) -> (r: bool)
        requires
            old(self).wf(),
        ensures
            final(self).wf(),
            r == !old(self).items().contains(k@),
            r ==> final(self).items() == old(self).items().push(k@),
            !r ==> final(self).items() == old(self).items(),
    {
        if self.contains(&k) {
            false
        } else {
            self.items.push(k);
            assert(self.items() =~= old(self).items().push(k@));
            true
        }
    }
}

} // verus!
