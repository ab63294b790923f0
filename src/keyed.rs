//! A table of values keyed by text, with unique keys, viewed as a map.

use vstd::prelude::*;
use crate::text::text_eq;

verus! {

/// Entries in insertion order; no key occurs twice.
pub struct KeyedVec<V> {
    pub entries: Vec<(String, V)>,
}

impl<V> KeyedVec<V> {
    /// No two entries share a key.
    pub open spec fn wf(&self) -> bool {
        forall|i: int, j: int|
            0 <= i < self.entries@.len() && 0 <= j < self.entries@.len() && i != j
                ==> #[trigger] self.entries@[i].0@ != #[trigger] self.entries@[j].0@
    }

    /// An index of an entry with key `k`.
    pub open spec fn has_key_at(&self, k: Seq<char>, i: int) -> bool {
        0 <= i < self.entries@.len() && self.entries@[i].0@ == k
    }

    /// The table as a map from key to value.
    pub open spec fn view(&self) -> Map<Seq<char>, V> {
        Map::new(
            |k: Seq<char>| exists|i: int| #[trigger] self.has_key_at(k, i),
            |k: Seq<char>| self.entries@[choose|i: int| #[trigger] self.has_key_at(k, i)].1,
        )
    }

    /// With unique keys, the entry at `i` is what the map holds for its key.
    pub proof fn lemma_entry_in_view(&self, i: int)
        requires
            self.wf(),
            0 <= i < self.entries@.len(),
        ensures
            self@.contains_key(self.entries@[i].0@),
            self@[self.entries@[i].0@] == self.entries@[i].1,
    {
        let k = self.entries@[i].0@;
        assert(self.has_key_at(k, i));
        let j = choose|j: int| #[trigger] self.has_key_at(k, j);
        assert(self.has_key_at(k, j));
        assert(i == j);
    }

    /// An empty table.
    pub fn new() -> (r: Self)
        ensures
            r.wf(),
            r@ == Map::<Seq<char>, V>::empty(),
    {
        let r = KeyedVec { entries: Vec::new() };
        assert(r@ =~= Map::<Seq<char>, V>::empty());
        r
    }

    /// The number of entries.
    pub fn len(&self) -> (r: usize)
        requires
            self.wf(),
        ensures
            r == self@.dom().len(),
    {
        proof { self.lemma_len(); }
        self.entries.len()
    }

    /// With unique keys, there are as many keys as entries.
    proof fn lemma_len(&self)
        requires
            self.wf(),
        ensures
            self@.dom().len() == self.entries@.len(),
            self@.dom().finite(),
    {
        let keys = Seq::new(self.entries@.len(), |i: int| self.entries@[i].0@);
        assert(keys.no_duplicates()) by {
            assert forall|i: int, j: int| 0 <= i < keys.len() && 0 <= j < keys.len() && i != j
                implies keys[i] != keys[j] by {
                assert(self.entries@[i].0@ != self.entries@[j].0@);
            }
        }
        assert(self@.dom() =~= keys.to_set()) by {
            assert forall|k: Seq<char>| self@.dom().contains(k) implies keys.to_set().contains(k) by {
                let i = choose|i: int| #[trigger] self.has_key_at(k, i);
                assert(keys[i] == k);
            }
            assert forall|k: Seq<char>| keys.to_set().contains(k) implies self@.dom().contains(k) by {
                let i = choose|i: int| 0 <= i < keys.len() && keys[i] == k;
                assert(self.has_key_at(k, i));
            }
        }
        keys.unique_seq_to_set();
    }

    /// The index of the entry with key `k`, if there is one.
    pub fn index_of(&self, k: &str) -> (r: Option<usize>)
        requires
            self.wf(),
        ensures
            r is None <==> !self@.contains_key(k@),
            r is Some ==> self.has_key_at(k@, r->0 as int),
    {
        let n = self.entries.len();
        let mut i: usize = 0;
        while i < n
            invariant
                n == self.entries@.len(),
                i <= n,
                forall|j: int| 0 <= j < i ==> self.entries@[j].0@ != k@,
            decreases n - i,
        {
            if text_eq(self.entries[i].0.as_str(), k) {
                assert(self.has_key_at(k@, i as int));
                return Some(i);
            }
            i = i + 1;
        }
        assert forall|j: int| !(#[trigger] self.has_key_at(k@, j)) by {}
        None
    }

    /// The value stored under `k`.
    pub fn get(&self, k: &str) -> (r: Option<&V>)
        requires
            self.wf(),
        ensures
            r is None <==> !self@.contains_key(k@),
            r is Some ==> *r->0 == self@[k@],
    {
        match self.index_of(k) {
            Some(i) => {
                proof { self.lemma_entry_in_view(i as int); }
                Some(&self.entries[i].1)
            },
            None => None,
        }
    }

    /// Whether some entry has key `k`.
    pub fn contains(&self, k: &str) -> (r: bool)
        requires
            self.wf(),
        ensures
            r == self@.contains_key(k@),
    {
        self.index_of(k).is_some()
    }

    /// Takes the entry with key `k` out of the table and returns its value.
    pub fn remove(&mut self, k: &str) -> (r: Option<V>)
        requires
            old(self).wf(),
        ensures
            final(self).wf(),
            final(self)@ == old(self)@.remove(k@),
            r is None <==> !old(self)@.contains_key(k@),
            r is Some ==> r->0 == old(self)@[k@],
    {
        match self.index_of(k) {
            None => {
                assert(self@ =~= self@.remove(k@));
                None
            },
            Some(i) => {
                proof { self.lemma_entry_in_view(i as int); }
                let ghost before = *self;
                let (_, v) = self.entries.remove(i);
                assert(self.wf()) by {
                    assert forall|a: int, b: int|
                        0 <= a < self.entries@.len() && 0 <= b < self.entries@.len() && a != b
                        implies #[trigger] self.entries@[a].0@ != #[trigger] self.entries@[b].0@ by {
                        let a0 = if a < i { a } else { a + 1 };
                        let b0 = if b < i { b } else { b + 1 };
                        assert(before.entries@[a0].0@ != before.entries@[b0].0@);
                    }
                }
                assert forall|key: Seq<char>| #[trigger] self@.contains_key(key)
                    == before@.remove(k@).contains_key(key) by {
                    if self@.contains_key(key) {
                        let a = choose|a: int| #[trigger] self.has_key_at(key, a);
                        let a0 = if a < i { a } else { a + 1 };
                        assert(before.has_key_at(key, a0));
                    }
                    if before@.remove(k@).contains_key(key) {
                        let a0 = choose|a: int| #[trigger] before.has_key_at(key, a);
                        assert(a0 != i);
                        let a = if a0 < i { a0 } else { a0 - 1 };
                        assert(self.has_key_at(key, a));
                    }
                }
                assert forall|key: Seq<char>| #[trigger] self@.contains_key(key)
                    implies self@[key] == before@.remove(k@)[key] by {
                    let a = choose|a: int| #[trigger] self.has_key_at(key, a);
                    let a0 = if a < i { a } else { a + 1 };
                    self.lemma_entry_in_view(a);
                    before.lemma_entry_in_view(a0);
                }
                assert(self@ =~= before@.remove(k@));
                Some(v)
            },
        }
    }

    /// Stores `v` under `k`, replacing what was stored there.
    pub fn insert(&mut self, k: String, v: V)
        requires
            old(self).wf(),
        ensures
            final(self).wf(),
            final(self)@ == old(self)@.insert(k@, v),
    {
        let _ = self.remove(k.as_str());
        let ghost mid = *self;
        let ghost key = k@;
        self.entries.push((k, v));
        let ghost n = mid.entries@.len() as int;
        assert(!mid@.contains_key(key));
        assert(self.entries@[n].0@ == key);
        assert(self.wf()) by {
            assert forall|a: int, b: int|
                0 <= a < self.entries@.len() && 0 <= b < self.entries@.len() && a != b
                implies #[trigger] self.entries@[a].0@ != #[trigger] self.entries@[b].0@ by {
                if a < n && b < n {
                    assert(mid.entries@[a].0@ != mid.entries@[b].0@);
                } else if a < n {
                    assert(mid.has_key_at(self.entries@[a].0@, a));
                } else {
                    assert(mid.has_key_at(self.entries@[b].0@, b));
                }
            }
        }
        assert forall|key2: Seq<char>| #[trigger] self@.contains_key(key2)
            == mid@.insert(key, v).contains_key(key2) by {
            if self@.contains_key(key2) {
                let a = choose|a: int| #[trigger] self.has_key_at(key2, a);
                if a < n {
                    assert(mid.has_key_at(key2, a));
                }
            }
            if mid@.contains_key(key2) {
                let a = choose|a: int| #[trigger] mid.has_key_at(key2, a);
                assert(self.has_key_at(key2, a));
            }
            if key2 == key {
                assert(self.has_key_at(key2, n));
            }
        }
        assert forall|key2: Seq<char>| #[trigger] self@.contains_key(key2)
            implies self@[key2] == mid@.insert(key, v)[key2] by {
            let a = choose|a: int| #[trigger] self.has_key_at(key2, a);
            self.lemma_entry_in_view(a);
            if a < n {
                mid.lemma_entry_in_view(a);
            }
        }
        assert(self@ =~= mid@.insert(key, v));
    }
}

} // verus!
