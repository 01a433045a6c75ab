//! A keyed store: at most one value under each post identifier.

use crate::types::{hash_eq, PostId};
use vstd::prelude::*;

verus! {

/// A key and the value stored under it.
struct Entry<V> {
    key: PostId,
    value: V,
}

/// A map from post identifiers to values, kept as a vector of entries in
/// which no key occurs twice.
pub struct StorageMap<V> {
    entries: Vec<Entry<V>>,
}

impl<V> View for StorageMap<V> {
    type V = Map<Seq<u8>, V>;

    /// The map that the store stands for: each key's bytes to the value
    /// held beside it.
    closed spec fn view(&self) -> Map<Seq<u8>, V> {
        Map::new(|k: Seq<u8>| self.holds(k), |k: Seq<u8>| self.entries@[self.slot(k)].value)
    }
}

impl<V> StorageMap<V> {
    /// Whether slot `i` holds the key `k`.
    spec fn at(&self, i: int, k: Seq<u8>) -> bool {
        0 <= i < self.entries@.len() && self.entries@[i].key@ == k
    }

    /// Whether some slot holds the key `k`.
    spec fn holds(&self, k: Seq<u8>) -> bool {
        exists|i: int| self.at(i, k)
    }

    /// A slot that holds the key `k`, where there is one.
    spec fn slot(&self, k: Seq<u8>) -> int {
        choose|i: int| self.at(i, k)
    }

    /// The store's invariant: no key stands in two slots.
    #[verifier::type_invariant]
    spec fn wf(&self) -> bool {
        forall|i: int, j: int|
            0 <= i < self.entries@.len() && 0 <= j < self.entries@.len() && self.entries@[i].key@
                == self.entries@[j].key@ ==> i == j
    }

    /// In a well-formed store the key of slot `i` maps to the value of slot `i`.
    proof fn lemma_slot(&self, i: int)
        requires
            self.wf(),
            0 <= i < self.entries@.len(),
        ensures
            self@.dom().contains(self.entries@[i].key@),
            self@[self.entries@[i].key@] == self.entries@[i].value,
    {
        let k = self.entries@[i].key@;
        assert(self.at(i, k));
        assert(self.at(self.slot(k), k));
    }

    /// The empty store.
    pub fn new() -> (store: Self)
        ensures
            store@ == Map::<Seq<u8>, V>::empty(),
    {
        let store = StorageMap { entries: Vec::new() };
        assert(store@ =~= Map::<Seq<u8>, V>::empty());
        store
    }

    /// The slot that holds `key`, if any.
    fn position(&self, key: &PostId) -> (found: Option<usize>)
        ensures
            match found {
                Some(i) => self.at(i as int, key@),
                None => !self.holds(key@),
            },
    {
        let mut i: usize = 0;
        while i < self.entries.len()
            invariant
                i <= self.entries@.len(),
                forall|j: int| 0 <= j < i ==> !self.at(j, key@),
            decreases self.entries@.len() - i,
        {
            if hash_eq(&self.entries[i].key, key) {
                return Some(i);
            }
            i += 1;
        }
        None
    }

    /// The value stored under `key`, if any.
    pub fn get(&self, key: &PostId) -> (found: Option<&V>)
        ensures
            match found {
                Some(value) => self@.dom().contains(key@) && *value == self@[key@],
                None => !self@.dom().contains(key@),
            },
    {
        match self.position(key) {
            Some(i) => {
                proof {
                    use_type_invariant(self);
                    self.lemma_slot(i as int);
                }
                Some(&self.entries[i].value)
            },
            None => None,
        }
    }

    /// Stores `value` under `key`, in place of what was stored there before.
    pub fn insert(&mut self, key: PostId, value: V)
        ensures
            final(self)@ == old(self)@.insert(key@, value),
    {
        proof {
            use_type_invariant(&*self);
        }
        let found = self.position(&key);
        let ghost at_key = match found {
            Some(i) => i as int,
            None => self.entries@.len() as int,
        };
        // The entries change outside the store and come back in one step.
        let mut entries: Vec<Entry<V>> = Vec::new();
        core::mem::swap(&mut self.entries, &mut entries);
        match found {
            Some(i) => {
                entries.set(i, Entry { key, value });
            },
            None => {
                entries.push(Entry { key, value });
            },
        }
        proof {
            assert forall|i: int, j: int|
                0 <= i < entries@.len() && 0 <= j < entries@.len() && entries@[i].key@
                    == entries@[j].key@ implies i == j by {
                if i != at_key && j == at_key {
                    assert(old(self).at(i, key@));
                }
                if j != at_key && i == at_key {
                    assert(old(self).at(j, key@));
                }
            }
        }
        self.entries = entries;
        proof {
            assert(self.at(at_key, key@));
            assert forall|k: Seq<u8>| self.holds(k) == (old(self).holds(k) || k == key@) by {
                if self.holds(k) && k != key@ {
                    assert(old(self).at(self.slot(k), k));
                }
                if old(self).holds(k) {
                    assert(self.at(old(self).slot(k), k));
                }
            }
            assert forall|k: Seq<u8>| #[trigger] self.holds(k) implies self@[k] == old(
                self,
            )@.insert(key@, value)[k] by {
                let j = self.slot(k);
                assert(self.at(j, k));
                self.lemma_slot(j);
                if k != key@ {
                    old(self).lemma_slot(j);
                }
            }
            assert(self@ =~= old(self)@.insert(key@, value));
        }
    }

    /// Removes what is stored under `key` and hands it out.
    pub fn take(&mut self, key: &PostId) -> (taken: Option<V>)
        ensures
            final(self)@ == old(self)@.remove(key@),
            match taken {
                Some(value) => old(self)@.dom().contains(key@) && value == old(self)@[key@],
                None => !old(self)@.dom().contains(key@),
            },
    {
        proof {
            use_type_invariant(&*self);
        }
        match self.position(key) {
            Some(i) => {
                proof {
                    self.lemma_slot(i as int);
                }
                // The entries change outside the store and come back in one step.
                let mut entries: Vec<Entry<V>> = Vec::new();
                core::mem::swap(&mut self.entries, &mut entries);
                let entry = entries.remove(i);
                proof {
                    assert forall|a: int, b: int|
                        0 <= a < entries@.len() && 0 <= b < entries@.len() && entries@[a].key@
                            == entries@[b].key@ implies a == b by {
                        let a0 = if a < i { a } else { a + 1 };
                        let b0 = if b < i { b } else { b + 1 };
                        assert(old(self).entries@[a0].key@ == old(self).entries@[b0].key@);
                    }
                }
                self.entries = entries;
                proof {
                    assert forall|k: Seq<u8>| self.holds(k) == (old(self).holds(k) && k
                        != key@) by {
                        if self.holds(k) {
                            let j = self.slot(k);
                            let j0 = if j < i { j } else { j + 1 };
                            assert(old(self).at(j0, k));
                        }
                        if old(self).holds(k) && k != key@ {
                            let j0 = old(self).slot(k);
                            let j = if j0 < i { j0 } else { j0 - 1 };
                            assert(self.at(j, k));
                        }
                    }
                    assert forall|k: Seq<u8>| #[trigger] self.holds(k) implies self@[k] == old(
                        self,
                    )@[k] by {
                        let j = self.slot(k);
                        assert(self.at(j, k));
                        self.lemma_slot(j);
                        let j0 = if j < i { j } else { j + 1 };
                        old(self).lemma_slot(j0);
                    }
                    assert(self@ =~= old(self)@.remove(key@));
                }
                Some(entry.value)
            },
            None => {
                assert(self@ =~= old(self)@.remove(key@));
                None
            },
        }
    }
}

} // verus!
