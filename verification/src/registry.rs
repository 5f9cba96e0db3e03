//! A key-value store keyed by text, kept in insertion order.
//!
//! This is the store behind every table of the editor backend: running
//! language servers, watched paths, open documents, file snapshots. Each
//! operation is a single step on the table; callers that share a store guard
//! it with a lock and hold the lock for one operation at a time.

use vstd::prelude::*;

verus! {

struct Slot<V> {
    key: String,
    value: V,
}

/// A table from text keys to values in which no key occurs twice.
pub struct Registry<V> {
    slots: Vec<Slot<V>>,
}

/// The index of `key` in `keys`, where it occurs.
pub open spec fn position_of(keys: Seq<Seq<char>>, key: Seq<char>) -> int {
    choose|i: int| 0 <= i < keys.len() && keys[i] == key
}

/// `keys` without its entry at `key`, the order of the others kept.
pub open spec fn without_key(keys: Seq<Seq<char>>, key: Seq<char>) -> Seq<Seq<char>> {
    if keys.contains(key) {
        keys.remove(position_of(keys, key))
    } else {
        keys
    }
}

/// `keys` with `key` added at the end unless it is already there.
pub open spec fn with_key(keys: Seq<Seq<char>>, key: Seq<char>) -> Seq<Seq<char>> {
    if keys.contains(key) {
        keys
    } else {
        keys.push(key)
    }
}

impl<V> Registry<V> {
    #[verifier::type_invariant]
    spec fn distinct_keys(&self) -> bool {
        forall|i: int, j: int|
            0 <= i < j < self.slots@.len() ==> self.slots@[i].key@ != self.slots@[j].key@
    }

    /// The keys in the order in which they were first inserted.
    pub closed spec fn keys(&self) -> Seq<Seq<char>> {
        Seq::new(self.slots@.len(), |i: int| self.slots@[i].key@)
    }

    /// The table as a map from key to value.
    pub closed spec fn view(&self) -> Map<Seq<char>, V> {
        Map::new(
            |k: Seq<char>| self.keys().contains(k),
            |k: Seq<char>| self.slots@[position_of(self.keys(), k)].value,
        )
    }

    /// The keys of the map are the keys of the table.
    pub proof fn lemma_keys_are_domain(&self)
        ensures
            forall|k: Seq<char>| self@.contains_key(k) <==> self.keys().contains(k),
    {
    }

    /// The value at position `i` is the value that the map gives for the key at `i`.
    proof fn lemma_value_at(&self, i: int)
        requires
            self.distinct_keys(),
            0 <= i < self.slots@.len(),
        ensures
            self.keys()[i] == self.slots@[i].key@,
            self@.contains_key(self.slots@[i].key@),
            self@[self.slots@[i].key@] == self.slots@[i].value,
    {
        let keys = self.keys();
        let k = self.slots@[i].key@;
        assert(keys[i] == k);
        let j = position_of(keys, k);
        assert(0 <= j < keys.len() && keys[j] == k);
        assert(j == i);
    }

    /// An empty table.
    pub fn new() -> (r: Self)
        ensures
            r@ == Map::<Seq<char>, V>::empty(),
            r.keys() == Seq::<Seq<char>>::empty(),
    {
        let r = Registry { slots: Vec::new() };
        assert(r.keys() =~= Seq::<Seq<char>>::empty());
        assert(r@ =~= Map::<Seq<char>, V>::empty());
        r
    }

    /// The number of entries.
    pub fn len(&self) -> (n: usize)
        ensures
            n == self.keys().len(),
            self.keys().no_duplicates(),
    {
        proof {
            use_type_invariant(self);
        }
        self.slots.len()
    }

    fn find(&self, key: &str) -> (r: Option<usize>)
        ensures
            match r {
                Some(i) => i < self.keys().len() && self.keys()[i as int] == key@,
                None => !self.keys().contains(key@),
            },
    {
        let mut i: usize = 0;
        while i < self.slots.len()
            invariant
                i <= self.slots@.len(),
                forall|j: int| 0 <= j < i ==> self.slots@[j].key@ != key@,
            decreases self.slots@.len() - i,
        {
            if self.slots[i].key.as_str().eq(key) {
                return Some(i);
            }
            i += 1;
        }
        None
    }

    /// Whether `key` has an entry.
    pub fn contains_key(&self, key: &str) -> (r: bool)
        ensures
            r == self@.contains_key(key@),
    {
        self.find(key).is_some()
    }

    /// The value stored for `key`, if any.
    pub fn get(&self, key: &str) -> (r: Option<&V>)
        ensures
            match r {
                Some(v) => self@.contains_key(key@) && *v == self@[key@],
                None => !self@.contains_key(key@),
            },
    {
        match self.find(key) {
            Some(i) => {
                proof {
                    use_type_invariant(self);
                    self.lemma_value_at(i as int);
                }
                Some(&self.slots[i].value)
            },
            None => None,
        }
    }

    /// The key at position `i` of the insertion order.
    pub fn key_at(&self, i: usize) -> (r: &String)
        requires
            i < self.keys().len(),
        ensures
            r@ == self.keys()[i as int],
    {
        &self.slots[i].key
    }

    /// The value at position `i` of the insertion order.
    pub fn value_at(&self, i: usize) -> (r: &V)
        requires
            i < self.keys().len(),
        ensures
            self@.contains_key(self.keys()[i as int]),
            *r == self@[self.keys()[i as int]],
    {
        proof {
            use_type_invariant(self);
            self.lemma_value_at(i as int);
        }
        &self.slots[i].value
    }

    /// Stores `value` under `key`. A key that is already present keeps its
    /// place in the order and gets the new value; a new key goes to the end.
    pub fn insert(&mut self, key: String, value: V)
        ensures
            final(self)@ == old(self)@.insert(key@, value),
            final(self).keys() == with_key(old(self).keys(), key@),
    {
        proof {
            use_type_invariant(&*self);
        }
        let ghost before = *self;
        let found = self.find(key.as_str());
        match found {
            Some(i) => {
                let mut slots: Vec<Slot<V>> = Vec::new();
                core::mem::swap(&mut self.slots, &mut slots);
                slots.set(i, Slot { key, value });
                self.slots = slots;
                proof {
                    assert(self.keys() =~= before.keys());
                    assert forall|k: Seq<char>| #[trigger] self@.contains_key(k) implies self@[k]
                        == before@.insert(key@, value)[k] by {
                        let j = position_of(self.keys(), k);
                        before.lemma_value_at(j);
                        self.lemma_value_at(j);
                    }
                    assert(self@ =~= before@.insert(key@, value));
                }
            },
            None => {
                let mut slots: Vec<Slot<V>> = Vec::new();
                core::mem::swap(&mut self.slots, &mut slots);
                proof {
                    assert forall|j: int| 0 <= j < before.slots@.len() implies before.slots@[j].key@
                        != key@ by {
                        assert(before.keys()[j] == before.slots@[j].key@);
                    }
                }
                slots.push(Slot { key, value });
                self.slots = slots;
                proof {
                    assert(self.keys() =~= before.keys().push(key@));
                    assert forall|k: Seq<char>| #[trigger] self@.contains_key(k) implies self@[k]
                        == before@.insert(key@, value)[k] by {
                        let j = position_of(self.keys(), k);
                        self.lemma_value_at(j);
                        if j < before.keys().len() {
                            before.lemma_value_at(j);
                        }
                    }
                    assert forall|k: Seq<char>| before@.insert(key@, value).contains_key(k) implies
                        #[trigger] self@.contains_key(k) by {
                        if k != key@ {
                            let j = position_of(before.keys(), k);
                            assert(self.keys()[j] == k);
                        } else {
                            assert(self.keys()[before.keys().len() as int] == k);
                        }
                    }
                    assert(self@ =~= before@.insert(key@, value));
                }
            },
        }
    }

    /// Takes the entry of `key` out of the table and returns its value; the
    /// other entries keep their order. Without such an entry nothing changes.
    pub fn remove(&mut self, key: &str) -> (r: Option<V>)
        ensures
            final(self)@ == old(self)@.remove(key@),
            final(self).keys() == without_key(old(self).keys(), key@),
            r == if old(self)@.contains_key(key@) {
                Some(old(self)@[key@])
            } else {
                None
            },
    {
        proof {
            use_type_invariant(&*self);
        }
        let ghost before = *self;
        match self.find(key) {
            Some(i) => {
                proof {
                    before.lemma_value_at(i as int);
                    assert(position_of(before.keys(), key@) == i);
                }
                let mut slots: Vec<Slot<V>> = Vec::new();
                core::mem::swap(&mut self.slots, &mut slots);
                let slot = slots.remove(i);
                self.slots = slots;
                proof {
                    assert(self.keys() =~= before.keys().remove(i as int));
                    assert forall|k: Seq<char>| #[trigger] self@.contains_key(k) implies k != key@
                        && before@.contains_key(k) && self@[k] == before@[k] by {
                        let j = position_of(self.keys(), k);
                        self.lemma_value_at(j);
                        if j < i {
                            before.lemma_value_at(j);
                        } else {
                            before.lemma_value_at(j + 1);
                        }
                    }
                    assert forall|k: Seq<char>| before@.contains_key(k) && k != key@ implies
                        #[trigger] self@.contains_key(k) by {
                        let j = position_of(before.keys(), k);
                        if j < i {
                            assert(self.keys()[j] == k);
                        } else {
                            assert(self.keys()[j - 1] == k);
                        }
                    }
                    assert(self@ =~= before@.remove(key@));
                }
                Some(slot.value)
            },
            None => {
                proof {
                    assert(self@ =~= before@.remove(key@));
                }
                None
            },
        }
    }
}

} // verus!
