//! A small association list keyed by address.

use crate::types::Address;
use vstd::prelude::*;

verus! {

/// Values filed under addresses, at most one under each.
pub struct AddressMap<V> {
    entries: Vec<(Address, V)>,
}

/// `key` is filed at position `at`.
pub closed spec fn filed_at<V>(entries: Seq<(Address, V)>, key: Address, at: int) -> bool {
    0 <= at < entries.len() && entries[at].0 == key
}

impl<V> View for AddressMap<V> {
    type V = Map<Address, V>;

    closed spec fn view(&self) -> Map<Address, V> {
        Map::new(
            |key: Address| exists|at: int| filed_at(self.entries@, key, at),
            |key: Address| self.entries@[choose|at: int| filed_at(self.entries@, key, at)].1,
        )
    }
}

impl<V> AddressMap<V> {
    #[verifier::type_invariant]
    closed spec fn keys_are_distinct(self) -> bool {
        forall|i: int, j: int|
            0 <= i < j < self.entries@.len() ==> (#[trigger] self.entries@[i]).0 != (
            #[trigger] self.entries@[j]).0
    }

    /// Only finitely many addresses have a value.
    pub proof fn lemma_finite(&self)
        ensures
            self@.dom().finite(),
    {
        let keys = Seq::new(self.entries@.len(), |i: int| self.entries@[i].0);
        vstd::seq_lib::seq_to_set_is_finite(keys);
        assert(self@.dom() =~= keys.to_set()) by {
            assert forall|key: Address| self@.dom().contains(key) implies keys.to_set().contains(
                key,
            ) by {
                let at = choose|at: int| filed_at(self.entries@, key, at);
                assert(keys[at] == key);
            }
            assert forall|key: Address| keys.to_set().contains(key) implies self@.dom().contains(
                key,
            ) by {
                let at = choose|at: int| 0 <= at < keys.len() && keys[at] == key;
                assert(filed_at(self.entries@, key, at));
            }
        }
    }

    /// With distinct keys, the entry at a position is the one that its key names.
    proof fn lemma_entry(&self, at: int)
        requires
            self.keys_are_distinct(),
            0 <= at < self.entries@.len(),
        ensures
            self@.contains_key(self.entries@[at].0),
            self@[self.entries@[at].0] == self.entries@[at].1,
    {
        let key = self.entries@[at].0;
        assert(filed_at(self.entries@, key, at));
        let chosen = choose|i: int| filed_at(self.entries@, key, i);
        assert(filed_at(self.entries@, key, chosen));
        if chosen < at {
            assert(self.entries@[chosen].0 != self.entries@[at].0);
        } else if at < chosen {
            assert(self.entries@[at].0 != self.entries@[chosen].0);
        }
    }

    /// An empty map.
    pub fn new() -> (map: Self)
        ensures
            map@ == Map::<Address, V>::empty(),
    {
        let map = AddressMap { entries: Vec::new() };
        proof {
            assert forall|key: Address| !map@.contains_key(key) by {
                if map@.contains_key(key) {
                    let at = choose|at: int| filed_at(map.entries@, key, at);
                    assert(filed_at(map.entries@, key, at));
                }
            }
            assert(map@ =~= Map::<Address, V>::empty());
        }
        map
    }

    /// The position of `key`, if it is filed.
    fn position(&self, key: Address) -> (position: Option<usize>)
        ensures
            match position {
                Some(at) => {
                    &&& at < self.entries@.len()
                    &&& self.entries@[at as int].0 == key
                    &&& self@.contains_key(key)
                    &&& self@[key] == self.entries@[at as int].1
                },
                None => {
                    &&& !self@.contains_key(key)
                    &&& forall|i: int|
                        0 <= i < self.entries@.len() ==> (#[trigger] self.entries@[i]).0 != key
                },
            },
    {
        proof {
            use_type_invariant(self);
        }
        let mut at: usize = 0;
        while at < self.entries.len()
            invariant
                at <= self.entries@.len(),
                self.keys_are_distinct(),
                forall|i: int| 0 <= i < at ==> (#[trigger] self.entries@[i]).0 != key,
            decreases self.entries@.len() - at,
        {
            if self.entries[at].0 == key {
                proof {
                    self.lemma_entry(at as int);
                }
                return Some(at);
            }
            at = at + 1;
        }
        proof {
            if self@.contains_key(key) {
                let found = choose|i: int| filed_at(self.entries@, key, i);
                assert(filed_at(self.entries@, key, found));
            }
        }
        None
    }

    /// The value filed under `key`, if there is one.
    pub fn get(&self, key: Address) -> (value: Option<V>) where V: Copy
        ensures
            value == (if self@.contains_key(key) {
                Some(self@[key])
            } else {
                None
            }),
    {
        match self.position(key) {
            Some(at) => Some(self.entries[at].1),
            None => None,
        }
    }

    /// Files `value` under `key`, in place of any value filed there.
    pub fn insert(&mut self, key: Address, value: V)
        ensures
            final(self)@ == old(self)@.insert(key, value),
    {
        self.remove(key);
        let ghost before = *self;
        proof {
            use_type_invariant(&*self);
        }
        let mut entries: Vec<(Address, V)> = Vec::new();
        std::mem::swap(&mut entries, &mut self.entries);
        entries.push((key, value));
        proof {
            assert forall|i: int| 0 <= i < before.entries@.len() implies (
            #[trigger] before.entries@[i]).0 != key by {
                before.lemma_entry(i);
            }
        }
        self.entries = entries;
        proof {
            let after = *self;
            assert(after.entries@ == before.entries@.push((key, value)));
            assert forall|k: Address| after@.contains_key(k) == before@.insert(
                key,
                value,
            ).contains_key(k) by {
                if after@.contains_key(k) {
                    let at = choose|at: int| filed_at(after.entries@, k, at);
                    assert(filed_at(after.entries@, k, at));
                    if at < before.entries@.len() {
                        assert(filed_at(before.entries@, k, at));
                    }
                }
                if before@.contains_key(k) {
                    let at = choose|at: int| filed_at(before.entries@, k, at);
                    assert(filed_at(after.entries@, k, at));
                }
                assert(filed_at(after.entries@, key, before.entries@.len() as int));
            }
            assert forall|k: Address| after@.contains_key(k) implies after@[k] == before@.insert(
                key,
                value,
            )[k] by {
                let at = choose|at: int| filed_at(after.entries@, k, at);
                assert(filed_at(after.entries@, k, at));
                after.lemma_entry(at);
                if at < before.entries@.len() {
                    before.lemma_entry(at);
                }
            }
            assert(after@ =~= before@.insert(key, value));
            assert(after@ =~= old(self)@.insert(key, value));
        }
    }

    /// Takes the value filed under `key` away, if there is one.
    pub fn remove(&mut self, key: Address)
        ensures
            final(self)@ == old(self)@.remove(key),
    {
        match self.position(key) {
            None => {
                assert(self@.remove(key) =~= self@);
            },
            Some(at) => {
                let ghost before = *self;
                proof {
                    use_type_invariant(&*self);
                }
                let mut entries: Vec<(Address, V)> = Vec::new();
                std::mem::swap(&mut entries, &mut self.entries);
                entries.remove(at);
                self.entries = entries;
                proof {
                    let after = *self;
                    assert(after.entries@ == before.entries@.remove(at as int));
                    assert forall|k: Address| after@.contains_key(k) == before@.remove(
                        key,
                    ).contains_key(k) by {
                        if after@.contains_key(k) {
                            let i = choose|i: int| filed_at(after.entries@, k, i);
                            assert(filed_at(after.entries@, k, i));
                            let j = if i < at { i } else { i + 1 };
                            assert(filed_at(before.entries@, k, j));
                            assert(before.entries@[j].0 != before.entries@[at as int].0);
                        }
                        if before@.remove(key).contains_key(k) {
                            let j = choose|j: int| filed_at(before.entries@, k, j);
                            assert(filed_at(before.entries@, k, j));
                            let i = if j < at { j } else { j - 1 };
                            assert(filed_at(after.entries@, k, i));
                        }
                    }
                    assert forall|k: Address| after@.contains_key(k) implies after@[k]
                        == before@.remove(key)[k] by {
                        let i = choose|i: int| filed_at(after.entries@, k, i);
                        assert(filed_at(after.entries@, k, i));
                        after.lemma_entry(i);
                        before.lemma_entry(if i < at { i } else { i + 1 });
                    }
                    assert(after@ =~= before@.remove(key));
                }
            },
        }
    }

    /// Another map with the same contents.
    pub fn duplicate(&self) -> (copy: Self) where V: Copy
        ensures
            copy@ == self@,
    {
        proof {
            use_type_invariant(self);
        }
        let mut entries: Vec<(Address, V)> = Vec::new();
        let mut at: usize = 0;
        while at < self.entries.len()
            invariant
                at <= self.entries@.len(),
                entries@ == self.entries@.take(at as int),
            decreases self.entries@.len() - at,
        {
            let entry = self.entries[at];
            entries.push(entry);
            at = at + 1;
            assert(self.entries@.take(at as int) == self.entries@.take(at - 1).push(entry));
        }
        assert(entries@ == self.entries@);
        AddressMap { entries }
    }
}

} // verus!
