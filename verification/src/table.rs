//! A table keyed by 64-bit identifiers.
//!
//! Descriptors, timers, submissions and completion contexts are all found
//! again by an integer key, so one small wrapper serves all of them.
use std::collections::HashMap;
use vstd::prelude::*;
use vstd::std_specs::iter::IteratorSpec;

verus! {

broadcast use vstd::std_specs::hash::group_hash_axioms;

/// A finite map from 64-bit keys to values.
pub struct Table<V> {
    map: HashMap<u64, V>,
}

impl<V> View for Table<V> {
    type V = Map<u64, V>;

    closed spec fn view(&self) -> Map<u64, V> {
        self.map@
    }
}

impl<V> Table<V> {
    /// Creates an empty table.
    pub fn new() -> (table: Self)
        ensures
            table@ == Map::<u64, V>::empty(),
    {
        Table { map: HashMap::new() }
    }

    /// The keys of a table are finitely many.
    pub proof fn lemma_finite(&self)
        ensures
            self@.dom().finite(),
    {
        let keys = vstd::std_specs::hash::spec_keys_iter(&self.map).remaining().unref();
        assert(keys.to_set() == self.map@.dom());
        vstd::seq_lib::seq_to_set_is_finite(keys);
    }

    /// Stores `value` under `key` and returns what was stored there before.
    pub fn insert(&mut self, key: u64, value: V) -> (previous: Option<V>)
        ensures
            final(self)@ == old(self)@.insert(key, value),
            previous == (if old(self)@.contains_key(key) {
                Some(old(self)@[key])
            } else {
                None
            }),
    {
        self.map.insert(key, value)
    }

    /// Removes and returns the value stored under `key`.
    pub fn remove(&mut self, key: u64) -> (removed: Option<V>)
        ensures
            final(self)@ == old(self)@.remove(key),
            removed == (if old(self)@.contains_key(key) {
                Some(old(self)@[key])
            } else {
                None
            }),
    {
        self.map.remove(&key)
    }

    /// Borrows the value stored under `key`.
    pub fn get(&self, key: u64) -> (found: Option<&V>)
        ensures
            found == (if self@.contains_key(key) {
                Some(&self@[key])
            } else {
                None
            }),
    {
        self.map.get(&key)
    }

    /// Reports whether `key` is present.
    pub fn contains(&self, key: u64) -> (found: bool)
        ensures
            found == self@.contains_key(key),
    {
        self.map.contains_key(&key)
    }

    /// Reports whether the table holds nothing.
    pub fn is_empty(&self) -> (empty: bool)
        ensures
            empty == (self@ == Map::<u64, V>::empty()),
    {
        let empty = self.map.is_empty();
        proof {
            self.lemma_finite();
            if empty {
                assert(self@.dom().len() == 0);
                self@.dom().lemma_len0_is_empty();
                assert(self@ =~= Map::<u64, V>::empty());
            }
        }
        empty
    }

    /// Lists every key once, in no particular order.
    pub fn keys(&self) -> (keys: Vec<u64>)
        ensures
            keys@.no_duplicates(),
            keys@.to_set() == self@.dom(),
    {
        let ghost all = vstd::std_specs::hash::spec_keys_iter(&self.map).remaining().unref();
        let mut keys: Vec<u64> = Vec::new();
        for key in it: self.map.keys()
            invariant
                it.seq().unref() == all,
                keys@ == all.take(it.index() as int),
        {
            keys.push(*key);
        }
        assert(keys@ == all);
        keys
    }
}

} // verus!
