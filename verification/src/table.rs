//! A map from pairs of numbers to values.
use std::collections::BTreeMap;
use vstd::prelude::*;

verus! {

broadcast use {vstd::laws_cmp::group_laws_cmp, vstd::std_specs::btree::group_btree_axioms};

/// The key of a table entry.
pub type Key = (usize, usize);

/// A map from pairs of numbers to values.
pub struct Table<V> {
    entries: BTreeMap<Key, V>,
}

impl<V> View for Table<V> {
    type V = Map<Key, V>;

    closed spec fn view(&self) -> Map<Key, V> {
        self.entries@
    }
}

impl<V> Table<V> {
    /// The empty table.
    pub fn new() -> (table: Table<V>)
        ensures
            table@ == Map::<Key, V>::empty(),
    {
        Table { entries: BTreeMap::new() }
    }

    /// Whether the table has an entry for `key`.
    pub fn contains_key(&self, key: Key) -> (found: bool)
        ensures
            found == self@.contains_key(key),
    {
        self.entries.contains_key(&key)
    }

    /// The value for `key`, if there is one.
    pub fn get(&self, key: Key) -> (value: Option<&V>)
        ensures
            match value {
                Some(value) => self@.contains_key(key) && *value == self@[key],
                None => !self@.contains_key(key),
            },
    {
        self.entries.get(&key)
    }

    /// Puts `value` under `key` and hands back what was there before.
    pub fn insert(&mut self, key: Key, value: V) -> (previous: Option<V>)
        ensures
            final(self)@ == old(self)@.insert(key, value),
            match previous {
                Some(previous) => old(self)@.contains_key(key) && previous == old(self)@[key],
                None => !old(self)@.contains_key(key),
            },
    {
        self.entries.insert(key, value)
    }

    /// Takes the entry for `key` out of the table.
    pub fn remove(&mut self, key: Key) -> (value: Option<V>)
        ensures
            final(self)@ == old(self)@.remove(key),
            match value {
                Some(value) => old(self)@.contains_key(key) && value == old(self)@[key],
                None => !old(self)@.contains_key(key),
            },
    {
        self.entries.remove(&key)
    }
}

} // verus!
