//! A cache interface and a cache that lives in memory.

use vstd::prelude::*;
use vstd::std_specs::hash::obeys_key_model;
use std::collections::HashMap;
use std::hash::Hash;

verus! {

broadcast use vstd::std_specs::hash::group_hash_axioms;

/// A store of values by key. Its contracts hold for key types whose
/// hashing and equality agree, which `obeys_key_model` states.
pub trait Cache<K, V> {
    /// What the cache holds.
    spec fn entries(&self) -> Map<K, V>;

    /// The value stored under `key`, if there is one.
    fn get(&self, key: &K) -> (r: Option<&V>)
        requires
            obeys_key_model::<K>(),
        ensures
            match r {
                Some(value) => self.entries().contains_key(*key) && self.entries()[*key] == *value,
                None => !self.entries().contains_key(*key),
            },
    ;

    /// Stores `value` under `key`, replacing what was there.
    fn put(&mut self, key: K, value: V)
        requires
            obeys_key_model::<K>(),
        ensures
            final(self).entries() == old(self).entries().insert(key, value),
    ;

    /// Takes out and returns what is stored under `key`.
    fn remove(&mut self, key: &K) -> (r: Option<V>)
        requires
            obeys_key_model::<K>(),
        ensures
            final(self).entries() == old(self).entries().remove(*key),
            match r {
                Some(value) => old(self).entries().contains_key(*key) && old(self).entries()[*key]
                    == value,
                None => !old(self).entries().contains_key(*key),
            },
    ;

    /// Empties the cache.
    fn clear(&mut self)
        ensures
            final(self).entries() == Map::<K, V>::empty(),
    ;

    /// True when something is stored under `key`.
    fn contains_key(&self, key: &K) -> (r: bool)
        requires
            obeys_key_model::<K>(),
        ensures
            r == self.entries().contains_key(*key),
    {
        self.get(key).is_some()
    }
}

/// A cache in a hash map.
pub struct MemoryCache<K, V> {
    data: HashMap<K, V>,
}

impl<K, V> MemoryCache<K, V> {
    /// What the cache holds.
    pub closed spec fn view(&self) -> Map<K, V> {
        self.data@
    }

    /// An empty cache.
    pub fn new() -> (cache: MemoryCache<K, V>)
        ensures
            cache@ == Map::<K, V>::empty(),
    {
        MemoryCache { data: HashMap::new() }
    }
}

impl<K: Hash + Eq, V> Cache<K, V> for MemoryCache<K, V> {
    open spec fn entries(&self) -> Map<K, V> {
        self@
    }

    fn get(&self, key: &K) -> (r: Option<&V>) {
        self.data.get(key)
    }

    fn put(&mut self, key: K, value: V) {
        self.data.insert(key, value);
    }

    fn remove(&mut self, key: &K) -> (r: Option<V>) {
        self.data.remove(key)
    }

    fn clear(&mut self) {
        self.data.clear();
    }
}

} // verus!
