//! A resource table: the mapping from an engine-assigned integer handle to
//! the bridge's record of the GPU-side resource.  One table exists per
//! resource kind (textures, render buffers, geometries).

use std::collections::HashMap;
use vstd::prelude::*;

verus! {

broadcast use vstd::std_specs::hash::group_hash_axioms;

/// Mapping from engine handle to resource record.
pub struct ResourceTable<V> {
    entries: HashMap<u32, V>,
}

impl<V> ResourceTable<V> {
    /// The mathematical map this table holds.
    pub closed spec fn view(&self) -> Map<u32, V> {
        self.entries@
    }

    /// An empty table.
    pub fn new() -> (r: ResourceTable<V>)
        ensures
            r@ == Map::<u32, V>::empty(),
    {
        ResourceTable { entries: HashMap::new() }
    }

    /// Whether `id` names a live resource.
    pub fn contains(&self, id: u32) -> (r: bool)
        ensures
            r == self@.contains_key(id),
    {
        self.entries.contains_key(&id)
    }

    /// The record `id` names, if it is live.
    pub fn get(&self, id: u32) -> (r: Option<&V>)
        ensures
            match r {
                Some(v) => self@.contains_key(id) && *v == self@[id],
                None => !self@.contains_key(id),
            },
    {
        self.entries.get(&id)
    }

    /// Binds `id` to `v`, replacing any record it named before.
    pub fn insert(&mut self, id: u32, v: V)
        ensures
            final(self)@ == old(self)@.insert(id, v),
    {
        self.entries.insert(id, v);
    }

    /// Unbinds `id`, returning the record it named, if any.
    pub fn remove(&mut self, id: u32) -> (r: Option<V>)
        ensures
            final(self)@ == old(self)@.remove(id),
            match r {
                Some(v) => old(self)@.contains_key(id) && v == old(self)@[id],
                None => !old(self)@.contains_key(id),
            },
    {
        self.entries.remove(&id)
    }

    /// How many resources are live.
    pub fn len(&self) -> (r: usize)
        ensures
            r == self@.len(),
    {
        self.entries.len()
    }
}

} // verus!
