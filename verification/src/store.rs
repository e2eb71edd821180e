//! A counter that hands out identifiers and a keyed store of records that
//! draws its identifiers from one.

use vstd::prelude::*;
use std::collections::HashMap;

verus! {

broadcast use vstd::std_specs::hash::group_hash_axioms;

/// A counter that hands out identifiers in increasing order, starting at 0.
pub struct Allocator {
    counter: u32,
}

impl Allocator {
    /// The identifier that the next call of `next` returns.
    pub closed spec fn upcoming(&self) -> u32 {
        self.counter
    }

    /// A counter that has handed out nothing.
    pub fn new() -> (allocator: Allocator)
        ensures
            allocator.upcoming() == 0,
    {
        Allocator { counter: 0 }
    }

    /// A counter that goes on from `counter`.
    pub fn starting_at(counter: u32) -> (allocator: Allocator)
        ensures
            allocator.upcoming() == counter,
    {
        Allocator { counter }
    }

    /// The identifier that the next call of `next` returns.
    pub fn peek(&self) -> (id: u32)
        ensures
            id == self.upcoming(),
    {
        self.counter
    }

    /// Hands out the current identifier and moves on to the one after it.
    pub fn next(&mut self) -> (id: u32)
        requires
            old(self).upcoming() < u32::MAX,
        ensures
            id == old(self).upcoming(),
            final(self).upcoming() == id + 1,
    {
        let id: u32 = self.counter;
        self.counter = id + 1;
        id
    }
}

/// Records of one kind, each under a `u32` identifier.
pub struct Store<R> {
    allocator: Allocator,
    records: HashMap<u32, R>,
}

impl<R: View> Store<R> {
    /// The identifier that the next created record receives.
    pub closed spec fn upcoming(&self) -> u32 {
        self.allocator.upcoming()
    }

    /// The stored records, each by its view.
    pub closed spec fn records(&self) -> Map<u32, R::V> {
        Map::new(|id: u32| self.records@.contains_key(id), |id: u32| self.records@[id]@)
    }

    /// A store that holds nothing and has handed out no identifier.
    pub fn new() -> (store: Store<R>)
        ensures
            store.upcoming() == 0,
            store.records() == Map::<u32, R::V>::empty(),
    {
        let store = Store { allocator: Allocator::new(), records: HashMap::new() };
        assert(store.records() =~= Map::<u32, R::V>::empty());
        store
    }

    /// The identifier that the next created record receives.
    pub fn peek(&self) -> (id: u32)
        ensures
            id == self.upcoming(),
    {
        self.allocator.peek()
    }

    /// Stores `record` under a fresh identifier and returns that identifier.
    pub fn create(&mut self, record: R) -> (id: u32)
        requires
            old(self).upcoming() < u32::MAX,
        ensures
            id == old(self).upcoming(),
            final(self).upcoming() == id + 1,
            final(self).records() == old(self).records().insert(id, record@),
    {
        let id: u32 = self.allocator.next();
        self.records.insert(id, record);
        assert(self.records() =~= old(self).records().insert(id, record@));
        id
    }

    /// Stores `record` under `id`, whether or not a record was there.
    pub fn put(&mut self, id: u32, record: R)
        ensures
            final(self).upcoming() == old(self).upcoming(),
            final(self).records() == old(self).records().insert(id, record@),
    {
        self.records.insert(id, record);
        assert(self.records() =~= old(self).records().insert(id, record@));
    }

    /// Removes the record under `id`, if there is one.
    pub fn remove(&mut self, id: u32)
        ensures
            final(self).upcoming() == old(self).upcoming(),
            final(self).records() == old(self).records().remove(id),
    {
        self.records.remove(&id);
        assert(self.records() =~= old(self).records().remove(id));
    }

    /// The record under `id`, if there is one.
    pub fn get(&self, id: u32) -> (found: Option<&R>)
        ensures
            match found {
                Some(record) => self.records().contains_key(id) && self.records()[id] == record@,
                None => !self.records().contains_key(id),
            },
    {
        self.records.get(&id)
    }
}

} // verus!
