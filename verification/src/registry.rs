use std::collections::HashMap;
use vstd::prelude::*;

verus! {

broadcast use vstd::std_specs::hash::group_hash_axioms;

/// A table from opaque integer handle to an exclusively owned resource.
///
/// Every long-lived resource family of the runtime lives in one of these.
/// The table is handle-family-agnostic: a failed lookup is reported as a
/// plain "object does not exist" outcome and callers upgrade it to the
/// family's own lost-object failure. Exclusive mutation of one entry is
/// done by taking the entry out with [`Registry::extract`], mutating the
/// owned value, and putting it back with [`Registry::insert`], so that the
/// one-caller-per-entry discipline is enforced by ownership.
#[verifier::reject_recursive_types(T)]
pub struct Registry<T> {
    table: HashMap<u64, T>,
}

impl<T> View for Registry<T> {
    type V = Map<u64, T>;

    closed spec fn view(&self) -> Map<u64, T> {
        self.table@
    }
}

impl<T> Registry<T> {
    /// An empty table.
    pub fn new() -> (r: Self)
        ensures
            r@ == Map::<u64, T>::empty(),
    {
        Registry { table: HashMap::new() }
    }

    /// Whether `h` names a live entry.
    pub fn contains(&self, h: u64) -> (r: bool)
        ensures
            r == self@.dom().contains(h),
    {
        self.table.contains_key(&h)
    }

    /// Shared access to the entry named by `h`, if it is live.
    pub fn get(&self, h: u64) -> (r: Option<&T>)
        ensures
            match r {
                Some(v) => self@.dom().contains(h) && *v == self@[h],
                None => !self@.dom().contains(h),
            },
    {
        self.table.get(&h)
    }

    /// Stores `v` under `h`, replacing any previous entry.
    pub fn insert(&mut self, h: u64, v: T)
        ensures
            final(self)@ == old(self)@.insert(h, v),
    {
        self.table.insert(h, v);
    }

    /// Takes the entry named by `h` out of the table, granting the caller
    /// exclusive ownership of the resource.
    pub fn extract(&mut self, h: u64) -> (r: Option<T>)
        ensures
            final(self)@ == old(self)@.remove(h),
            match r {
                Some(v) => old(self)@.dom().contains(h) && v == old(self)@[h],
                None => !old(self)@.dom().contains(h),
            },
    {
        self.table.remove(&h)
    }

    /// Removes and drops the entry named by `h`; reports whether one was live.
    pub fn remove(&mut self, h: u64) -> (r: bool)
        ensures
            final(self)@ == old(self)@.remove(h),
            r == old(self)@.dom().contains(h),
    {
        self.table.remove(&h).is_some()
    }
}

} // verus!
