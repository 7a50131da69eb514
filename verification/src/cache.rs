//! The snapshot cache of candidate items.
//!
//! A cache is an immutable snapshot: a sequence of items, already filtered
//! and in arrival order, together with the instant the snapshot stops being
//! valid. There is no mutation interface; a refresh builds a whole new cache
//! that replaces the old one. Instants are plain ticks on a monotonic clock,
//! supplied by the caller.

use vstd::prelude::*;

verus! {

/// An immutable snapshot of candidate items with its expiry instant.
#[derive(Debug)]
pub struct Cache<T> {
    items: Vec<T>,
    valid_until: u64,
}

impl<T> Cache<T> {
    /// The items of the snapshot.
    pub closed spec fn spec_items(&self) -> Seq<T> {
        self.items@
    }

    /// The instant the snapshot stops being valid.
    pub closed spec fn spec_valid_until(&self) -> u64 {
        self.valid_until
    }

    /// Whether the snapshot is still valid at `now`.
    pub open spec fn spec_valid(&self, now: u64) -> bool {
        now < self.spec_valid_until()
    }

    /// Builds a snapshot from an already-filtered, already-ordered item
    /// sequence and the instant it expires.
    pub fn new(items: Vec<T>, valid_until: u64) -> (r: Self)
        ensures
            r.spec_items() == items@,
            r.spec_valid_until() == valid_until,
    {
        Cache { items, valid_until }
    }

    /// True iff the current instant lies before the snapshot's expiry.
    pub fn valid(&self, now: u64) -> (r: bool)
        ensures
            r == self.spec_valid(now),
    {
        now < self.valid_until
    }

    /// Read-only access to the snapshot's items.
    pub fn items(&self) -> (r: &Vec<T>)
        ensures
            r@ == self.spec_items(),
    {
        &self.items
    }
}

impl<T> Default for Cache<T> {
    /// The empty snapshot, expired from the start: valid at no instant.
    fn default() -> (r: Self)
        ensures
            r.spec_items() == Seq::<T>::empty(),
            r.spec_valid_until() == 0,
    {
        Cache { items: Vec::new(), valid_until: 0 }
    }
}

} // verus!
