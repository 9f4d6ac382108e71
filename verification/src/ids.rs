//! Allocation of process-unique clip identifiers.
//!
//! The native engine addresses each loaded clip by a small integer. The
//! allocator hands them out monotonically and never recycles a retired id:
//! a completion notification delivered late can then never be misattributed
//! to a newer clip that was assigned the same id.

use vstd::prelude::*;

verus! {

/// Produces unique clip identifiers for the lifetime of the allocator.
///
/// An explicitly passed allocator object rather than an implicit global, so
/// that callers and tests can run in isolation with deterministic ids. The
/// surrounding process serializes access to it, as an atomic counter would;
/// each call of [`IdAllocator::next_id`] then observes and advances the
/// counter atomically.
pub struct IdAllocator {
    /// The next id to hand out. Every id issued so far is strictly below it.
    pub counter: u64,
}

impl IdAllocator {
    /// A fresh allocator; the first id it hands out is 0.
    pub fn new() -> (r: IdAllocator)
        ensures
            r.counter == 0,
    {
        IdAllocator { counter: 0 }
    }

    /// Hands out the next identifier: monotonically increasing, never reused.
    pub fn next_id(&mut self) -> (id: u64)
        requires
            old(self).counter < u64::MAX,
        ensures
            id == old(self).counter,
            final(self).counter == old(self).counter + 1,
    {
        let id = self.counter;
        self.counter = self.counter + 1;
        id
    }
}

/// No reuse of retired ids: an id issued from allocator state `earlier`
/// differs from every id issued from any strictly later state `later`, since
/// each call returns the counter itself and the counter only grows. Retiring
/// a clip never feeds its id back.
pub proof fn lemma_ids_never_reused(earlier: IdAllocator, id1: u64, later: IdAllocator, id2: u64)
    requires
        id1 == earlier.counter,
        earlier.counter < later.counter,
        id2 == later.counter,
    ensures
        id1 != id2,
{
}

} // verus!
