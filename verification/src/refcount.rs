//! Shared-ownership counting for native resources.
//!
//! Both the engine session and each loaded clip are owned by several handles
//! at once and must be torn down exactly once, when the last owner lets go.
//! The count lives here as an explicit value; the surrounding process keeps
//! it behind its shared-pointer machinery and serializes access to it.

use vstd::prelude::*;

verus! {

/// The number of live owners of one native resource.
pub struct SharedCount {
    /// How many owners are alive. The resource is live while this is
    /// positive; it was torn down when this reached zero.
    pub owners: u64,
}

impl SharedCount {
    /// The resource still has at least one owner.
    pub open spec fn live(self) -> bool {
        self.owners >= 1
    }

    /// A count for a freshly created resource with its single first owner.
    pub fn new() -> (r: SharedCount)
        ensures
            r.owners == 1,
    {
        SharedCount { owners: 1 }
    }

    /// One more owner: sharing a handle duplicates ownership, never the
    /// native resource.
    pub fn retain(&mut self)
        requires
            old(self).live(),
            old(self).owners < u64::MAX,
        ensures
            final(self).owners == old(self).owners + 1,
    {
        self.owners = self.owners + 1;
    }

    /// One owner lets go. Returns true exactly when that owner was the last
    /// one: the single moment at which the native resource must be torn down.
    pub fn release(&mut self) -> (last: bool)
        requires
            old(self).live(),
        ensures
            final(self).owners == old(self).owners - 1,
            last <==> old(self).owners == 1,
            last <==> !final(self).live(),
    {
        self.owners = self.owners - 1;
        self.owners == 0
    }
}

/// How many times `release` reports "last owner" over `k` consecutive
/// releases starting from `owners` owners, following the contract of
/// [`SharedCount::release`] step by step.
pub open spec fn teardowns_emitted(owners: nat, k: nat) -> nat
    decreases k,
{
    if k == 0 || owners == 0 {
        0
    } else {
        (if owners == 1 {
            1nat
        } else {
            0nat
        }) + teardowns_emitted((owners - 1) as nat, (k - 1) as nat)
    }
}

/// Releasing every owner tears the resource down exactly once, and releasing
/// only some of them not at all: over `k <= owners` releases, "last owner" is
/// reported once when `k == owners` and never otherwise.
pub proof fn lemma_teardown_exactly_once(owners: nat, k: nat)
    requires
        k <= owners,
    ensures
        teardowns_emitted(owners, k) == if k == owners && owners > 0 {
            1nat
        } else {
            0nat
        },
    decreases k,
{
    if k > 0 {
        lemma_teardown_exactly_once((owners - 1) as nat, (k - 1) as nat);
    }
}

} // verus!
