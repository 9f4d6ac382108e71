//! The table of live clip registrations, and completion routing.
//!
//! The engine never receives an address into the binding's memory: at load
//! time a clip's id is registered here, and an end-of-clip notification
//! carries that id back. Routing a notification is a lookup in this table —
//! a notification whose id is no longer registered (the clip was unloaded
//! in the meantime) finds nothing and is ignored, so a stale notification
//! can never reach the wrong clip.

use vstd::prelude::*;

verus! {

/// The ids of all live clip registrations, each at the slot under which the
/// surrounding process keeps the clip's shared state.
pub struct HandleTable {
    /// The registered ids, slot by slot. No id occurs twice.
    pub ids: Vec<u64>,
}

impl HandleTable {
    /// Registrations are unambiguous: no id occurs at two slots.
    pub open spec fn wf(self) -> bool {
        forall|i: int, j: int|
            0 <= i < j < self.ids@.len() ==> self.ids@[i] != self.ids@[j]
    }

    /// Whether `id` is currently registered.
    pub open spec fn spec_contains(self, id: u64) -> bool {
        self.ids@.contains(id)
    }

    /// An empty table: nothing is registered.
    pub fn new() -> (r: HandleTable)
        ensures
            r.wf(),
            r.ids@ =~= Seq::<u64>::empty(),
    {
        HandleTable { ids: Vec::new() }
    }

    /// How many clips are registered.
    pub fn len(&self) -> (r: usize)
        ensures
            r == self.ids@.len(),
    {
        self.ids.len()
    }

    /// Registers a fresh id. Exactly once per loaded clip, after the clip's
    /// state is fully constructed; the id must not be live already.
    pub fn register(&mut self, id: u64)
        requires
            old(self).wf(),
            !old(self).spec_contains(id),
            old(self).ids@.len() < usize::MAX,
        ensures
            final(self).wf(),
            final(self).ids@ == old(self).ids@.push(id),
            final(self).spec_contains(id),
            forall|x: u64|
                final(self).spec_contains(x) <==> (old(self).spec_contains(x) || x == id),
    {
        self.ids.push(id);
        proof {
            assert forall|x: u64|
                self.spec_contains(x) <==> (old(self).spec_contains(x) || x == id) by {
                if old(self).spec_contains(x) {
                    let j = choose|j: int| 0 <= j < old(self).ids@.len() && old(self).ids@[j] == x;
                    assert(self.ids@[j] == x);
                }
                if x == id {
                    assert(self.ids@[self.ids@.len() - 1] == x);
                }
                if self.spec_contains(x) {
                    let j = choose|j: int| 0 <= j < self.ids@.len() && self.ids@[j] == x;
                    if j < old(self).ids@.len() {
                        assert(old(self).ids@[j] == x);
                    }
                }
            }
        }
    }

    /// Finds the slot of a registered id. `None` exactly when `id` is not
    /// live: a stale completion notification routes nowhere and is ignored.
    pub fn find(&self, id: u64) -> (r: Option<usize>)
        ensures
            r is Some <==> self.spec_contains(id),
            r is Some ==> r.unwrap() < self.ids@.len() && self.ids@[r.unwrap() as int] == id,
    {
        let mut i: usize = 0;
        while i < self.ids.len()
            invariant
                i <= self.ids@.len(),
                forall|j: int| 0 <= j < i ==> self.ids@[j] != id,
            decreases self.ids@.len() - i,
        {
            if self.ids[i] == id {
                return Some(i);
            }
            i = i + 1;
        }
        None
    }

    /// Takes a registration out, by id. Returns whether it was live; an id
    /// that is not registered leaves the table unchanged.
    pub fn unregister(&mut self, id: u64) -> (found: bool)
        requires
            old(self).wf(),
        ensures
            final(self).wf(),
            found <==> old(self).spec_contains(id),
            !found ==> final(self).ids@ == old(self).ids@,
            found ==> final(self).ids@.len() == old(self).ids@.len() - 1,
            forall|x: u64|
                final(self).spec_contains(x) <==> (old(self).spec_contains(x) && x != id),
    {
        let slot = self.find(id);
        match slot {
            None => {
                proof {
                    assert forall|x: u64|
                        self.spec_contains(x) <==> (old(self).spec_contains(x) && x != id) by {
                        if x == id {
                            assert(!old(self).spec_contains(id));
                        }
                    }
                }
                false
            },
            Some(k) => {
                self.ids.remove(k);
                proof {
                    let pre = old(self).ids@;
                    let post = self.ids@;
                    assert(post =~= pre.subrange(0, k as int) + pre.subrange(
                        k as int + 1,
                        pre.len() as int,
                    ));
                    assert forall|x: u64|
                        self.spec_contains(x) <==> (old(self).spec_contains(x) && x != id) by {
                        if self.spec_contains(x) {
                            let j = choose|j: int| 0 <= j < post.len() && post[j] == x;
                            if j < k {
                                assert(pre[j] == x);
                            } else {
                                assert(pre[j + 1] == x);
                            }
                        }
                        if old(self).spec_contains(x) && x != id {
                            let j = choose|j: int| 0 <= j < pre.len() && pre[j] == x;
                            if j < k {
                                assert(post[j] == x);
                            } else {
                                assert(j != k);
                                assert(post[j - 1] == x);
                            }
                        }
                    }
                    assert forall|i: int, j: int|
                        0 <= i < j < post.len() implies post[i] != post[j] by {
                        if i < k && j < k {
                            assert(post[i] == pre[i] && post[j] == pre[j]);
                        } else if i < k {
                            assert(post[i] == pre[i] && post[j] == pre[j + 1]);
                        } else {
                            assert(post[i] == pre[i + 1] && post[j] == pre[j + 1]);
                        }
                    }
                }
                true
            },
        }
    }
}

} // verus!
