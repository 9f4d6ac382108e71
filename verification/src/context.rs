//! The engine session and its shared ownership.
//!
//! A context wraps one native session. Clip handles and device catalogs each
//! hold a shared ownership reference to it, so the session is never torn
//! down while anything derived from it could still reach the engine; the
//! last owner's release issues the one `close-context` call.

use crate::errors::AudioError;
use crate::native::NativeCall;
use crate::refcount::SharedCount;
use vstd::prelude::*;

verus! {

/// A shared-ownership wrapper around one native engine session.
pub struct Context {
    /// The opaque session token the engine handed out at open time.
    pub session: u64,
    /// How many owners — caller handles, clip states, device catalogs —
    /// share the session.
    pub count: SharedCount,
}

impl Context {
    /// Creates a new backend context from the engine's answer to one
    /// `open-context` call: the session token and its success flag. On
    /// success the session is wrapped with a single owner; a reported
    /// failure becomes [`AudioError::ContextError`].
    pub fn new(session: u64, opened: bool) -> (r: Result<Context, AudioError>)
        ensures
            opened ==> r is Ok && r.unwrap().session == session && r.unwrap().count.owners == 1,
            !opened ==> r == Result::<Context, AudioError>::Err(AudioError::ContextError),
    {
        if opened {
            Ok(Context { session, count: SharedCount::new() })
        } else {
            Err(AudioError::ContextError)
        }
    }

    /// Takes one more shared ownership reference: sharing the context
    /// duplicates ownership, never the session.
    pub fn retain(&mut self)
        requires
            old(self).count.live(),
            old(self).count.owners < u64::MAX,
        ensures
            final(self).session == old(self).session,
            final(self).count.owners == old(self).count.owners + 1,
    {
        self.count.retain();
    }

    /// Gives one shared ownership reference back. Exactly when the caller
    /// was the last owner, the returned call tears the session down — safe
    /// to issue even if no clip was ever loaded.
    pub fn release(&mut self) -> (call: Option<NativeCall>)
        requires
            old(self).count.live(),
        ensures
            final(self).session == old(self).session,
            final(self).count.owners == old(self).count.owners - 1,
            call == if old(self).count.owners == 1 {
                Some(NativeCall::CloseContext { session: old(self).session })
            } else {
                None::<NativeCall>
            },
    {
        let last = self.count.release();
        if last {
            Some(NativeCall::CloseContext { session: self.session })
        } else {
            None
        }
    }
}

/// The session outlives everything derived from it: while any dependent —
/// a clip state or a device catalog — still holds one of the context's
/// `owners`, no release by another owner can be the last one, so no
/// `close-context` call is issued before all dependents have been released.
pub proof fn lemma_close_waits_for_dependents(context: Context, dependents: nat)
    requires
        dependents >= 1,
        context.count.owners >= 1 + dependents,
    ensures
        context.count.owners != 1,
{
}

} // verus!
