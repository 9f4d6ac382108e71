//! The live clip handle: transport control, caller state, and the
//! completion path.
//!
//! A handle fronts the shared state of one loaded clip. Several owners may
//! share it — sharing duplicates ownership, never the native resource — and
//! the last owner's release unregisters the clip and issues the one
//! `unload-clip` call. Caller-supplied state lives inside the handle and is
//! mutated from exactly two paths, the controlling side and the completion
//! path; both reach it only through exclusive access, so every update is one
//! full application of one mutator and a torn or interleaved write cannot
//! occur.

use crate::context::Context;
use crate::native::NativeCall;
use crate::naming;
use crate::refcount::SharedCount;
use crate::table::HandleTable;
use crate::device::Device;
use crate::volume::Volume;
use vstd::prelude::*;

verus! {

/// A completion callback: what runs, with exclusive access to the caller
/// state, when the engine reports that the clip reached its end.
///
/// Callers implement this for their own types. The binding guarantees that
/// each completion runs the callback exactly once, alone, and relays the
/// callback's own stated one-run relation between the state before and
/// after; it adds nothing beyond that. A callback that panics is a caller
/// programming error the binding does not recover from.
pub trait OnEnd<T> {
    /// The relation one run of the callback establishes between the caller
    /// state it was handed and the state it leaves behind. A callback that
    /// states nothing of itself leaves the default relation, which promises
    /// nothing.
    open spec fn on_end_spec(&self, old_state: T, new_state: T) -> bool {
        true
    }

    /// Reacts to the end of the clip with exclusive access to the caller
    /// state.
    fn on_end(&self, state: &mut T)
        ensures
            self.on_end_spec(*old(state), *final(state)),
    ;
}

/// The callback type of a clip that has none. Its only value does nothing,
/// and the loader never registers one, so a handle typed with it never runs
/// a completion callback.
pub enum Void {
    /// The single value; as a callback it leaves the state untouched.
    Nothing,
}

impl<T> OnEnd<T> for Void {
    /// No callback: the state stays what it was.
    open spec fn on_end_spec(&self, old_state: T, new_state: T) -> bool {
        new_state == old_state
    }

    fn on_end(&self, _state: &mut T) {
    }
}

/// A handle that can be used to control audio playback.
///
/// The handle is the decision core of one clip: it tracks the clip's
/// transport state, gain, duration and caller state, and returns, for each
/// operation that must reach the engine, the exact call to issue, keyed by
/// clip id and session token.
pub struct AudioHandle<T, F> {
    /// The clip's process-unique id; the key under which the engine knows it.
    pub id: u64,
    /// The session token of the owning context.
    pub session: u64,
    /// The path the clip was loaded from.
    pub path: String,
    /// The live owners of this clip's shared state.
    pub count: SharedCount,
    /// The transport state: `true` between `play` and the next `stop`,
    /// `reset` or end-of-clip notification.
    pub playing: bool,
    /// The last gain set through this handle, exactly as requested.
    pub volume: Volume,
    /// The clip's duration in milliseconds, as the engine reported it at
    /// load time.
    pub duration_ms: u64,
    /// The caller-supplied state, mutated only under exclusive access.
    pub user_data: T,
    /// The completion callback, if one was registered at load time.
    pub on_end: Option<F>,
}

impl<T, F: OnEnd<T>> AudioHandle<T, F> {
    /// The fields that name the clip and never change over the handle's
    /// life.
    pub open spec fn same_clip(self, other: Self) -> bool {
        &&& self.id == other.id
        &&& self.session == other.session
        &&& self.path@ == other.path@
        &&& self.duration_ms == other.duration_ms
        &&& self.on_end == other.on_end
    }

    /// Starts playing audio.
    pub fn play(&mut self) -> (call: NativeCall)
        requires
            old(self).count.live(),
        ensures
            final(self).same_clip(*old(self)),
            final(self).count == old(self).count,
            final(self).volume == old(self).volume,
            final(self).user_data == old(self).user_data,
            final(self).playing == true,
            call == (NativeCall::Play { id: old(self).id, session: old(self).session }),
    {
        self.playing = true;
        NativeCall::Play { id: self.id, session: self.session }
    }

    /// Pauses playback.
    pub fn stop(&mut self) -> (call: NativeCall)
        requires
            old(self).count.live(),
        ensures
            final(self).same_clip(*old(self)),
            final(self).count == old(self).count,
            final(self).volume == old(self).volume,
            final(self).user_data == old(self).user_data,
            final(self).playing == false,
            call == (NativeCall::Stop { id: old(self).id, session: old(self).session }),
    {
        self.playing = false;
        NativeCall::Stop { id: self.id, session: self.session }
    }

    /// Seeks back to the start of the audio clip, leaving it stopped.
    pub fn reset(&mut self) -> (call: NativeCall)
        requires
            old(self).count.live(),
        ensures
            final(self).same_clip(*old(self)),
            final(self).count == old(self).count,
            final(self).volume == old(self).volume,
            final(self).user_data == old(self).user_data,
            final(self).playing == false,
            call == (NativeCall::Reset { id: old(self).id, session: old(self).session }),
    {
        self.playing = false;
        NativeCall::Reset { id: self.id, session: self.session }
    }

    /// Returns the path used to create the handle.
    pub fn path(&self) -> (r: &str)
        ensures
            r@ == self.path@,
    {
        self.path.as_str()
    }

    /// Returns the name of the file used to create the handle: the final
    /// path component, or the fixed placeholder string when the path has
    /// none.
    pub fn name(&self) -> (r: &str)
        ensures
            r@ == naming::spec_clip_name(self.path@),
    {
        naming::clip_name(self.path.as_str())
    }

    /// Sets the volume: the requested gain is recorded and passed to the
    /// engine exactly as given, with no clamping added by the binding.
    pub fn set_volume(&mut self, volume: Volume) -> (call: NativeCall)
        requires
            old(self).count.live(),
        ensures
            final(self).same_clip(*old(self)),
            final(self).count == old(self).count,
            final(self).playing == old(self).playing,
            final(self).user_data == old(self).user_data,
            final(self).volume == volume,
            call == (NativeCall::SetVolume {
                id: old(self).id,
                session: old(self).session,
                value: volume,
            }),
    {
        self.volume = volume;
        NativeCall::SetVolume { id: self.id, session: self.session, value: volume }
    }

    /// Returns the volume: exactly the gain last set through this handle,
    /// or the loader's initial gain.
    pub fn volume(&self) -> (r: Volume)
        ensures
            r == self.volume,
    {
        self.volume
    }

    /// Checks whether the handle is currently playing.
    pub fn is_playing(&self) -> (r: bool)
        ensures
            r == self.playing,
    {
        self.playing
    }

    /// Checks whether the handle is currently paused: the exact logical
    /// negation of [`AudioHandle::is_playing`] at every observation point.
    pub fn is_paused(&self) -> (r: bool)
        ensures
            r == !self.playing,
    {
        !self.playing
    }

    /// Returns the duration of the clip in milliseconds, as the engine
    /// reported it when the clip was loaded.
    pub fn duration(&self) -> (r: u64)
        ensures
            r == self.duration_ms,
    {
        self.duration_ms
    }

    /// Routes the clip to another output device. The descriptor is handed
    /// to the engine as it is, unvalidated.
    pub fn set_output_device(&self, device: &Device) -> (call: NativeCall)
        requires
            self.count.live(),
        ensures
            call matches NativeCall::SetDevice { id, session, target } && id == self.id && session
                == self.session && target.native_id@ == device.native_id@ && target.name@
                == device.name@,
    {
        NativeCall::SetDevice { id: self.id, session: self.session, target: device.duplicate() }
    }

    /// Replaces the caller state under exclusive access.
    pub fn set_user_data(&mut self, data: T)
        requires
            old(self).count.live(),
        ensures
            final(self).same_clip(*old(self)),
            final(self).count == old(self).count,
            final(self).playing == old(self).playing,
            final(self).volume == old(self).volume,
            final(self).user_data == data,
    {
        self.user_data = data;
    }

    /// Reads the caller state.
    pub fn user_data(&self) -> (r: &T)
        ensures
            *r == self.user_data,
    {
        &self.user_data
    }

    /// Modifies the caller state using a closure, under exclusive access:
    /// the new state is one full application of `f` to the old state, so a
    /// concurrent observer can never see a torn or partial write.
    pub fn modify_user_data<G: Fn(&T) -> T>(&mut self, f: G)
        requires
            old(self).count.live(),
            call_requires(f, (&old(self).user_data,)),
        ensures
            final(self).same_clip(*old(self)),
            final(self).count == old(self).count,
            final(self).playing == old(self).playing,
            final(self).volume == old(self).volume,
            call_ensures(f, (&old(self).user_data,), final(self).user_data),
    {
        let data = f(&self.user_data);
        self.user_data = data;
    }

    /// The completion path: what runs when the engine reports end-of-clip
    /// for this handle's id.
    ///
    /// Playback has stopped on its own, and the registered callback — if
    /// one was registered — runs exactly once, with exclusive access to the
    /// caller state: the state afterwards stands in the callback's one-run
    /// relation to the state before. With none registered the state is
    /// untouched. Errors are not propagated: the completion path returns
    /// nothing to the engine.
    pub fn on_clip_end(&mut self)
        requires
            old(self).count.live(),
        ensures
            final(self).same_clip(*old(self)),
            final(self).count == old(self).count,
            final(self).volume == old(self).volume,
            final(self).playing == false,
            old(self).on_end is None ==> final(self).user_data == old(self).user_data,
            old(self).on_end matches Some(f) ==> f.on_end_spec(
                old(self).user_data,
                final(self).user_data,
            ),
    {
        self.playing = false;
        match &self.on_end {
            Some(f) => f.on_end(&mut self.user_data),
            None => {},
        }
    }

    /// One more owner of this clip's shared state: sharing the handle
    /// shares, it does not duplicate, the native resource.
    pub fn share(&mut self)
        requires
            old(self).count.live(),
            old(self).count.owners < u64::MAX,
        ensures
            final(self).same_clip(*old(self)),
            final(self).playing == old(self).playing,
            final(self).volume == old(self).volume,
            final(self).user_data == old(self).user_data,
            final(self).count.owners == old(self).count.owners + 1,
    {
        self.count.retain();
    }

    /// One owner lets go. Exactly when it was the last one, the clip's
    /// registration is taken out of the table, the one `unload-clip` call
    /// for this id is returned — the id names no clip afterwards — and the
    /// clip's shared ownership of the context is given back, which may in
    /// turn tear the session down.
    pub fn release(&mut self, context: &mut Context, table: &mut HandleTable) -> (calls: (
        Option<NativeCall>,
        Option<NativeCall>,
    ))
        requires
            old(self).count.live(),
            old(context).count.live(),
            old(self).session == old(context).session,
            old(table).wf(),
            old(self).count.owners == 1 ==> old(table).spec_contains(old(self).id),
        ensures
            final(self).same_clip(*old(self)),
            final(self).playing == old(self).playing,
            final(self).volume == old(self).volume,
            final(self).user_data == old(self).user_data,
            final(self).count.owners == old(self).count.owners - 1,
            final(table).wf(),
            final(context).session == old(context).session,
            old(self).count.owners > 1 ==> {
                &&& calls == (None::<NativeCall>, None::<NativeCall>)
                &&& final(table).ids@ == old(table).ids@
                &&& final(context).count == old(context).count
            },
            old(self).count.owners == 1 ==> {
                &&& calls.0 == Some(
                    NativeCall::UnloadClip { id: old(self).id, session: old(self).session },
                )
                &&& forall|x: u64|
                    final(table).spec_contains(x) <==> (old(table).spec_contains(x) && x != old(
                        self,
                    ).id)
                &&& final(context).count.owners == old(context).count.owners - 1
                &&& calls.1 == if old(context).count.owners == 1 {
                    Some(NativeCall::CloseContext { session: old(context).session })
                } else {
                    None::<NativeCall>
                }
            },
    {
        let last = self.count.release();
        if last {
            table.unregister(self.id);
            let unload = Some(NativeCall::UnloadClip { id: self.id, session: self.session });
            let close = context.release();
            (unload, close)
        } else {
            (None, None)
        }
    }
}

/// Caller-state updates serialize: when one mutator takes the state from
/// `s0` to `s1` and a second — say the completion callback's turn with the
/// lock — takes it from `s1` to `s2`, the end-to-end change is the two full
/// applications one after the other. No interleaving of the two writers
/// exists that could produce anything else.
pub proof fn lemma_state_updates_serialize<T, G1: Fn(&T) -> T, G2: Fn(&T) -> T>(
    f: G1,
    g: G2,
    s0: T,
    s1: T,
    s2: T,
)
    requires
        call_ensures(f, (&s0,), s1),
        call_ensures(g, (&s1,), s2),
    ensures
        exists|mid: T| call_ensures(f, (&s0,), mid) && call_ensures(g, (&mid,), s2),
{
    assert(call_ensures(f, (&s0,), s1) && call_ensures(g, (&s1,), s2));
}

} // verus!
