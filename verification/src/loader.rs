//! The clip loader: configuration, the load request, and its completion.
//!
//! A loader accumulates path, target device, initial gain, optional
//! completion callback and optional caller state, then performs the load in
//! two steps that bracket the engine's work. [`AudioLoader::load`] fails
//! fast when the source file does not exist — before any id is consumed or
//! any engine call is prepared — and otherwise allocates the clip's id and
//! produces the exact `load-clip` call to issue. [`PendingLoad::complete`]
//! takes the engine's status code back: an error code becomes the one error
//! kind it stands for, and success constructs the fully initialized handle
//! first and only then registers its id for completion routing, exactly
//! once.

use crate::context::Context;
use crate::device::Device;
use crate::errors::AudioError;
use crate::errors::load_status_error;
use crate::handle::AudioHandle;
use crate::handle::OnEnd;
use crate::handle::Void;
use crate::ids::IdAllocator;
use crate::native::NativeCall;
use crate::refcount::SharedCount;
use crate::table::HandleTable;
use crate::volume::Volume;
use vstd::prelude::*;

verus! {

/// A builder that configures one clip load and returns an audio playback
/// handle.
pub struct AudioLoader<T, F> {
    /// The filesystem path of the source audio.
    pub path: String,
    /// The target output device, or `None` for the engine's default device.
    pub device: Option<Device>,
    /// The initial gain, passed through to the engine unclamped.
    pub volume: Volume,
    /// The completion callback to register, if any.
    pub on_end: Option<F>,
    /// The caller state the handle will own.
    pub user_data: T,
}

impl AudioLoader<(), Void> {
    /// Creates a new default audio loader for `path`: default device, unit
    /// gain, no callback, and empty caller state.
    pub fn new(path: String) -> (r: AudioLoader<(), Void>)
        ensures
            r.path@ == path@,
            r.device is None,
            r.volume.bits == crate::volume::UNIT_GAIN_BITS,
            r.on_end is None,
            r.user_data == (),
    {
        AudioLoader {
            path,
            device: None,
            volume: Volume::unit(),
            on_end: None,
            user_data: (),
        }
    }
}

impl<T, F: OnEnd<T>> AudioLoader<T, F> {
    /// Sets the path to the source file.
    pub fn path(self, path: String) -> (r: AudioLoader<T, F>)
        ensures
            r.path@ == path@,
            r.device == self.device,
            r.volume == self.volume,
            r.on_end == self.on_end,
            r.user_data == self.user_data,
    {
        AudioLoader { path, ..self }
    }

    /// Sets the playback device.
    pub fn device(self, device: Device) -> (r: AudioLoader<T, F>)
        ensures
            r.path@ == self.path@,
            r.device matches Some(d) && d.native_id@ == device.native_id@ && d.name@
                == device.name@,
            r.volume == self.volume,
            r.on_end == self.on_end,
            r.user_data == self.user_data,
    {
        AudioLoader { device: Some(device), ..self }
    }

    /// Sets the initial playback volume.
    pub fn volume(self, volume: Volume) -> (r: AudioLoader<T, F>)
        ensures
            r.path@ == self.path@,
            r.device == self.device,
            r.volume == volume,
            r.on_end == self.on_end,
            r.user_data == self.user_data,
    {
        AudioLoader { volume, ..self }
    }

    /// Sets custom caller state for the handle to own.
    pub fn user_data<T1>(self, user_data: T1) -> (r: AudioLoader<T1, F>)
        ensures
            r.path@ == self.path@,
            r.device == self.device,
            r.volume == self.volume,
            r.on_end == self.on_end,
            r.user_data == user_data,
    {
        AudioLoader {
            path: self.path,
            device: self.device,
            volume: self.volume,
            on_end: self.on_end,
            user_data,
        }
    }

    /// Sets the callback to run when the clip reaches its end.
    pub fn on_end<F1: OnEnd<T>>(self, on_end: F1) -> (r: AudioLoader<T, F1>)
        ensures
            r.path@ == self.path@,
            r.device == self.device,
            r.volume == self.volume,
            r.on_end == Some(on_end),
            r.user_data == self.user_data,
    {
        AudioLoader {
            path: self.path,
            device: self.device,
            volume: self.volume,
            on_end: Some(on_end),
            user_data: self.user_data,
        }
    }

    /// Starts the load.
    ///
    /// `file_exists` is the answer of the filesystem check on the loader's
    /// path. When it is false the load fails fast with
    /// [`AudioError::FileError`]: no id is consumed, nothing is registered,
    /// and no `load-clip` call comes to exist. Otherwise a fresh id is
    /// allocated and the returned request carries the one `load-clip` call
    /// to issue, with path, device and gain passed through exactly as
    /// configured. A request whose device is `None` is to be performed with
    /// the descriptor of the engine's default device, obtained by one
    /// `get-default-device` query at perform time.
    pub fn load(self, context: &Context, ids: &mut IdAllocator, file_exists: bool) -> (r: Result<
        PendingLoad<T, F>,
        AudioError,
    >)
        requires
            context.count.live(),
            file_exists ==> old(ids).counter < u64::MAX,
        ensures
            !file_exists ==> r == Result::<PendingLoad<T, F>, AudioError>::Err(
                AudioError::FileError,
            ) && *final(ids) == *old(ids),
            file_exists ==> {
                &&& r is Ok
                &&& final(ids).counter == old(ids).counter + 1
                &&& r.unwrap().id == old(ids).counter
                &&& r.unwrap().session == context.session
                &&& r.unwrap().path@ == self.path@
                &&& r.unwrap().volume == self.volume
                &&& r.unwrap().on_end == self.on_end
                &&& r.unwrap().user_data == self.user_data
                &&& r.unwrap().request == (NativeCall::LoadClip {
                    id: old(ids).counter,
                    session: context.session,
                    path: self.path,
                    device: self.device,
                    volume: self.volume,
                })
            },
    {
        if !file_exists {
            return Err(AudioError::FileError);
        }
        let id = ids.next_id();
        let request = NativeCall::LoadClip {
            id,
            session: context.session,
            path: self.path.clone(),
            device: self.device,
            volume: self.volume,
        };
        Ok(
            PendingLoad {
                id,
                session: context.session,
                path: self.path,
                volume: self.volume,
                on_end: self.on_end,
                user_data: self.user_data,
                request,
            },
        )
    }
}

/// A load request under way: the id and configuration of one clip whose
/// `load-clip` call is being issued, waiting for the engine's status code.
pub struct PendingLoad<T, F> {
    /// The clip's freshly allocated id.
    pub id: u64,
    /// The session token of the owning context.
    pub session: u64,
    /// The source path.
    pub path: String,
    /// The initial gain.
    pub volume: Volume,
    /// The completion callback to register, if any.
    pub on_end: Option<F>,
    /// The caller state the handle will own.
    pub user_data: T,
    /// The one `load-clip` call to issue for this request.
    pub request: NativeCall,
}

impl<T, F: OnEnd<T>> PendingLoad<T, F> {
    /// Finishes the load with the engine's answer.
    ///
    /// `status` is the `load-clip` status code and `duration_ms` the
    /// engine-reported duration of the decoded clip. A nonzero status
    /// becomes the one error kind it stands for — the failed load cleaned
    /// itself up on the native side, so nothing is registered and nothing
    /// leaks. Status zero constructs the handle — stopped, at the
    /// configured gain, owning the caller state, holding one share of the
    /// context — and only then, exactly once, registers the clip's id and
    /// returns the registration call that tells the engine under which key
    /// completion notifications come back.
    pub fn complete(self, status: i32, duration_ms: u64, context: &mut Context, table:
        &mut HandleTable) -> (r: (Result<AudioHandle<T, F>, AudioError>, Option<NativeCall>))
        requires
            old(context).count.live(),
            old(context).count.owners < u64::MAX,
            old(context).session == self.session,
            old(table).wf(),
            !old(table).spec_contains(self.id),
            old(table).ids@.len() < usize::MAX,
        ensures
            final(table).wf(),
            final(context).session == old(context).session,
            status != 0 ==> {
                &&& r.0 == Result::<AudioHandle<T, F>, AudioError>::Err(load_status_error(status))
                &&& r.1 is None
                &&& final(context).count == old(context).count
                &&& final(table).ids@ == old(table).ids@
            },
            status == 0 ==> {
                &&& r.0 is Ok
                &&& r.0.unwrap().id == self.id
                &&& r.0.unwrap().session == self.session
                &&& r.0.unwrap().path@ == self.path@
                &&& r.0.unwrap().count.owners == 1
                &&& r.0.unwrap().playing == false
                &&& r.0.unwrap().volume == self.volume
                &&& r.0.unwrap().duration_ms == duration_ms
                &&& r.0.unwrap().user_data == self.user_data
                &&& r.0.unwrap().on_end == self.on_end
                &&& r.1 == Some(
                    NativeCall::RegisterCompletion { id: self.id, session: self.session },
                )
                &&& final(context).count.owners == old(context).count.owners + 1
                &&& final(table).spec_contains(self.id)
                &&& forall|x: u64|
                    final(table).spec_contains(x) <==> (old(table).spec_contains(x) || x
                        == self.id)
            },
    {
        match crate::errors::decode_load_status(status) {
            Err(err) => {
                return (Err(err), None);
            },
            Ok(()) => {},
        }
        let handle = AudioHandle {
            id: self.id,
            session: self.session,
            path: self.path,
            count: SharedCount::new(),
            playing: false,
            volume: self.volume,
            duration_ms,
            user_data: self.user_data,
            on_end: self.on_end,
        };
        context.retain();
        table.register(self.id);
        let registration = NativeCall::RegisterCompletion { id: self.id, session: self.session };
        (Ok(handle), Some(registration))
    }
}

} // verus!
