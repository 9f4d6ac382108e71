//! The calls the binding issues to the native engine, as values.
//!
//! Every operation that must reach the engine returns the exact call to
//! issue, keyed by clip id and session token; the surrounding process
//! performs it. The binding hands the engine only stable integers and plain
//! payloads, never an address into its own memory, so a stale notification
//! can at worst name an id that is no longer registered.
//!
//! Only calls that make the engine act appear here. Read-only observations —
//! the transport state, the gain, the duration — are answered from the
//! binding's own record, which the event feed (load answers, end-of-clip
//! notifications) keeps in step with the engine.

use crate::device::Device;
use crate::volume::Volume;
use vstd::prelude::*;

verus! {

/// One call of the engine's capability surface, ready to be issued.
pub enum NativeCall {
    /// Tear the session down. Issued exactly once, by the last owner.
    CloseContext {
        /// The session token.
        session: u64,
    },
    /// Decode and load one clip under a fresh id.
    LoadClip {
        /// The fresh clip id.
        id: u64,
        /// The session token.
        session: u64,
        /// The source path, passed through unchanged.
        path: String,
        /// The target device, or `None` for the engine's default device.
        device: Option<Device>,
        /// The initial gain, passed through unclamped.
        volume: Volume,
    },
    /// Register the clip id as the key under which completion notifications
    /// for this clip come back. Issued exactly once per loaded clip, only
    /// after the clip's state is fully constructed.
    RegisterCompletion {
        /// The clip id.
        id: u64,
        /// The session token.
        session: u64,
    },
    /// Unload the clip's native resource. Issued exactly once, by the last
    /// owner; the id names no clip afterwards.
    UnloadClip {
        /// The clip id.
        id: u64,
        /// The session token.
        session: u64,
    },
    /// Start playback.
    Play {
        /// The clip id.
        id: u64,
        /// The session token.
        session: u64,
    },
    /// Pause playback.
    Stop {
        /// The clip id.
        id: u64,
        /// The session token.
        session: u64,
    },
    /// Seek back to the start of the clip.
    Reset {
        /// The clip id.
        id: u64,
        /// The session token.
        session: u64,
    },
    /// Set the clip's gain, exactly as the caller gave it.
    SetVolume {
        /// The clip id.
        id: u64,
        /// The session token.
        session: u64,
        /// The gain to set, unclamped by the binding.
        value: Volume,
    },
    /// Route the clip to another output device.
    SetDevice {
        /// The clip id.
        id: u64,
        /// The session token.
        session: u64,
        /// The target device.
        target: Device,
    },
}

} // verus!
