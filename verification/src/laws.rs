//! The observable laws of the binding, written out.
//!
//! Each lemma here restates one guarantee of the crate over the model that
//! the contracts speak of. The hypotheses of each lemma are exactly what the
//! named operations ensure; the conclusion is the law as a caller observes
//! it. The companion laws about teardown live beside their subjects:
//! exactly-once teardown in [`crate::refcount`], session-outlives-dependents
//! in [`crate::context`], serialized state updates in [`crate::handle`].

use crate::handle::AudioHandle;
use crate::handle::OnEnd;
use crate::volume::Volume;
use vstd::prelude::*;

verus! {

/// A freshly loaded clip is not playing: every handle that
/// [`crate::loader::PendingLoad::complete`] constructs starts stopped, and
/// [`AudioHandle::is_playing`] reports exactly the transport state, so the
/// observation between load and the first `play` is always `false`.
pub proof fn lemma_loaded_clip_not_playing<T, F: OnEnd<T>>(loaded: AudioHandle<T, F>, observed:
    bool)
    requires
        loaded.playing == false,
        observed == loaded.playing,
    ensures
        observed == false,
{
}

/// After `play`, playing is observed, and pausing is its exact logical
/// negation at every observation point: [`AudioHandle::play`] sets the
/// transport state, and [`AudioHandle::is_playing`] and
/// [`AudioHandle::is_paused`] report that one state and its negation.
pub proof fn lemma_playing_and_paused_negate<T, F: OnEnd<T>>(
    played: AudioHandle<T, F>,
    observed_playing: bool,
    observed_paused: bool,
)
    requires
        played.playing == true,
        observed_playing == played.playing,
        observed_paused == !played.playing,
    ensures
        observed_playing == true,
        observed_paused == !observed_playing,
{
}

/// The gain round-trips: after [`AudioHandle::set_volume`] records `v`,
/// [`AudioHandle::volume`] returns exactly `v` — for every bit pattern,
/// since the binding adds no clamping of its own.
pub proof fn lemma_volume_round_trip<T, F: OnEnd<T>>(
    updated: AudioHandle<T, F>,
    v: Volume,
    observed: Volume,
)
    requires
        updated.volume == v,
        observed == updated.volume,
    ensures
        observed == v,
{
}

} // verus!
