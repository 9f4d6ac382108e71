//! Playback gain, carried opaquely.
//!
//! The native engine takes the gain as a 32-bit IEEE-754 number. The binding
//! never computes with it: it carries the raw bit pattern through unchanged,
//! so that what the caller sets is exactly what the engine receives and any
//! clamping stays the engine's own. The surrounding process converts between
//! its floating-point value and these bits at the boundary.

use vstd::prelude::*;

verus! {

/// The bit pattern of unit gain (a factor of one), the default of a freshly
/// configured clip.
pub const UNIT_GAIN_BITS: u32 = 0x3F80_0000;

/// A playback gain: the raw bits of the engine's 32-bit number, passed
/// through without interpretation or clamping.
#[derive(Clone, Copy, PartialEq, Eq, Structural, Debug)]
pub struct Volume {
    /// The raw bit pattern.
    pub bits: u32,
}

impl Volume {
    /// Wraps a raw bit pattern.
    pub fn from_bits(bits: u32) -> (r: Volume)
        ensures
            r.bits == bits,
    {
        Volume { bits }
    }

    /// The raw bit pattern, exactly as it was wrapped.
    pub fn bits(&self) -> (r: u32)
        ensures
            r == self.bits,
    {
        self.bits
    }

    /// Unit gain, the initial volume of a clip whose loader set none.
    pub fn unit() -> (r: Volume)
        ensures
            r.bits == UNIT_GAIN_BITS,
    {
        Volume { bits: UNIT_GAIN_BITS }
    }
}

} // verus!
