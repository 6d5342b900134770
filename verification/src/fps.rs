//! The frame-rate read-out: how many frames of a given duration fit in one
//! second.

use vstd::prelude::*;

verus! {

/// Nanoseconds in one second.
pub const NANOS_PER_SECOND: u64 = 1_000_000_000;

/// The whole number of frames per second when one frame takes `frame_nanos`
/// nanoseconds. A frame of no duration has no rate: the caller must not ask
/// for one.
pub fn frames_per_second(frame_nanos: u32) -> (fps: u64)
    requires
        frame_nanos > 0,
    ensures
        fps == NANOS_PER_SECOND as int / frame_nanos as int,
{
    NANOS_PER_SECOND / (frame_nanos as u64)
}

} // verus!
