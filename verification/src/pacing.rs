//! Frame pacing: how often a render pass may be scheduled.
//!
//! The widget repaints on every tick of the toolkit's frame clock unless a
//! maximum frame rate was set, in which case a render is queued only once the
//! configured minimum interval has elapsed since the last one.

use vstd::prelude::*;

verus! {

/// The minimum interval, in microseconds, between two renders when at most
/// `max_fps` frames per second are wanted: the microseconds of a second
/// divided by the rate. A rate of zero yields an interval so large that no
/// second render is ever due.
pub open spec fn spec_interval_micros_for_fps(max_fps: u32) -> u64 {
    if max_fps == 0 {
        u64::MAX
    } else {
        (1_000_000u64 / (max_fps as u64)) as u64
    }
}

/// The minimum interval, in microseconds, between two renders when the
/// caller asks for at most `max_fps` frames per second.
pub fn interval_micros_for_fps(max_fps: u32) -> (r: u64)
    ensures
        r == spec_interval_micros_for_fps(max_fps),
{
    if max_fps == 0 {
        u64::MAX
    } else {
        1_000_000u64 / (max_fps as u64)
    }
}

} // verus!
