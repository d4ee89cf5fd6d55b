//! Pacing of the game loop: how long the game thread sleeps after a frame.

use vstd::prelude::*;

verus! {

/// The time a frame of the game loop is meant to take: 15 ms, in nanoseconds.
pub const TARGET_FRAME_LATENCY_NANOS: u128 = 15_000_000;

/// What the game thread still sleeps after a frame that ran late, so that the
/// render thread gets its turn: 0.5 ms, in nanoseconds.
pub const LATE_FRAME_SLEEP_NANOS: u128 = 500_000;

/// The rest of the frame's target time, or the short sleep of a late frame.
pub open spec fn spec_frame_sleep(frame_duration: u128) -> u128 {
    if frame_duration < TARGET_FRAME_LATENCY_NANOS {
        (TARGET_FRAME_LATENCY_NANOS - frame_duration) as u128
    } else {
        LATE_FRAME_SLEEP_NANOS
    }
}

/// How long to sleep after a frame that took `frame_duration` nanoseconds.
pub fn frame_sleep_nanos(frame_duration: u128) -> (sleep: u128)
    ensures
        sleep == spec_frame_sleep(frame_duration),
{
    if frame_duration < TARGET_FRAME_LATENCY_NANOS {
        TARGET_FRAME_LATENCY_NANOS - frame_duration
    } else {
        LATE_FRAME_SLEEP_NANOS
    }
}

/// Every frame sleeps, so the render thread always gets a turn, and no
/// frame sleeps longer than the target frame time; a frame on time ends,
/// sleep included, exactly at the target.
pub proof fn lemma_frame_sleep_bounds(frame_duration: u128)
    ensures
        0 < spec_frame_sleep(frame_duration) <= TARGET_FRAME_LATENCY_NANOS,
        frame_duration < TARGET_FRAME_LATENCY_NANOS ==> frame_duration + spec_frame_sleep(
            frame_duration,
        ) == TARGET_FRAME_LATENCY_NANOS,
{
}

} // verus!
