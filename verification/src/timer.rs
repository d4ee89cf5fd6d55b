//! Countdown timers driven by frame time.
//!
//! Durations are counted in nanoseconds; callers convert `std::time::Duration`
//! values with `as_nanos`.

use vstd::prelude::*;

verus! {

/// The largest `std::time::Duration`, in nanoseconds: `u64::MAX` seconds and
/// 999 999 999 nanoseconds. Adding past it panics.
pub const MAX_DURATION_NANOS: u128 = 18_446_744_073_709_551_615_999_999_999;

/// A timer that finishes once `period` nanoseconds have elapsed, and starts
/// over if it repeats.
#[derive(Clone, Debug)]
pub struct Timer {
    target: u128,
    elapsed: u128,
    pub repeat: bool,
    just_finished: bool,
}

/// The observable state of a timer.
pub struct TimerState {
    pub target: u128,
    pub elapsed: u128,
    pub repeat: bool,
    pub just_finished: bool,
}

impl View for Timer {
    type V = TimerState;

    closed spec fn view(&self) -> TimerState {
        TimerState {
            target: self.target,
            elapsed: self.elapsed,
            repeat: self.repeat,
            just_finished: self.just_finished,
        }
    }
}

/// The timer has finished: it did so in the last update, or its time is up.
pub open spec fn spec_finished(t: TimerState) -> bool {
    t.just_finished || t.elapsed >= t.target
}

/// The timer after `dt` nanoseconds pass.
pub open spec fn spec_update(t: TimerState, dt: u128) -> TimerState {
    let was_finished = t.elapsed >= t.target;
    let elapsed = t.elapsed + dt;
    if !was_finished && elapsed >= t.target {
        TimerState {
            elapsed: if t.repeat {
                0
            } else {
                elapsed as u128
            },
            just_finished: true,
            ..t
        }
    } else {
        TimerState { elapsed: elapsed as u128, just_finished: false, ..t }
    }
}

impl Timer {
    /// A timer of `duration` nanoseconds that has not started.
    pub fn new(duration: u128, repeat: bool) -> (r: Self)
        ensures
            r@ == (TimerState { target: duration, elapsed: 0, repeat, just_finished: false }),
    {
        Timer { target: duration, elapsed: 0, repeat, just_finished: false }
    }

    /// Let `dt` nanoseconds pass.
    pub fn update(&mut self, dt: u128)
        requires
            old(self)@.elapsed + dt <= MAX_DURATION_NANOS,
        ensures
            final(self)@ == spec_update(old(self)@, dt),
    {
        self.just_finished = false;
        let finished = self.finished();
        self.elapsed = self.elapsed + dt;
        if !finished && self.finished() {
            self.just_finished = true;
            if self.repeat {
                self.elapsed = 0;
            }
        }
    }

    pub fn finished(&self) -> (r: bool)
        ensures
            r == spec_finished(self@),
    {
        self.just_finished || self.elapsed >= self.target
    }

    pub fn just_finished(&self) -> (r: bool)
        ensures
            r == self@.just_finished,
    {
        self.just_finished
    }

    /// Start over.
    pub fn reset(&mut self)
        ensures
            final(self)@ == (TimerState { elapsed: 0, just_finished: false, ..old(self)@ }),
    {
        self.just_finished = false;
        self.elapsed = 0;
    }

    /// The duration of the timer, in nanoseconds.
    pub fn period(&self) -> (r: u128)
        ensures
            r == self@.target,
    {
        self.target
    }

    /// The time elapsed since the timer last started, in nanoseconds.
    pub fn elapsed(&self) -> (r: u128)
        ensures
            r == self@.elapsed,
    {
        self.elapsed
    }

    /// Change the duration and start over.
    pub fn reset_period(&mut self, target: u128)
        ensures
            final(self)@ == (TimerState {
                target,
                elapsed: 0,
                just_finished: false,
                repeat: old(self)@.repeat,
            }),
    {
        self.target = target;
        self.reset();
    }
}

/// An update reports "just finished" exactly when the timer was not yet up
/// and the time passed reaches the period.
pub proof fn lemma_just_finished_on_crossing(t: TimerState, dt: u128)
    ensures
        spec_update(t, dt).just_finished <==> (t.elapsed < t.target && t.elapsed + dt >= t.target),
{
}

/// A repeating timer starts over in the update that finishes it.
pub proof fn lemma_repeating_timer_restarts(t: TimerState, dt: u128)
    requires
        t.repeat,
        t.elapsed < t.target,
        t.elapsed + dt >= t.target,
    ensures
        spec_update(t, dt).elapsed == 0,
        spec_finished(spec_update(t, dt)),
{
}

/// A timer that does not repeat stays finished once it has finished.
pub proof fn lemma_one_shot_timer_stays_finished(t: TimerState, dt: u128)
    requires
        !t.repeat,
        t.elapsed >= t.target,
        t.elapsed + dt <= MAX_DURATION_NANOS,
    ensures
        spec_finished(spec_update(t, dt)),
        !spec_update(t, dt).just_finished,
{
}

} // verus!
