//! Countdown timers that drive the decay of the jump and dash states.
//!
//! A timer counts `elapsed_ms` up towards `duration_ms`; the remaining time is
//! the natural-expiry signal. A duration may be shortened in place (used to
//! truncate a jump early on a ceiling bump) but never lengthened.

use vstd::prelude::*;

verus! {

/// Mathematical view of a [`Timer`].
pub struct TimerModel {
    pub duration: int,
    pub elapsed: int,
}

impl TimerModel {
    /// Elapsed time never runs past the duration.
    pub open spec fn wf(self) -> bool {
        0 <= self.elapsed <= self.duration
    }

    /// Advancing the clock by `dt`: elapsed time saturates at the duration.
    pub open spec fn tick(self, dt: int) -> TimerModel {
        TimerModel {
            duration: self.duration,
            elapsed: if self.elapsed + dt <= self.duration {
                self.elapsed + dt
            } else {
                self.duration
            },
        }
    }

    /// Time left until natural expiry.
    pub open spec fn remaining(self) -> int {
        if self.elapsed <= self.duration {
            self.duration - self.elapsed
        } else {
            0
        }
    }
}

/// A countdown with a duration and an elapsed time, both in milliseconds.
#[derive(Clone, Copy, Debug, PartialEq, Eq, Structural)]
pub struct Timer {
    pub duration_ms: u64,
    pub elapsed_ms: u64,
}

impl View for Timer {
    type V = TimerModel;

    open spec fn view(&self) -> TimerModel {
        TimerModel { duration: self.duration_ms as int, elapsed: self.elapsed_ms as int }
    }
}

impl Timer {
    pub open spec fn wf(self) -> bool {
        self@.wf()
    }

    /// A fresh timer with nothing elapsed.
    pub fn new(duration_ms: u64) -> (t: Timer)
        ensures
            t@ == (TimerModel { duration: duration_ms as int, elapsed: 0 }),
            t.wf(),
    {
        Timer { duration_ms, elapsed_ms: 0 }
    }

    /// Advances the elapsed time by `dt_ms`, saturating at the duration.
    pub fn tick(&mut self, dt_ms: u64)
        requires
            old(self).wf(),
        ensures
            final(self)@ == old(self)@.tick(dt_ms as int),
            final(self).wf(),
    {
        if dt_ms <= self.duration_ms - self.elapsed_ms {
            self.elapsed_ms = self.elapsed_ms + dt_ms;
        } else {
            self.elapsed_ms = self.duration_ms;
        }
    }

    /// Time left until natural expiry; zero means expired.
    pub fn remaining_ms(&self) -> (r: u64)
        requires
            self.wf(),
        ensures
            r == self@.remaining(),
    {
        self.duration_ms - self.elapsed_ms
    }

    /// Shortens the duration in place and restarts the elapsed time; the one
    /// mutation of a running timer besides `tick`, used to truncate a jump on
    /// a ceiling bump. A duration is never lengthened.
    pub fn shrink_duration(&mut self, new_duration_ms: u64)
        requires
            new_duration_ms <= old(self).duration_ms,
        ensures
            final(self)@ == (TimerModel { duration: new_duration_ms as int, elapsed: 0 }),
            final(self).wf(),
    {
        self.duration_ms = new_duration_ms;
        self.elapsed_ms = 0;
    }
}

} // verus!
