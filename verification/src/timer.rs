//! A one-shot debounce timer over whole nanoseconds.

use vstd::prelude::*;

verus! {

/// A timer that runs once from zero to `duration` and then stays finished
/// until it is reset. Times are in nanoseconds.
#[derive(Clone, Copy, Debug, PartialEq, Eq, Structural)]
pub struct SettleTimer {
    /// Time run since the last reset, never past `duration` once finished.
    pub elapsed: u64,
    /// Time the timer has to run before it finishes.
    pub duration: u64,
    /// Whether a tick has carried `elapsed` to `duration`.
    pub finished: bool,
}

/// `elapsed + delta`, stopping at the end of the `u64` range.
pub open spec fn advanced(elapsed: u64, delta: u64) -> u64 {
    if elapsed + delta > u64::MAX {
        u64::MAX
    } else {
        (elapsed + delta) as u64
    }
}

impl SettleTimer {
    /// The timer as it is right after a reset.
    pub open spec fn after_reset(self) -> SettleTimer {
        SettleTimer { elapsed: 0, duration: self.duration, finished: false }
    }

    /// The timer after `delta` more nanoseconds. A finished timer stays as
    /// it is. A running one finishes once the time run reaches `duration`,
    /// and then holds exactly `duration`.
    pub open spec fn after_tick(self, delta: u64) -> SettleTimer {
        if self.finished {
            self
        } else if advanced(self.elapsed, delta) >= self.duration {
            SettleTimer { elapsed: self.duration, duration: self.duration, finished: true }
        } else {
            SettleTimer {
                elapsed: advanced(self.elapsed, delta),
                duration: self.duration,
                finished: false,
            }
        }
    }

    /// A fresh timer: nothing run yet, not finished.
    pub fn new(duration: u64) -> (timer: SettleTimer)
        ensures
            timer == (SettleTimer { elapsed: 0, duration, finished: false }),
    {
        SettleTimer { elapsed: 0, duration, finished: false }
    }

    /// Starts the timer over.
    pub fn reset(&mut self)
        ensures
            *final(self) == old(self).after_reset(),
    {
        self.elapsed = 0;
        self.finished = false;
    }

    /// Advances the timer by `delta` nanoseconds.
    pub fn tick(&mut self, delta: u64)
        ensures
            *final(self) == old(self).after_tick(delta),
    {
        if self.finished {
            return ;
        }
        let run: u64 = if delta > u64::MAX - self.elapsed {
            u64::MAX
        } else {
            self.elapsed + delta
        };
        if run >= self.duration {
            self.elapsed = self.duration;
            self.finished = true;
        } else {
            self.elapsed = run;
        }
    }

    /// Whether the timer has run its full duration since the last reset.
    pub fn finished(&self) -> (done: bool)
        ensures
            done == self.finished,
    {
        self.finished
    }

    /// Nanoseconds run since the last reset.
    pub fn elapsed(&self) -> (nanos: u64)
        ensures
            nanos == self.elapsed,
    {
        self.elapsed
    }

    /// Nanoseconds the timer runs before it finishes.
    pub fn duration(&self) -> (nanos: u64)
        ensures
            nanos == self.duration,
    {
        self.duration
    }
}

} // verus!
