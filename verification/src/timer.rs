//! Countdown timers and stopwatches.
//!
//! Every timeout in the engine (spawn interval, climb cooldown, explosion
//! lifetime, projectile timeout) is a plain duration/elapsed pair advanced
//! imperatively by the simulation's delta time; there is no hidden
//! scheduler, and pausing the simulation clock freezes every timer
//! uniformly.

use vstd::prelude::*;

verus! {

/// A countdown timer: counts elapsed simulation time toward a duration.
///
/// A one-shot timer stays finished once `elapsed_ms` reaches
/// `duration_ms`; a repeating timer wraps its elapsed time around the
/// duration on the tick that completes it.
#[derive(PartialEq, Eq, Structural, Clone, Copy, Debug)]
pub struct Countdown {
    pub duration_ms: u64,
    pub elapsed_ms: u64,
    pub repeating: bool,
}

impl Countdown {
    pub fn new(duration_ms: u64, repeating: bool) -> (t: Countdown)
        ensures
            t.duration_ms == duration_ms,
            t.elapsed_ms == 0,
            t.repeating == repeating,
    {
        Countdown { duration_ms, elapsed_ms: 0, repeating }
    }

    /// Whether the timer has completed its duration.
    pub fn finished(&self) -> (b: bool)
        ensures
            b == (self.elapsed_ms >= self.duration_ms),
    {
        self.elapsed_ms >= self.duration_ms
    }

    /// Advances the timer by `delta_ms` and reports whether the timer
    /// reached its duration on this tick (or, for a one-shot timer that
    /// was already finished, stayed finished).
    pub fn tick(&mut self, delta_ms: u64) -> (fin: bool)
        requires
            old(self).elapsed_ms + delta_ms <= u64::MAX,
        ensures
            fin == (old(self).elapsed_ms + delta_ms >= old(self).duration_ms),
            final(self).duration_ms == old(self).duration_ms,
            final(self).repeating == old(self).repeating,
            !old(self).repeating ==> final(self).elapsed_ms == old(self).elapsed_ms + delta_ms,
            old(self).repeating && !fin ==> final(self).elapsed_ms == old(self).elapsed_ms
                + delta_ms,
            old(self).repeating && fin && old(self).duration_ms > 0 ==> final(self).elapsed_ms == (
            old(self).elapsed_ms + delta_ms) % (old(self).duration_ms as int),
            old(self).repeating && fin && old(self).duration_ms == 0 ==> final(self).elapsed_ms
                == 0,
    {
        let total: u64 = self.elapsed_ms + delta_ms;
        if self.repeating && total >= self.duration_ms {
            if self.duration_ms == 0 {
                self.elapsed_ms = 0;
            } else {
                self.elapsed_ms = total % self.duration_ms;
            }
            true
        } else {
            self.elapsed_ms = total;
            total >= self.duration_ms
        }
    }

    /// Restarts the timer from zero elapsed time.
    pub fn reset(&mut self)
        ensures
            final(self).elapsed_ms == 0,
            final(self).duration_ms == old(self).duration_ms,
            final(self).repeating == old(self).repeating,
    {
        self.elapsed_ms = 0;
    }

    /// Replaces the duration, keeping the elapsed time.
    pub fn set_duration(&mut self, duration_ms: u64)
        ensures
            final(self).duration_ms == duration_ms,
            final(self).elapsed_ms == old(self).elapsed_ms,
            final(self).repeating == old(self).repeating,
    {
        self.duration_ms = duration_ms;
    }
}

/// A monotonically increasing measure of elapsed simulation time.
///
/// Schedule keys are compared against this watch, not wall-clock time, so
/// pausing the simulation pauses schedule progression too.
#[derive(PartialEq, Eq, Structural, Clone, Copy, Debug)]
pub struct Stopwatch {
    pub elapsed_ms: u64,
}

impl Stopwatch {
    pub fn new() -> (w: Stopwatch)
        ensures
            w.elapsed_ms == 0,
    {
        Stopwatch { elapsed_ms: 0 }
    }

    /// Advances the watch by `delta_ms`.
    pub fn tick(&mut self, delta_ms: u64)
        requires
            old(self).elapsed_ms + delta_ms <= u64::MAX,
        ensures
            final(self).elapsed_ms == old(self).elapsed_ms + delta_ms,
    {
        self.elapsed_ms = self.elapsed_ms + delta_ms;
    }

    /// The whole-second count of the elapsed time.
    pub fn whole_seconds(&self) -> (s: u64)
        ensures
            s == self.elapsed_ms / 1000,
    {
        self.elapsed_ms / 1000
    }
}

} // verus!
