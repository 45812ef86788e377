//! A frame timer over millisecond timestamps.
//!
//! The driver reads the clock and hands each reading in; the timer records
//! the delta between successive ticks. Deltas are never clamped or
//! smoothed: a long stall produces a correspondingly large delta, which
//! systems integrating motion will see as a jump.
use vstd::prelude::*;

verus! {

/// The delta one tick records: the time passed since the previous tick, or
/// zero if the clock reading went backwards.
pub open spec fn tick_delta(last_ms: u64, now_ms: u64) -> u64 {
    if now_ms >= last_ms {
        (now_ms - last_ms) as u64
    } else {
        0u64
    }
}

/// The mathematical value of a `Timer`.
pub ghost struct TimerView {
    pub last_ms: u64,
    pub elapsed_ms: u64,
}

/// Tracks the wall-clock delta between successive frames.
pub struct Timer {
    last_ms: u64,
    elapsed_ms: u64,
}

impl View for Timer {
    type V = TimerView;

    closed spec fn view(&self) -> TimerView {
        TimerView { last_ms: self.last_ms, elapsed_ms: self.elapsed_ms }
    }
}

impl Timer {
    /// A timer whose first tick will measure from `now_ms`; before that
    /// tick the recorded delta is zero.
    pub fn new(now_ms: u64) -> (t: Timer)
        ensures
            t@ == (TimerView { last_ms: now_ms, elapsed_ms: 0u64 }),
    {
        Timer { last_ms: now_ms, elapsed_ms: 0 }
    }

    /// Record the time passed since the previous tick (or since
    /// construction, for the first tick) as the current delta. The
    /// measurement is never retroactive: the reference point advances to
    /// `now_ms`.
    pub fn tick(&mut self, now_ms: u64)
        ensures
            final(self)@ == (TimerView {
                last_ms: now_ms,
                elapsed_ms: tick_delta(old(self)@.last_ms, now_ms),
            }),
    {
        let elapsed: u64 = if now_ms >= self.last_ms {
            now_ms - self.last_ms
        } else {
            0
        };
        self.last_ms = now_ms;
        self.elapsed_ms = elapsed;
    }

    /// The most recently recorded delta, in milliseconds.
    pub fn elapsed(&self) -> (r: u64)
        ensures
            r == self@.elapsed_ms,
    {
        self.elapsed_ms
    }

    /// Whole frames per second at the current delta, rounded down. A zero
    /// delta yields the largest `u64` as a defined stand-in for infinity
    /// instead of trapping on division by zero.
    pub fn fps(&self) -> (r: u64)
        ensures
            self@.elapsed_ms == 0 ==> r == u64::MAX,
            self@.elapsed_ms > 0 ==> r as int == 1000int / (self@.elapsed_ms as int),
    {
        if self.elapsed_ms == 0 {
            u64::MAX
        } else {
            1000 / self.elapsed_ms
        }
    }
}

} // verus!
