//! A repeating countdown measured in nanoseconds.

use vstd::prelude::*;
use bevy::time::{Timer, TimerMode};
use std::time::Duration;

verus! {

/// The state of a repeating timer: how long it has run since it last
/// fired, and how long it runs between firings.
#[derive(Clone, Copy, Debug, PartialEq, Eq, Structural)]
pub struct FrameTimer {
    pub elapsed_nanos: u64,
    pub duration_nanos: u64,
}

/// Runs `bevy::time::Timer::tick` on a repeating timer that has the given
/// duration and elapsed time, and hands back the elapsed time it is left
/// with and how often it fired. The timer adds `delta` to its elapsed
/// time, fires once for every whole duration in the sum, and keeps the
/// remainder. It divides by its duration and counts firings in 32 bits,
/// which is why both are demanded here.
#[verifier::external_body]
fn repeating_tick(elapsed: u64, duration: u64, delta: u64) -> (r: (u64, u32))
    requires
        duration > 0,
        (elapsed + delta) / (duration as int) <= u32::MAX,
    ensures
        r.0 == (elapsed + delta) % (duration as int),
        r.1 == (elapsed + delta) / (duration as int),
{
    let mut timer = Timer::new(Duration::from_nanos(duration), TimerMode::Repeating);
    timer.set_elapsed(Duration::from_nanos(elapsed));
    timer.tick(Duration::from_nanos(delta));
    (timer.elapsed().as_nanos() as u64, timer.times_finished_this_tick())
}

impl FrameTimer {
    /// Whether the timer can take a step of `delta` nanoseconds: it has a
    /// duration, and the number of firings in one step fits 32 bits.
    pub open spec fn can_tick(self, delta: u64) -> bool {
        self.duration_nanos > 0 && (self.elapsed_nanos + delta) / (self.duration_nanos as int)
            <= u32::MAX
    }

    /// The timer after a step of `delta` nanoseconds.
    pub open spec fn ticked(self, delta: u64) -> FrameTimer {
        FrameTimer {
            elapsed_nanos: ((self.elapsed_nanos + delta) % (self.duration_nanos as int)) as u64,
            duration_nanos: self.duration_nanos,
        }
    }

    /// Whether a step of `delta` nanoseconds makes the timer fire.
    pub open spec fn fires(self, delta: u64) -> bool {
        self.elapsed_nanos + delta >= self.duration_nanos
    }

    /// A timer at rest with the given duration.
    pub fn new(duration_nanos: u64) -> (r: FrameTimer)
        ensures
            r == (FrameTimer { elapsed_nanos: 0, duration_nanos }),
    {
        FrameTimer { elapsed_nanos: 0, duration_nanos }
    }

    /// Whether the timer can take a step of `delta` nanoseconds.
    pub fn tickable(&self, delta: u64) -> (r: bool)
        ensures
            r == self.can_tick(delta),
    {
        if self.duration_nanos == 0 {
            return false;
        }
        let total: u128 = self.elapsed_nanos as u128 + delta as u128;
        total / (self.duration_nanos as u128) <= u32::MAX as u128
    }

    /// Advances the timer by `delta` nanoseconds and says whether it fired.
    pub fn tick(&mut self, delta: u64) -> (fired: bool)
        requires
            old(self).can_tick(delta),
        ensures
            *final(self) == old(self).ticked(delta),
            fired == old(self).fires(delta),
    {
        let (elapsed, times) = repeating_tick(self.elapsed_nanos, self.duration_nanos, delta);
        proof {
            let total = self.elapsed_nanos + delta;
            let d = self.duration_nanos as int;
            assert(total >= d <==> total / d > 0) by (nonlinear_arith)
                requires
                    total >= 0,
                    d > 0,
            ;
        }
        self.elapsed_nanos = elapsed;
        times > 0
    }

    /// Changes how long the timer runs between firings.
    pub fn set_duration(&mut self, duration_nanos: u64)
        ensures
            *final(self) == (FrameTimer { duration_nanos, ..*old(self) }),
    {
        self.duration_nanos = duration_nanos;
    }
}

} // verus!
