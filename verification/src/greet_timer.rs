//! The countdown to the welcome, kept by a `bevy::time::Timer`.

use crate::clock::{
    once_timer, read_elapsed_nanos, read_finished, read_just_finished, tick_timer,
    timer_duration_nanos, timer_elapsed_nanos, timer_finished, timer_just_finished, timer_paused,
    timer_repeating,
};
use crate::countdown::{Countdown, GREET_DELAY_NANOS};
use bevy::time::Timer;
use vstd::prelude::*;

verus! {

/// A one-shot timer of [`GREET_DELAY_NANOS`] that is never paused.
pub struct GreetTimer(Timer);

impl View for GreetTimer {
    type V = Countdown;

    closed spec fn view(&self) -> Countdown {
        Countdown {
            elapsed: timer_elapsed_nanos(self.0),
            just_finished: timer_just_finished(self.0),
        }
    }
}

impl GreetTimer {
    #[verifier::type_invariant]
    closed spec fn well_formed(&self) -> bool {
        &&& timer_duration_nanos(self.0) == GREET_DELAY_NANOS
        &&& !timer_paused(self.0)
        &&& !timer_repeating(self.0)
        &&& timer_elapsed_nanos(self.0) <= GREET_DELAY_NANOS
        &&& timer_finished(self.0) == (timer_elapsed_nanos(self.0) >= GREET_DELAY_NANOS)
    }

    /// A timer on which no frame has been counted yet.
    pub fn new() -> (timer: GreetTimer)
        ensures
            timer@ == Countdown::fresh(),
    {
        GreetTimer(once_timer(GREET_DELAY_NANOS))
    }

    /// Counts a frame of `delta_nanos` nanoseconds and tells whether this is
    /// the frame in which the delay was reached.
    pub fn tick(&mut self, delta_nanos: u128) -> (reached: bool)
        ensures
            final(self)@ == old(self)@.tick(delta_nanos as nat),
            reached == old(self)@.reaches_delay(delta_nanos as nat),
    {
        proof {
            use_type_invariant(&*self);
        }
        // The timer takes a frame of up to `u64::MAX` nanoseconds. A longer
        // one is cut down to that: either way the delay is reached.
        let step: u64 = if delta_nanos > u64::MAX as u128 {
            u64::MAX
        } else {
            delta_nanos as u64
        };
        tick_timer(&mut self.0, step);
        read_just_finished(&self.0)
    }

    /// Frame time counted so far, in nanoseconds; never more than the delay.
    pub fn elapsed_nanos(&self) -> (nanos: u64)
        ensures
            nanos == self@.elapsed,
            nanos <= GREET_DELAY_NANOS,
    {
        proof {
            use_type_invariant(self);
        }
        read_elapsed_nanos(&self.0) as u64
    }

    /// Whether the delay has been reached.
    pub fn finished(&self) -> (reached: bool)
        ensures
            reached == self@.finished(),
    {
        proof {
            use_type_invariant(self);
        }
        read_finished(&self.0)
    }

    /// Whether the last frame counted was the one that reached the delay.
    pub fn just_finished(&self) -> (marked: bool)
        ensures
            marked == self@.just_finished,
    {
        read_just_finished(&self.0)
    }
}

} // verus!
