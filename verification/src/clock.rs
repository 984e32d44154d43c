//! The trusted boundary to `bevy::time::Timer`.
//!
//! Nothing in this file is proved. The timer is an opaque value; what the
//! library may know about it is given by six observations, one per getter of
//! the timer, and by the contracts of the calls the library makes. Times are
//! whole nanoseconds throughout.

use bevy::time::{Timer, TimerMode};
use std::time::Duration;
use vstd::prelude::*;

verus! {

/// `bevy::time::Timer`, declared so that the library can hold and pass one.
/// Nothing is known of its fields.
#[verifier::external_type_specification]
#[verifier::external_body]
pub struct ExTimer(bevy::time::Timer);

/// What `Timer::duration` reports, in nanoseconds.
pub uninterp spec fn timer_duration_nanos(timer: Timer) -> nat;

/// What `Timer::elapsed` reports, in nanoseconds.
pub uninterp spec fn timer_elapsed_nanos(timer: Timer) -> nat;

/// What `Timer::finished` reports.
pub uninterp spec fn timer_finished(timer: Timer) -> bool;

/// What `Timer::just_finished` reports.
pub uninterp spec fn timer_just_finished(timer: Timer) -> bool;

/// What `Timer::paused` reports.
pub uninterp spec fn timer_paused(timer: Timer) -> bool;

/// Whether `Timer::mode` reports `TimerMode::Repeating`.
pub uninterp spec fn timer_repeating(timer: Timer) -> bool;

/// `Timer::new` with `TimerMode::Once`.
///
/// Trusted: the new timer has the given duration and the mode it was asked
/// for; every other field is at its default, so no time has elapsed, the
/// timer is running, and it neither is nor has just become finished.
#[verifier::external_body]
pub(crate) fn once_timer(duration_nanos: u64) -> (timer: Timer)
    ensures
        timer_duration_nanos(timer) == duration_nanos,
        timer_elapsed_nanos(timer) == 0,
        !timer_finished(timer),
        !timer_just_finished(timer),
        !timer_paused(timer),
        !timer_repeating(timer),
{
    Timer::new(Duration::from_nanos(duration_nanos), TimerMode::Once)
}

/// `Timer::tick`, for a running timer that does not repeat.
///
/// Trusted: a finished timer only clears its just-finished mark. Otherwise
/// `delta_nanos` is added to the elapsed time; if that reaches the duration,
/// the timer becomes finished, is marked as just finished, and its elapsed
/// time is set to the duration; if not, it stays unfinished and unmarked.
/// Duration, mode and pause state are never touched.
///
/// The bound on the elapsed time keeps the addition inside `Duration`, whose
/// `+=` panics on overflow; nothing else in the call can panic.
#[verifier::external_body]
pub(crate) fn tick_timer(timer: &mut Timer, delta_nanos: u64)
    requires
        !timer_paused(*old(timer)),
        !timer_repeating(*old(timer)),
        timer_elapsed_nanos(*old(timer)) <= u64::MAX,
    ensures
        timer_duration_nanos(*final(timer)) == timer_duration_nanos(*old(timer)),
        !timer_paused(*final(timer)),
        !timer_repeating(*final(timer)),
        timer_finished(*old(timer)) ==> {
            &&& timer_finished(*final(timer))
            &&& !timer_just_finished(*final(timer))
            &&& timer_elapsed_nanos(*final(timer)) == timer_elapsed_nanos(*old(timer))
        },
        !timer_finished(*old(timer)) ==> {
            let total = timer_elapsed_nanos(*old(timer)) + delta_nanos;
            let reached = total >= timer_duration_nanos(*old(timer));
            &&& timer_finished(*final(timer)) == reached
            &&& timer_just_finished(*final(timer)) == reached
            &&& reached ==> timer_elapsed_nanos(*final(timer)) == timer_duration_nanos(*old(timer))
            &&& !reached ==> timer_elapsed_nanos(*final(timer)) == total
        },
    no_unwind
{
    timer.tick(Duration::from_nanos(delta_nanos));
}

/// `Timer::elapsed`, read in nanoseconds.
///
/// Trusted: it is the elapsed time that the contracts above speak of.
#[verifier::external_body]
pub(crate) fn read_elapsed_nanos(timer: &Timer) -> (nanos: u128)
    ensures
        nanos == timer_elapsed_nanos(*timer),
{
    timer.elapsed().as_nanos()
}

/// `Timer::finished`.
///
/// Trusted: it is the finished state that the contracts above speak of.
#[verifier::external_body]
pub(crate) fn read_finished(timer: &Timer) -> (reached: bool)
    ensures
        reached == timer_finished(*timer),
{
    timer.finished()
}

/// `Timer::just_finished`.
///
/// Trusted: it is the mark that the contracts above speak of.
#[verifier::external_body]
pub(crate) fn read_just_finished(timer: &Timer) -> (marked: bool)
    ensures
        marked == timer_just_finished(*timer),
{
    timer.just_finished()
}

} // verus!
