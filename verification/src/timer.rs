//! The countdown timer that notifications run on: `bevy`'s `Timer`, used in
//! its run-once mode and spoken of in whole nanoseconds.
//!
//! Nothing in this file is proved. Each function states what the timer's
//! source does, over five names for what a timer holds.

use bevy::time::Timer;
use bevy::time::TimerMode;
use std::time::Duration;
use vstd::prelude::*;

verus! {

/// `bevy::time::Timer`, carried as an opaque value.
#[verifier::external_type_specification]
#[verifier::external_body]
pub struct ExTimer(bevy::time::Timer);

/// The time a timer has counted so far, in nanoseconds: `Timer::elapsed`.
pub uninterp spec fn timer_elapsed(t: Timer) -> nat;

/// The time a timer counts up to, in nanoseconds: `Timer::duration`.
pub uninterp spec fn timer_duration(t: Timer) -> nat;

/// Whether a timer is paused, and so deaf to ticks: `Timer::paused`.
pub uninterp spec fn timer_paused(t: Timer) -> bool;

/// Whether a timer has reached its duration under a tick: `Timer::finished`.
pub uninterp spec fn timer_finished(t: Timer) -> bool;

/// Whether a timer starts over when it finishes, `TimerMode::Repeating`,
/// instead of stopping, `TimerMode::Once`: `Timer::mode`.
pub uninterp spec fn timer_repeating(t: Timer) -> bool;

/// The longest time a `Duration` can hold, in nanoseconds: `u64::MAX` seconds
/// and 999,999,999 nanoseconds. Adding beyond it panics.
pub open spec fn duration_limit() -> nat {
    18_446_744_073_709_551_615_999_999_999
}

/// `Timer::new` with `TimerMode::Once`: a run-once timer of the given
/// duration that has counted nothing, is running and has not finished.
#[verifier::external_body]
pub(crate) fn timer_once(duration_nanos: u64) -> (t: Timer)
    ensures
        timer_elapsed(t) == 0,
        timer_duration(t) == duration_nanos,
        !timer_paused(t),
        !timer_finished(t),
        !timer_repeating(t),
{
    Timer::new(Duration::from_nanos(duration_nanos), TimerMode::Once)
}

/// `Timer::tick` on a run-once timer that is running and has not finished:
/// it counts `delta_nanos` more, and if that reaches its duration it stops
/// there, finished. Left out: timers that repeat, are paused or have
/// finished, and a sum too long for a `Duration`.
#[verifier::external_body]
pub(crate) fn timer_tick(t: &mut Timer, delta_nanos: u64)
    requires
        !timer_repeating(*old(t)),
        !timer_paused(*old(t)),
        !timer_finished(*old(t)),
        timer_elapsed(*old(t)) + delta_nanos <= duration_limit(),
    ensures
        timer_duration(*final(t)) == timer_duration(*old(t)),
        !timer_repeating(*final(t)),
        !timer_paused(*final(t)),
        timer_elapsed(*old(t)) + delta_nanos >= timer_duration(*old(t)) ==> timer_finished(
            *final(t),
        ) && timer_elapsed(*final(t)) == timer_duration(*old(t)),
        timer_elapsed(*old(t)) + delta_nanos < timer_duration(*old(t)) ==> !timer_finished(
            *final(t),
        ) && timer_elapsed(*final(t)) == timer_elapsed(*old(t)) + delta_nanos,
{
    t.tick(Duration::from_nanos(delta_nanos));
}

/// `Timer::finished`: whether the timer has finished.
#[verifier::external_body]
pub(crate) fn timer_is_finished(t: &Timer) -> (done: bool)
    ensures
        done == timer_finished(*t),
{
    t.finished()
}

/// `Timer::elapsed`, read in nanoseconds.
#[verifier::external_body]
pub(crate) fn timer_elapsed_nanos(t: &Timer) -> (nanos: u128)
    ensures
        nanos == timer_elapsed(*t),
{
    t.elapsed().as_nanos()
}

/// `Timer::duration`, read in nanoseconds.
#[verifier::external_body]
pub(crate) fn timer_duration_nanos(t: &Timer) -> (nanos: u128)
    ensures
        nanos == timer_duration(*t),
{
    t.duration().as_nanos()
}

} // verus!
