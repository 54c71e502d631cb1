//! Stream time, counted in timer ticks.
//!
//! The codec engine measures every frame in ticks of 1/352,800,000 second, a
//! resolution that every MPEG audio sample rate divides evenly. Positions and
//! durations are kept in ticks so that they add up without rounding, and so
//! are the bounds of an interval.

use vstd::prelude::*;

verus! {

/// Timer ticks in one second.
pub const TICKS_PER_SECOND: u64 = 352_800_000;

/// Timer ticks in one millisecond.
pub const TICKS_PER_MILLISECOND: u64 = 352_800;

/// A time span as the codec engine reports it: whole seconds and a fraction
/// of a second in ticks.
#[derive(Clone, Copy, Debug, PartialEq, Eq, Structural)]
pub struct MadTimer {
    pub seconds: i64,
    pub fraction: u64,
}

/// The length of `timer` in ticks; a span that is negative counts as empty,
/// one beyond 64 bits as the longest span there is.
pub open spec fn timer_ticks(timer: MadTimer) -> int {
    let ticks = timer.seconds * TICKS_PER_SECOND + timer.fraction;
    if ticks < 0 {
        0
    } else if ticks > u64::MAX {
        u64::MAX as int
    } else {
        ticks
    }
}

/// The position reached `duration` ticks after `position`. Positions stop at
/// the largest 64-bit value.
pub open spec fn advanced(position: int, duration: int) -> int {
    if position + duration > u64::MAX {
        u64::MAX as int
    } else {
        position + duration
    }
}

/// The first tick of millisecond `ms`, as far as ticks go in 64 bits.
pub open spec fn millis_ticks(ms: int) -> int {
    if ms * TICKS_PER_MILLISECOND > u64::MAX {
        u64::MAX as int
    } else {
        ms * TICKS_PER_MILLISECOND
    }
}

/// The length of `timer` in ticks.
pub fn timer_to_ticks(timer: &MadTimer) -> (ticks: u64)
    ensures
        ticks == timer_ticks(*timer),
{
    let per_second: i128 = 352_800_000;
    assert(per_second == TICKS_PER_SECOND);
    let total: i128 = timer.seconds as i128 * per_second + timer.fraction as i128;
    if total < 0 {
        0
    } else if total > u64::MAX as i128 {
        u64::MAX
    } else {
        total as u64
    }
}

/// The position reached `duration` ticks after `position`.
pub fn advance(position: u64, duration: u64) -> (next: u64)
    ensures
        next == advanced(position as int, duration as int),
        next >= position,
{
    if duration > u64::MAX - position {
        u64::MAX
    } else {
        position + duration
    }
}

/// The first tick of millisecond `ms`.
pub fn millis_to_ticks(ms: u64) -> (ticks: u64)
    ensures
        ticks == millis_ticks(ms as int),
{
    assert(TICKS_PER_MILLISECOND == 352_800);
    let ticks: u128 = ms as u128 * 352_800;
    if ticks > u64::MAX as u128 {
        u64::MAX
    } else {
        ticks as u64
    }
}

/// The whole milliseconds that have passed at `ticks`.
pub fn ticks_to_millis(ticks: u64) -> (ms: u64)
    ensures
        ms == ticks / TICKS_PER_MILLISECOND,
        ms * TICKS_PER_MILLISECOND <= ticks < (ms + 1) * TICKS_PER_MILLISECOND,
{
    ticks / TICKS_PER_MILLISECOND
}

} // verus!
