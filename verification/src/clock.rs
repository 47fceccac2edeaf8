//! Moments and durations as plain numbers.
//!
//! A moment of the monotonic clock is a number of nanoseconds since some fixed origin; a moment of
//! the calendar is a number of milliseconds since the Unix epoch. A caller reads both clocks once
//! and hands the reading in.
use vstd::prelude::*;

verus! {

/// Nanoseconds in a millisecond.
pub const NANOS_PER_MILLI: u128 = 1_000_000;

/// Nanoseconds in a second.
pub const NANOS_PER_SEC: u128 = 1_000_000_000;

/// One reading of the two clocks.
#[derive(Clone, Copy)]
pub struct Now {
    /// Milliseconds since the Unix epoch.
    pub unix_ms: u64,
    /// Nanoseconds on the monotonic clock.
    pub instant: u128,
}

/// The nanoseconds from `then` to `now`; none when `then` lies ahead.
pub open spec fn since(now: u128, then: u128) -> u128 {
    if now >= then {
        (now - then) as u128
    } else {
        0
    }
}

/// The whole milliseconds from `then` to `now`.
pub open spec fn since_ms(now: u128, then: u128) -> u128 {
    since(now, then) / NANOS_PER_MILLI
}

/// The whole milliseconds from `then` to `now`, where there is a `then`.
pub open spec fn age_of(now: u128, then: Option<u128>) -> Option<u128> {
    match then {
        Some(t) => Some(since_ms(now, t)),
        None => None,
    }
}

/// `sec` seconds in milliseconds, at most the largest `u64`.
pub open spec fn seconds_ms(sec: u64) -> u64 {
    if sec * 1000 <= u64::MAX {
        (sec * 1000) as u64
    } else {
        u64::MAX
    }
}

/// `a - b`, or zero when `b` is larger.
pub open spec fn less(a: u64, b: u64) -> u64 {
    if a >= b {
        (a - b) as u64
    } else {
        0
    }
}

/// `a + b`, at most the largest `u64`.
pub open spec fn more(a: u64, b: u64) -> u64 {
    if a + b <= u64::MAX {
        (a + b) as u64
    } else {
        u64::MAX
    }
}

/// The nanoseconds from `then` to `now`; none when `then` lies ahead.
pub fn elapsed(now: u128, then: u128) -> (nanos: u128)
    ensures
        nanos == since(now, then),
{
    if now >= then {
        now - then
    } else {
        0
    }
}

/// The whole milliseconds from `then` to `now`.
pub fn elapsed_ms(now: u128, then: u128) -> (ms: u128)
    ensures
        ms == since_ms(now, then),
{
    elapsed(now, then) / NANOS_PER_MILLI
}

/// The whole milliseconds from `then` to `now`, where there is a `then`.
pub fn age_ms(now: u128, then: Option<u128>) -> (ms: Option<u128>)
    ensures
        ms == age_of(now, then),
{
    match then {
        Some(t) => Some(elapsed_ms(now, t)),
        None => None,
    }
}

/// Whether more than `sec` seconds have gone by since `then`.
pub fn older_than(now: u128, then: u128, sec: u64) -> (older: bool)
    ensures
        older == (since(now, then) > sec * NANOS_PER_SEC),
{
    assert(sec * NANOS_PER_SEC <= u128::MAX) by (nonlinear_arith)
        requires
            sec <= u64::MAX,
            NANOS_PER_SEC == 1_000_000_000u128,
    ;
    elapsed(now, then) > sec as u128 * NANOS_PER_SEC
}

/// `sec` seconds in milliseconds, at most the largest `u64`.
pub fn duration_ms(sec: u64) -> (ms: u64)
    ensures
        ms == seconds_ms(sec),
{
    match sec.checked_mul(1000) {
        Some(ms) => ms,
        None => u64::MAX,
    }
}

} // verus!
