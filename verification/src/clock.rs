//! Whole milliseconds of a `Duration`, and the clock reads the throughput
//! tracker is built on.

use std::time::Duration;
use std::time::SystemTime;
use std::time::SystemTimeError;
use vstd::prelude::*;

verus! {

/// `std::time::SystemTime`, a point on the system clock. Nothing is known of
/// what it holds; values are only carried around and compared.
#[verifier::external_type_specification]
#[verifier::external_body]
pub struct ExSystemTime(SystemTime);

/// `std::time::SystemTimeError`, returned by `SystemTime::elapsed` when the
/// clock reads earlier than the given point.
#[verifier::external_type_specification]
#[verifier::external_body]
pub struct ExSystemTimeError(SystemTimeError);

/// Whole seconds held by a `Duration`, as `Duration::as_secs` reports them.
pub uninterp spec fn duration_secs(d: Duration) -> u64;

/// Nanoseconds beyond the whole seconds of a `Duration`, as
/// `Duration::subsec_nanos` reports them.
pub uninterp spec fn duration_subsec_nanos(d: Duration) -> u32;

/// `Duration::as_secs`: the number of whole seconds in the duration.
pub assume_specification[ Duration::as_secs ](d: &Duration) -> (secs: u64)
    ensures
        secs == duration_secs(*d),
;

/// `Duration::subsec_nanos`: the part of the duration beyond its whole
/// seconds, in nanoseconds.
pub assume_specification[ Duration::subsec_nanos ](d: &Duration) -> (nanos: u32)
    ensures
        nanos == duration_subsec_nanos(*d),
;

/// `SystemTime::now`: the current reading of the system clock. Two reads may
/// differ in either direction, so nothing is promised of the value.
pub assume_specification[ SystemTime::now ]() -> (now: SystemTime)
;

/// `SystemTime::elapsed`: the time from `start` to the current clock reading,
/// or an error when the clock reads earlier than `start`. The outcome depends
/// on the clock, so nothing is promised of it.
pub assume_specification[ SystemTime::elapsed ](start: &SystemTime) -> (elapsed: Result<
    Duration,
    SystemTimeError,
>)
;

/// Milliseconds in one second.
pub const MILLIS_PER_SEC: u64 = 1_000;

/// Nanoseconds in one millisecond.
pub const NANOS_PER_MILLI: u32 = 1_000_000;

/// The whole milliseconds in `secs` seconds plus `nanos` nanoseconds.
pub open spec fn millis_of(secs: u64, nanos: u32) -> int {
    secs * 1000 + nanos / 1_000_000
}

/// The whole milliseconds held by a duration.
pub open spec fn duration_millis(d: Duration) -> int {
    millis_of(duration_secs(d), duration_subsec_nanos(d))
}

/// Whole milliseconds of `n`, truncating what is left of a millisecond.
pub fn millis(n: Duration) -> (ms: u64)
    requires
        duration_millis(n) <= u64::MAX,
    ensures
        ms == duration_millis(n),
{
    let secs: u64 = n.as_secs();
    let nanos: u32 = n.subsec_nanos();
    secs * MILLIS_PER_SEC + (nanos / NANOS_PER_MILLI) as u64
}

/// Whole milliseconds of `n`, or `None` when they do not fit in a `u64`.
pub fn checked_millis(n: Duration) -> (ms: Option<u64>)
    ensures
        ms == if duration_millis(n) <= u64::MAX {
            Some(duration_millis(n) as u64)
        } else {
            None
        },
{
    let secs: u128 = n.as_secs() as u128;
    let sub_millis: u128 = (n.subsec_nanos() / NANOS_PER_MILLI) as u128;
    if secs * 1000 + sub_millis <= u64::MAX as u128 {
        Some(millis(n))
    } else {
        None
    }
}

/// What a clock read counts as, in milliseconds: the elapsed time where the
/// clock moved forward, zero where it reads earlier than the starting point,
/// and `u64::MAX` where the elapsed time is too long for a `u64`.
pub open spec fn reading_millis(elapsed: Result<Duration, SystemTimeError>) -> u64 {
    match elapsed {
        Ok(d) => if duration_millis(d) <= u64::MAX {
            duration_millis(d) as u64
        } else {
            u64::MAX
        },
        Err(_) => 0,
    }
}

/// Turns the result of `SystemTime::elapsed` into milliseconds. A clock that
/// went backwards counts as no time elapsed.
pub fn millis_of_reading(elapsed: Result<Duration, SystemTimeError>) -> (ms: u64)
    ensures
        ms == reading_millis(elapsed),
{
    match elapsed {
        Ok(d) => match checked_millis(d) {
            Some(ms) => ms,
            None => u64::MAX,
        },
        Err(_) => 0,
    }
}

} // verus!
