//! Time as plain numbers.
//!
//! Nothing can be proved of what is inside a `std::time::Duration` or a
//! `std::time::Instant`. The rate limiting logic therefore works on nanosecond
//! counts (`u128`), and this module converts at the boundary.

use std::time::Duration;
use std::time::Instant;
use vstd::prelude::*;

verus! {

/// Nanoseconds in one second.
pub const NANOS_PER_SEC: u128 = 1_000_000_000;

/// The largest nanosecond count a `Duration` can hold:
/// `u64::MAX` whole seconds and 999 999 999 nanoseconds.
pub const MAX_DURATION_NANOS: u128 = 18_446_744_073_709_551_615_999_999_999;

/// The whole seconds of a duration, as `Duration::as_secs` reports them.
pub uninterp spec fn duration_secs(d: Duration) -> u64;

/// The sub-second part of a duration in nanoseconds, as
/// `Duration::subsec_nanos` reports it.
pub uninterp spec fn duration_subsec_nanos(d: Duration) -> u32;

/// The length of a duration in nanoseconds.
pub open spec fn duration_nanos(d: Duration) -> nat {
    (duration_secs(d) * NANOS_PER_SEC + duration_subsec_nanos(d)) as nat
}

/// `std::time::Instant`, carried through as an opaque value.
#[verifier::external_type_specification]
#[verifier::external_body]
pub struct ExInstant(Instant);

/// Trusted: `Duration::as_secs` returns the number of whole seconds contained
/// in the duration. The contract only names that number.
pub assume_specification[ Duration::as_secs ](d: &Duration) -> (secs: u64)
    ensures
        secs == duration_secs(*d),
;

/// Trusted: `Duration::subsec_nanos` returns the fractional part of the
/// duration in nanoseconds, which is always less than one billion.
pub assume_specification[ Duration::subsec_nanos ](d: &Duration) -> (nanos: u32)
    ensures
        nanos == duration_subsec_nanos(*d),
        nanos < 1_000_000_000,
;

/// Trusted: `Duration::new` builds a duration from whole seconds and
/// additional nanoseconds. Below one billion nanoseconds nothing carries over
/// into the seconds, so the parts are kept as given (and the call cannot
/// panic).
#[verifier::external_body]
pub(crate) fn duration_from(secs: u64, nanos: u32) -> (d: Duration)
    requires
        nanos < 1_000_000_000,
    ensures
        duration_secs(d) == secs,
        duration_subsec_nanos(d) == nanos,
{
    Duration::new(secs, nanos)
}

/// Trusted: `Instant::now` returns the current reading of the monotonic clock.
/// Nothing is claimed of the value.
pub assume_specification[ Instant::now ]() -> Instant;

/// Trusted: `Instant::elapsed` returns the time that has passed since the
/// instant was taken. Nothing is claimed of the value.
pub assume_specification[ Instant::elapsed ](instant: &Instant) -> Duration;

/// The length of `d` in nanoseconds.
pub fn nanos_of(d: &Duration) -> (n: u128)
    ensures
        n == duration_nanos(*d),
        n <= MAX_DURATION_NANOS,
{
    let secs: u64 = d.as_secs();
    let sub: u32 = d.subsec_nanos();
    (secs as u128) * NANOS_PER_SEC + (sub as u128)
}

/// The duration that is `n` nanoseconds long.
pub fn duration_of(n: u128) -> (d: Duration)
    requires
        n <= MAX_DURATION_NANOS,
    ensures
        duration_nanos(d) == n,
{
    let secs: u128 = n / NANOS_PER_SEC;
    let sub: u128 = n % NANOS_PER_SEC;
    duration_from(secs as u64, sub as u32)
}

/// Time that has passed between two readings of one clock. A reading that
/// lies before `start` counts as no time at all, as `Instant::duration_since`
/// does.
pub open spec fn elapsed_between(start: u128, now: u128) -> nat {
    if now >= start {
        (now - start) as nat
    } else {
        0
    }
}

/// Computes [`elapsed_between`].
pub fn nanos_between(start: u128, now: u128) -> (e: u128)
    ensures
        e == elapsed_between(start, now),
{
    if now >= start {
        now - start
    } else {
        0
    }
}

/// A monotonic clock that counts nanoseconds from the moment it was started.
pub struct Clock {
    epoch: Instant,
}

impl Clock {
    /// Starts a clock.
    pub fn start() -> Clock {
        Clock { epoch: Instant::now() }
    }

    /// Nanoseconds since the clock was started.
    pub fn now(&self) -> (n: u128)
        ensures
            n <= MAX_DURATION_NANOS,
    {
        let since: Duration = self.epoch.elapsed();
        nanos_of(&since)
    }
}

} // verus!
