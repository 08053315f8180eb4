//! Lengths of time, and the clocks.
//!
//! A length of time is a count of nanoseconds. A moment on the monotonic
//! clock is a count of nanoseconds since an origin that the caller fixes; a
//! moment on the system clock is a count of seconds since the Unix epoch,
//! with the nanoseconds into the second where they are wanted.

use vstd::prelude::*;

verus! {

/// A length of time with nanosecond resolution.
#[derive(Clone, Copy, Debug, PartialEq, Eq, Structural)]
pub struct TimeSpan {
    nanos: u128,
}

impl TimeSpan {
    /// The length in nanoseconds.
    pub closed spec fn spec_nanos(self) -> nat {
        self.nanos as nat
    }

    /// A span of `nanos` nanoseconds.
    pub fn from_nanos(nanos: u128) -> (span: Self)
        ensures
            span.spec_nanos() == nanos,
    {
        TimeSpan { nanos }
    }

    /// A span of `millis` milliseconds.
    pub fn from_millis(millis: u64) -> (span: Self)
        ensures
            span.spec_nanos() == millis * 1_000_000,
    {
        let wide: u128 = millis as u128;
        TimeSpan { nanos: wide * 1_000_000 }
    }

    /// A span of `secs` seconds.
    pub fn from_secs(secs: u64) -> (span: Self)
        ensures
            span.spec_nanos() == secs * 1_000_000_000,
    {
        let wide: u128 = secs as u128;
        TimeSpan { nanos: wide * 1_000_000_000 }
    }

    /// The length in nanoseconds.
    pub fn as_nanos(&self) -> (nanos: u128)
        ensures
            nanos == self.spec_nanos(),
    {
        self.nanos
    }
}

/// Time that has passed from `start` to `now`; zero where `now` lies before
/// `start`.
pub open spec fn elapsed_between(start: u128, now: u128) -> nat {
    if now >= start {
        (now - start) as nat
    } else {
        0
    }
}

/// `std::time::Instant`, a moment on the monotonic clock, carried through
/// as it is.
#[verifier::external_type_specification]
#[verifier::external_body]
pub struct ExInstant(std::time::Instant);

/// Reads the monotonic clock through `std::time::Instant::now`. Nothing is
/// claimed of the moment that comes back.
#[verifier::external_body]
pub(crate) fn clock_origin() -> std::time::Instant {
    std::time::Instant::now()
}

/// Nanoseconds that the monotonic clock has advanced since `origin`, through
/// `std::time::Instant::elapsed`. Nothing is claimed of the count that comes
/// back.
#[verifier::external_body]
pub(crate) fn nanos_since(origin: &std::time::Instant) -> u128 {
    origin.elapsed().as_nanos()
}

/// Time since the Unix epoch on the system clock, in whole seconds and
/// nanoseconds into the second, through `std::time::SystemTime::now` and
/// `duration_since`; `None` where the clock reads a time before the epoch.
/// Nothing is claimed of the counts that come back.
#[verifier::external_body]
pub(crate) fn unix_time() -> Option<(u64, u32)> {
    match std::time::SystemTime::now().duration_since(std::time::UNIX_EPOCH) {
        Ok(since) => Some((since.as_secs(), since.subsec_nanos())),
        Err(_) => None,
    }
}

} // verus!
