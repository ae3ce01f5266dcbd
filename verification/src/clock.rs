//! Time as the entries see it: spans of whole nanoseconds, and a monotonic
//! clock that is read as the nanoseconds elapsed since a fixed origin.

use vstd::prelude::*;
use std::time::Duration;
use std::time::Instant;

verus! {

/// `std::time::Instant`, a reading of the monotonic clock. Opaque here: an
/// entry only keeps one as the origin from which it counts.
#[verifier::external_type_specification]
#[verifier::external_body]
pub struct ExInstant(std::time::Instant);

/// `Instant::now`: the current reading of the monotonic clock. Nothing is
/// claimed of the value.
pub assume_specification[ Instant::now ]() -> (i: Instant);

/// `Instant::elapsed`: the time that has passed since the instant was taken.
/// Nothing is claimed of the value.
pub assume_specification[ Instant::elapsed ](i: &Instant) -> (d: Duration);

/// `Duration::as_secs`: the whole seconds of a duration. Nothing is claimed of
/// the value.
pub assume_specification[ Duration::as_secs ](d: &Duration) -> (s: u64);

/// `Duration::subsec_nanos`: the fractional part of a duration in nanoseconds.
/// Nothing is claimed of the value beyond its type.
pub assume_specification[ Duration::subsec_nanos ](d: &Duration) -> (n: u32);

/// Nanoseconds in one second.
pub const NANOS_PER_SEC: u128 = 1_000_000_000;

/// Nanoseconds in one millisecond.
pub const NANOS_PER_MILLI: u128 = 1_000_000;

/// The largest reading that the clock can give, and the longest span that a
/// `TimeSpan` can hold: `u64::MAX` seconds and `u32::MAX` nanoseconds.
pub open spec fn max_nanos() -> nat {
    (u64::MAX as nat) * (NANOS_PER_SEC as nat) + (u32::MAX as nat)
}

/// Whole seconds and additional nanoseconds, joined into nanoseconds.
pub open spec fn joined_nanos(secs: u64, nanos: u32) -> nat {
    (secs as nat) * (NANOS_PER_SEC as nat) + (nanos as nat)
}

/// Joins whole seconds and additional nanoseconds into nanoseconds.
pub fn join_nanos(secs: u64, nanos: u32) -> (n: u128)
    ensures
        n == joined_nanos(secs, nanos),
        n <= max_nanos(),
{
    assert((secs as nat) * (NANOS_PER_SEC as nat) <= (u64::MAX as nat) * (NANOS_PER_SEC as nat))
        by (nonlinear_arith)
        requires
            secs <= u64::MAX,
    ;
    (secs as u128) * NANOS_PER_SEC + (nanos as u128)
}

/// A span of time, kept as whole seconds and the nanoseconds beyond them.
#[derive(Clone, Copy, Debug)]
pub struct TimeSpan {
    secs: u64,
    nanos: u32,
}

impl View for TimeSpan {
    type V = nat;

    /// The length of the span in nanoseconds.
    closed spec fn view(&self) -> nat {
        joined_nanos(self.secs, self.nanos)
    }
}

impl TimeSpan {
    /// A span of `secs` whole seconds.
    pub fn from_secs(secs: u64) -> (t: TimeSpan)
        ensures
            t@ == secs * NANOS_PER_SEC,
    {
        TimeSpan { secs, nanos: 0 }
    }

    /// A span of `millis` milliseconds.
    pub fn from_millis(millis: u64) -> (t: TimeSpan)
        ensures
            t@ == millis * NANOS_PER_MILLI,
    {
        let nanos: u32 = ((millis % 1000) as u32) * 1_000_000;
        let t = TimeSpan { secs: millis / 1000, nanos };
        assert(t@ == millis * NANOS_PER_MILLI) by {
            assert(millis == (millis / 1000) * 1000 + millis % 1000);
            assert(((millis / 1000) * 1000 + millis % 1000) * 1_000_000 == (millis / 1000)
                * 1_000_000_000 + (millis % 1000) * 1_000_000) by (nonlinear_arith);
        }
        t
    }

    /// No span is longer than the longest that the clock can measure.
    pub proof fn lemma_bounded(self)
        ensures
            self@ <= max_nanos(),
    {
        assert((self.secs as nat) * (NANOS_PER_SEC as nat) <= (u64::MAX as nat) * (
        NANOS_PER_SEC as nat)) by (nonlinear_arith)
            requires
                self.secs <= u64::MAX,
        ;
    }

    /// The length of the span in nanoseconds.
    pub fn as_nanos(&self) -> (n: u128)
        ensures
            n == self@,
            n <= max_nanos(),
    {
        join_nanos(self.secs, self.nanos)
    }
}

/// Reads the clock as the nanoseconds that have passed since `origin`. The
/// reading differs from call to call, so only its range is known.
pub fn elapsed_nanos(origin: &Instant) -> (n: u128)
    ensures
        n <= max_nanos(),
{
    let d = origin.elapsed();
    join_nanos(d.as_secs(), d.subsec_nanos())
}

} // verus!
