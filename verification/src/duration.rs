//! A span of time, counted in whole nanoseconds.
//!
//! Wait times are computed in plain integer arithmetic, so the library keeps
//! its own duration type: a nanosecond count bounded by [`MAX_NANOS`], the
//! largest value the conventional seconds-plus-nanoseconds clock
//! representation can hold. All arithmetic on it saturates at that bound.

use vstd::prelude::*;

verus! {

/// The nanosecond count of the largest representable duration:
/// `u64::MAX` seconds plus `999_999_999` nanoseconds.
pub const MAX_NANOS: u128 = 18_446_744_073_709_551_615 * 1_000_000_000 + 999_999_999;

/// A non-negative span of time with nanosecond resolution.
#[derive(Clone, Copy, Debug, PartialEq, Eq, Structural, PartialOrd, Ord, Hash)]
pub struct Duration {
    nanos: u128,
}

impl View for Duration {
    type V = nat;

    closed spec fn view(&self) -> nat {
        self.nanos as nat
    }
}

impl Duration {
    /// A duration is well formed when it does not exceed the largest
    /// representable duration.
    pub open spec fn wf(&self) -> bool {
        self@ <= MAX_NANOS
    }

    /// The duration of `nanos` nanoseconds.
    pub fn from_nanos(nanos: u64) -> (d: Duration)
        ensures
            d@ == nanos,
            d.wf(),
    {
        Duration { nanos: nanos as u128 }
    }

    /// The duration of `micros` microseconds.
    pub fn from_micros(micros: u64) -> (d: Duration)
        ensures
            d@ == micros * 1_000,
            d.wf(),
    {
        Duration { nanos: micros as u128 * 1_000 }
    }

    /// The duration of `millis` milliseconds.
    pub fn from_millis(millis: u64) -> (d: Duration)
        ensures
            d@ == millis * 1_000_000,
            d.wf(),
    {
        Duration { nanos: millis as u128 * 1_000_000 }
    }

    /// The duration of `secs` seconds.
    pub fn from_secs(secs: u64) -> (d: Duration)
        ensures
            d@ == secs * 1_000_000_000,
            d.wf(),
    {
        Duration { nanos: secs as u128 * 1_000_000_000 }
    }

    /// The largest representable duration.
    pub fn max_value() -> (d: Duration)
        ensures
            d@ == MAX_NANOS,
            d.wf(),
    {
        Duration { nanos: MAX_NANOS }
    }

    /// The duration of `nanos` nanoseconds, capped at the largest
    /// representable duration.
    pub fn from_nanos_saturating(nanos: u128) -> (d: Duration)
        ensures
            d@ == if nanos <= MAX_NANOS {
                nanos as nat
            } else {
                MAX_NANOS as nat
            },
            d.wf(),
    {
        if nanos > MAX_NANOS {
            Duration { nanos: MAX_NANOS }
        } else {
            Duration { nanos }
        }
    }

    /// The duration's nanosecond count.
    pub fn as_nanos(&self) -> (n: u128)
        ensures
            n == self@,
    {
        self.nanos
    }
}

} // verus!
