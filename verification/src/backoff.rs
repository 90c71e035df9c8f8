//! The backoff configuration.
//!
//! A [`Backoff`] owns the five knobs of the retry strategy: the attempt
//! budget, the smallest and largest wait, the multiplicative growth factor,
//! and the jitter share. The jitter share is kept in hundredths (an integer
//! from 0 to 100), so every wait computation downstream runs in exact integer
//! arithmetic.

use vstd::prelude::*;

use crate::duration::Duration;
use crate::duration::MAX_NANOS;
use crate::into_iter::IntoIter;

verus! {

/// The mathematical content of a [`Backoff`]: durations as nanosecond counts.
pub struct BackoffView {
    /// How many attempts the caller may make before giving up.
    pub max_attempts: u32,
    /// The smallest wait, in nanoseconds; also the very first wait.
    pub min: nat,
    /// The largest wait, in nanoseconds.
    pub max: nat,
    /// The share of a wait that jitter may move it by, in hundredths.
    pub jitter: u32,
    /// The base of the exponential growth.
    pub factor: u32,
}

impl BackoffView {
    /// The configuration's invariant: the jitter share is at most one whole,
    /// and both bounds are representable durations.
    pub open spec fn wf(&self) -> bool {
        &&& self.jitter <= 100
        &&& self.min <= MAX_NANOS
        &&& self.max <= MAX_NANOS
    }
}

/// An exponential backoff configuration.
#[derive(Clone, Copy, Debug)]
pub struct Backoff {
    pub(crate) max_attempts: u32,
    pub(crate) min: Duration,
    pub(crate) max: Duration,
    pub(crate) jitter: u32,
    pub(crate) factor: u32,
}

impl View for Backoff {
    type V = BackoffView;

    closed spec fn view(&self) -> BackoffView {
        BackoffView {
            max_attempts: self.max_attempts,
            min: self.min@,
            max: self.max@,
            jitter: self.jitter,
            factor: self.factor,
        }
    }
}

impl Backoff {
    /// Creates a configuration with the given attempt budget and wait bounds.
    /// A missing maximum means "unbounded": the largest representable
    /// duration. The jitter share defaults to 30 hundredths and the growth
    /// factor to 2.
    pub fn new(max_attempts: u32, min: Duration, max: Option<Duration>) -> (b: Backoff)
        requires
            min.wf(),
            (max matches Some(m) ==> m.wf()),
        ensures
            b@ == (BackoffView {
                max_attempts,
                min: min@,
                max: (match max {
                    Some(m) => m@,
                    None => MAX_NANOS as nat,
                }),
                jitter: 30u32,
                factor: 2u32,
            }),
            b@.wf(),
    {
        Backoff {
            max_attempts,
            min,
            max: (match max {
                Some(m) => m,
                None => Duration::max_value(),
            }),
            jitter: 30,
            factor: 2,
        }
    }

    /// Creates a configuration with the given attempt budget and the
    /// documented defaults for everything else: waits between 100
    /// milliseconds and 10 seconds, a jitter share of 30 hundredths, and a
    /// growth factor of 2.
    pub fn with_max_attempts(max_attempts: u32) -> (b: Backoff)
        ensures
            b@ == (BackoffView {
                max_attempts,
                min: 100_000_000 as nat,
                max: 10_000_000_000 as nat,
                jitter: 30u32,
                factor: 2u32,
            }),
            b@.wf(),
    {
        Backoff {
            max_attempts,
            min: Duration::from_millis(100),
            max: Duration::from_secs(10),
            jitter: 30,
            factor: 2,
        }
    }

    /// The smallest wait.
    pub fn min(&self) -> (r: &Duration)
        ensures
            r@ == self@.min,
    {
        &self.min
    }

    /// Replaces the smallest wait.
    pub fn set_min(&mut self, min: Duration)
        requires
            min.wf(),
        ensures
            final(self)@ == (BackoffView { min: min@, ..old(self)@ }),
    {
        self.min = min;
    }

    /// The largest wait.
    pub fn max(&self) -> (r: &Duration)
        ensures
            r@ == self@.max,
    {
        &self.max
    }

    /// Replaces the largest wait.
    pub fn set_max(&mut self, max: Duration)
        requires
            max.wf(),
        ensures
            final(self)@ == (BackoffView { max: max@, ..old(self)@ }),
    {
        self.max = max;
    }

    /// The attempt budget.
    pub fn max_attempts(&self) -> (r: u32)
        ensures
            r == self@.max_attempts,
    {
        self.max_attempts
    }

    /// Replaces the attempt budget. A budget of zero is legal: the generator
    /// then yields the stop signal at once.
    pub fn set_max_attempts(&mut self, max_attempts: u32)
        ensures
            final(self)@ == (BackoffView { max_attempts, ..old(self)@ }),
    {
        self.max_attempts = max_attempts;
    }

    /// The jitter share, in hundredths of the unjittered wait.
    pub fn jitter(&self) -> (r: u32)
        ensures
            r == self@.jitter,
    {
        self.jitter
    }

    /// Replaces the jitter share, given in hundredths. A share above one
    /// whole (100 hundredths) is a caller bug and is ruled out here: it would
    /// turn the jitter draw into a nonsensical multiplier downstream.
    pub fn set_jitter(&mut self, jitter: u32)
        requires
            jitter <= 100,
        ensures
            final(self)@ == (BackoffView { jitter, ..old(self)@ }),
    {
        self.jitter = jitter;
    }

    /// The growth factor.
    pub fn factor(&self) -> (r: u32)
        ensures
            r == self@.factor,
    {
        self.factor
    }

    /// Replaces the growth factor. Any value is accepted; a factor of zero or
    /// one simply stops the waits from growing.
    pub fn set_factor(&mut self, factor: u32)
        ensures
            final(self)@ == (BackoffView { factor, ..old(self)@ }),
    {
        self.factor = factor;
    }

    /// Creates a fresh sequence generator over a copy of this configuration,
    /// with its attempt counter at zero and its own random source.
    pub fn iter(&self) -> (it: IntoIter)
        requires
            self@.wf(),
        ensures
            it@.cfg == self@,
            it@.attempts == 0,
            it.wf(),
    {
        IntoIter::new(self.clone())
    }

    /// Consumes the configuration into a fresh sequence generator, with its
    /// attempt counter at zero and its own random source.
    pub fn into_iter(self) -> (it: IntoIter)
        requires
            self@.wf(),
        ensures
            it@.cfg == self@,
            it@.attempts == 0,
            it.wf(),
    {
        IntoIter::new(self)
    }
}

impl Default for Backoff {
    /// The default configuration: a budget of 3 attempts, waits between 100
    /// milliseconds and 10 seconds, a jitter share of 30 hundredths, and a
    /// growth factor of 2.
    fn default() -> (b: Backoff)
        ensures
            b@ == (BackoffView {
                max_attempts: 3u32,
                min: 100_000_000 as nat,
                max: 10_000_000_000 as nat,
                jitter: 30u32,
                factor: 2u32,
            }),
            b@.wf(),
    {
        Backoff {
            max_attempts: 3,
            min: Duration::from_millis(100),
            max: Duration::from_secs(10),
            jitter: 30,
            factor: 2,
        }
    }
}

} // verus!
