//! The sequence generator: the algorithmic core.
//!
//! An [`IntoIter`] owns a copy of the configuration, an attempt counter, and
//! its own random source. Each call to [`IntoIter::next`] yields one value:
//! `Some(Some(d))` — wait for `d` before the next attempt; `Some(None)` — the
//! stop signal, give up without sleeping; `None` — the generator is
//! exhausted. A budget of `n >= 1` gives exactly `n` values, the first
//! `n - 1` of them waits; a budget of zero gives the stop signal alone.

use vstd::prelude::*;

use vstd::arithmetic::div_mod::lemma_div_is_ordered;
use vstd::arithmetic::div_mod::lemma_div_multiples_vanish;
use vstd::arithmetic::mul::lemma_mul_is_associative;
use vstd::arithmetic::mul::lemma_mul_is_commutative;
use vstd::arithmetic::mul::lemma_mul_left_inequality;
use vstd::arithmetic::mul::lemma_mul_nonnegative;
use vstd::arithmetic::mul::lemma_mul_upper_bound;
use vstd::arithmetic::power::lemma0_pow;
use vstd::arithmetic::power::lemma1_pow;
use vstd::arithmetic::power::lemma_pow0;
use vstd::arithmetic::power::lemma_pow_increases;
use vstd::arithmetic::power::lemma_pow_positive;
use vstd::arithmetic::power::pow;

use crate::backoff::Backoff;
use crate::backoff::BackoffView;
use crate::duration::Duration;
use crate::duration::MAX_NANOS;
use crate::rng::fresh_rng;
use crate::rng::rng_u32_below;

verus! {

// ---------------------------------------------------------------------------
// The shape of the yielded sequence.
// ---------------------------------------------------------------------------

/// The three shapes a call to [`IntoIter::next`] can answer with.
pub enum Step {
    /// A wait duration: sleep, then attempt again.
    Wait,
    /// The stop signal: give up without sleeping.
    Stop,
    /// The sequence has ended; there is nothing more to yield.
    Exhausted,
}

/// How many values a generator with attempt budget `n` yields in all: `n`
/// for a positive budget, and one — the stop signal alone — for a budget of
/// zero.
pub open spec fn total_yields(n: u32) -> u32 {
    if n == 0 {
        1u32
    } else {
        n
    }
}

/// The shape of the value yielded by a call made after `c` values have
/// already been yielded under attempt budget `n`.
pub open spec fn step_at(n: u32, c: u32) -> Step {
    if c >= total_yields(n) {
        Step::Exhausted
    } else if c + 1 == total_yields(n) {
        Step::Stop
    } else {
        Step::Wait
    }
}

/// The shape of one yielded value.
pub open spec fn step_of(r: Option<Option<Duration>>) -> Step {
    match r {
        None => Step::Exhausted,
        Some(None) => Step::Stop,
        Some(Some(_)) => Step::Wait,
    }
}

// ---------------------------------------------------------------------------
// The value of one wait.
// ---------------------------------------------------------------------------

/// The unjittered wait before attempt `i` (counted from zero): `min` times
/// `factor` to the `i`-th power, capped at the largest representable
/// duration.
pub open spec fn raw_wait(min: nat, factor: u32, i: nat) -> nat {
    let exact = min * pow(factor as int, i);
    if exact <= MAX_NANOS as int {
        exact as nat
    } else {
        MAX_NANOS as nat
    }
}

/// A jittered wait. A draw below the jitter share shrinks the wait by the
/// drawn number of hundredths; any other draw grows it by half the drawn
/// hundredths, capped at the largest representable duration. The asymmetry
/// balances the two branches, so jitter leaves the expected wait unchanged.
pub open spec fn jittered(raw: nat, jitter: u32, rd: u32) -> nat {
    if rd < jitter {
        (raw - raw * rd / 100) as nat
    } else {
        let grown = raw + raw * (rd / 2) / 100;
        if grown <= MAX_NANOS as int {
            grown as nat
        } else {
            MAX_NANOS as nat
        }
    }
}

/// A wait clamped into the configured bounds: values above the ceiling drop
/// to it, then values below the floor rise to it — so the floor wins when
/// the bounds cross.
pub open spec fn clamped(lo: nat, hi: nat, x: nat) -> nat {
    let capped = if x <= hi {
        x
    } else {
        hi
    };
    if capped < lo {
        lo
    } else {
        capped
    }
}

/// The draws the random source can answer with under the given jitter
/// share: any number of hundredths below twice the share, and zero alone
/// when the share is zero.
pub open spec fn valid_draw(jitter: u32, rd: u32) -> bool {
    if jitter == 0 {
        rd == 0
    } else {
        rd < 2 * jitter
    }
}

/// The wait yielded before attempt `i` when the random source drew `rd`.
pub open spec fn wait_at(cfg: BackoffView, i: nat, rd: u32) -> nat {
    clamped(cfg.min, cfg.max, jittered(raw_wait(cfg.min, cfg.factor, i), cfg.jitter, rd))
}

// ---------------------------------------------------------------------------
// The generator.
// ---------------------------------------------------------------------------

/// The mathematical content of an [`IntoIter`]: its configuration and how
/// many values it has yielded so far. The random source has no mathematical
/// content.
pub struct IntoIterView {
    /// The configuration the generator was created from.
    pub cfg: BackoffView,
    /// How many values the generator has yielded.
    pub attempts: u32,
}

/// A generator of wait durations for one retry loop.
pub struct IntoIter {
    inner: Backoff,
    rng: fastrand::Rng,
    attempts: u32,
}

impl View for IntoIter {
    type V = IntoIterView;

    closed spec fn view(&self) -> IntoIterView {
        IntoIterView { cfg: self.inner@, attempts: self.attempts }
    }
}

/// Computes `x * share / 100`, which never exceeds `x` while the share is
/// at most 100 hundredths.
fn hundredths(x: u128, share: u32) -> (r: u128)
    requires
        x <= MAX_NANOS,
        share <= 100,
    ensures
        r == x * share / 100,
        r <= x,
{
    proof {
        lemma_mul_upper_bound(x as int, MAX_NANOS as int, share as int, 100);
        if x > 0 {
            lemma_mul_left_inequality(x as int, share as int, 100);
        }
        lemma_div_is_ordered(x as int * share as int, x as int * 100, 100);
        lemma_div_multiples_vanish(x as int, 100);
    }
    x * (share as u128) / 100
}

/// Computes `min_nanos * factor^exp`, capping the result at [`MAX_NANOS`].
fn capped_growth(min_nanos: u128, factor: u32, exp: u32) -> (r: u128)
    requires
        min_nanos <= MAX_NANOS,
    ensures
        r == raw_wait(min_nanos as nat, factor, exp as nat),
        r <= MAX_NANOS,
{
    if exp == 0 {
        proof {
            lemma_pow0(factor as int);
        }
        return min_nanos;
    }
    if factor == 0 {
        proof {
            lemma0_pow(exp as nat);
        }
        return 0;
    }
    if factor == 1 {
        proof {
            lemma1_pow(exp as nat);
        }
        return min_nanos;
    }
    if min_nanos == 0 {
        proof {
            lemma_pow_positive(factor as int, exp as nat);
        }
        return 0;
    }
    let mut d: u128 = min_nanos;
    let mut idx: u32 = 0;
    proof {
        lemma_pow0(factor as int);
    }
    while idx < exp
        invariant
            idx <= exp,
            2 <= factor,
            1 <= min_nanos <= MAX_NANOS,
            d as int == min_nanos as int * pow(factor as int, idx as nat),
            d <= MAX_NANOS,
        decreases exp - idx,
    {
        proof {
            lemma_mul_upper_bound(d as int, MAX_NANOS as int, factor as int, u32::MAX as int);
        }
        let p: u128 = d * (factor as u128);
        proof {
            assert(pow(factor as int, (idx + 1) as nat) == factor * pow(
                factor as int,
                idx as nat,
            )) by {
                reveal(pow);
            }
            lemma_mul_is_associative(min_nanos as int, pow(factor as int, idx as nat), factor as int);
            lemma_mul_is_commutative(pow(factor as int, idx as nat), factor as int);
        }
        if p > MAX_NANOS {
            proof {
                lemma_pow_increases(factor as nat, (idx + 1) as nat, exp as nat);
                lemma_mul_left_inequality(
                    min_nanos as int,
                    pow(factor as int, (idx + 1) as nat),
                    pow(factor as int, exp as nat),
                );
            }
            return MAX_NANOS;
        }
        d = p;
        idx = idx + 1;
    }
    d
}

impl IntoIter {
    /// A generator is well formed when its configuration is.
    pub open spec fn wf(&self) -> bool {
        self@.cfg.wf()
    }

    /// Wraps a configuration into a fresh generator.
    pub(crate) fn new(inner: Backoff) -> (it: IntoIter)
        ensures
            it@.cfg == inner@,
            it@.attempts == 0,
    {
        IntoIter { inner, rng: fresh_rng(), attempts: 0 }
    }

    /// Yields the next value of the sequence: a wait duration, the stop
    /// signal, or nothing once the budget is spent. Every wait lies between
    /// the configured floor and ceiling (the floor wins when the bounds
    /// cross), and under zero jitter it is exactly the unjittered wait.
    pub fn next(&mut self) -> (r: Option<Option<Duration>>)
        requires
            old(self).wf(),
        ensures
            final(self).wf(),
            final(self)@.cfg == old(self)@.cfg,
            step_of(r) == step_at(old(self)@.cfg.max_attempts, old(self)@.attempts),
            old(self)@.attempts >= total_yields(old(self)@.cfg.max_attempts) ==> final(self)@
                == old(self)@,
            old(self)@.attempts < total_yields(old(self)@.cfg.max_attempts)
                ==> final(self)@.attempts == old(self)@.attempts + 1,
            (r matches Some(Some(d)) ==> ({
                let cfg = old(self)@.cfg;
                let i = old(self)@.attempts as nat;
                &&& d.wf()
                &&& cfg.min <= d@
                &&& (cfg.min <= cfg.max ==> d@ <= cfg.max)
                &&& (exists|rd: u32| valid_draw(cfg.jitter, rd) && d@ == wait_at(cfg, i, rd))
                &&& (cfg.jitter == 0 ==> d@ == clamped(
                    cfg.min,
                    cfg.max,
                    raw_wait(cfg.min, cfg.factor, i),
                ))
            })),
    {
        let n = self.inner.max_attempts();
        let limit: u32 = if n == 0 {
            1
        } else {
            n
        };
        if self.attempts >= limit {
            return None;
        }
        self.attempts = self.attempts + 1;
        if self.attempts == limit {
            return Some(None);
        }
        let i = self.attempts - 1;
        let min_nanos = self.inner.min().as_nanos();
        let raw = capped_growth(min_nanos, self.inner.factor(), i);
        let jf = self.inner.jitter();
        let rd: u32 = if jf == 0 {
            0
        } else {
            rng_u32_below(&mut self.rng, 2 * jf)
        };
        let jit: u128 = if rd < jf {
            let cut = hundredths(raw, rd);
            raw - cut
        } else {
            let add_part = hundredths(raw, rd / 2);
            let grown = raw + add_part;
            if grown > MAX_NANOS {
                MAX_NANOS
            } else {
                grown
            }
        };
        let lo = self.inner.min().as_nanos();
        let hi = self.inner.max().as_nanos();
        let capped = if jit <= hi {
            jit
        } else {
            hi
        };
        let clamped_nanos = if capped < lo {
            lo
        } else {
            capped
        };
        let d = Duration::from_nanos_saturating(clamped_nanos);
        proof {
            let cfg = old(self)@.cfg;
            let iv = i as nat;
            assert(valid_draw(cfg.jitter, rd));
            assert(d@ == wait_at(cfg, iv, rd));
        }
        Some(Some(d))
    }
}

// ---------------------------------------------------------------------------
// Laws of the yielded sequence.
// ---------------------------------------------------------------------------

/// Law: a generator with a positive attempt budget `n` yields exactly `n`
/// values: while fewer than `n - 1` values are out the next one is a wait,
/// the `n`-th value is the stop signal, and every call after that finds the
/// generator exhausted.
pub proof fn lemma_positive_budget_drain(n: u32, c: u32)
    requires
        1 <= n,
    ensures
        c < n - 1 ==> step_at(n, c) is Wait,
        c == n - 1 ==> step_at(n, c) is Stop,
        c >= n ==> step_at(n, c) is Exhausted,
{
}

/// Law: a generator with a zero attempt budget yields exactly one value —
/// the stop signal, with no wait before it — and is exhausted from then on.
pub proof fn lemma_zero_budget_drain(c: u32)
    ensures
        c == 0 ==> step_at(0, c) is Stop,
        1 <= c ==> step_at(0, c) is Exhausted,
{
}

/// Law: every wait lies between the configured floor and ceiling; when the
/// ceiling lies below the floor, the floor alone binds.
pub proof fn lemma_wait_in_bounds(cfg: BackoffView, i: nat, rd: u32)
    requires
        cfg.wf(),
    ensures
        cfg.min <= wait_at(cfg, i, rd),
        cfg.min <= cfg.max ==> wait_at(cfg, i, rd) <= cfg.max,
{
}

/// The power of a non-negative base is non-negative.
proof fn lemma_pow_nonneg(b: int, e: nat)
    requires
        0 <= b,
    ensures
        0 <= pow(b, e),
{
    if b > 0 {
        lemma_pow_positive(b, e);
    } else if e == 0 {
        lemma_pow0(b);
    } else {
        lemma0_pow(e);
    }
}

/// The unjittered wait never shrinks as the attempt index grows, while the
/// growth factor is at least one.
pub proof fn lemma_raw_wait_nondecreasing(min: nat, factor: u32, i: nat)
    requires
        1 <= factor,
    ensures
        raw_wait(min, factor, i) <= raw_wait(min, factor, i + 1),
{
    lemma_pow_nonneg(factor as int, i);
    lemma_pow_nonneg(factor as int, i + 1);
    lemma_pow_increases(factor as nat, i, i + 1);
    lemma_mul_nonnegative(min as int, pow(factor as int, i));
    lemma_mul_nonnegative(min as int, pow(factor as int, i + 1));
    if min > 0 {
        lemma_mul_left_inequality(min as int, pow(factor as int, i), pow(factor as int, i + 1));
    }
}

/// Law: under zero jitter, the waits a generator yields never decrease from
/// one attempt to the next while the growth factor is at least one.
pub proof fn lemma_waits_nondecreasing(cfg: BackoffView, i: nat)
    requires
        cfg.wf(),
        cfg.jitter == 0,
        1 <= cfg.factor,
    ensures
        wait_at(cfg, i, 0) <= wait_at(cfg, i + 1, 0),
{
    lemma_pow_nonneg(cfg.factor as int, i);
    lemma_pow_nonneg(cfg.factor as int, i + 1);
    lemma_raw_wait_nondecreasing(cfg.min, cfg.factor, i);
}

} // verus!
