//! Token-bucket admission control.
//!
//! The allowance is kept exactly, in units of one token times one
//! nanosecond of the period: a bucket of `rate` tokens per `period` holds
//! at most `rate * period` units, refills `rate` units per elapsed
//! nanosecond, and spends `period` units per admitted call.

use crate::time::TimeSpan;
use std::time::Instant;
use vstd::prelude::*;

verus! {

/// Declares std's monotonic `Instant`, kept as the time of the last check.
#[verifier::external_type_specification]
#[verifier::external_body]
pub struct ExInstant(Instant);

/// Relies on std's `Instant::now`: a reading of the monotonic clock.
pub assume_specification[ Instant::now ]() -> Instant;

/// Relies on std's `Instant::saturating_duration_since` and
/// `Duration::as_nanos`: the nanoseconds from `earlier` to `later`, zero
/// when `earlier` is the later one.
#[verifier::external_body]
fn nanos_between(earlier: &Instant, later: &Instant) -> u128 {
    later.saturating_duration_since(*earlier).as_nanos()
}

/// The allowance after `elapsed` nanoseconds of refill, capped at a full
/// bucket.
pub open spec fn refilled(allowance: nat, elapsed: nat, rate: nat, period: nat) -> nat {
    let full = rate * period;
    if allowance + elapsed * rate > full {
        full
    } else {
        allowance + elapsed * rate
    }
}

/// Whether a bucket holding `allowance` units admits a call: it has at
/// least one whole token.
pub open spec fn admits(allowance: nat, rate: nat, period: nat) -> bool {
    rate >= 1 && allowance >= period
}

/// One check: refilling `allowance` for `elapsed` nanoseconds, then either
/// admitting the call (`ok`, spending one token) or refusing it (spending
/// nothing), leaves `after`.
pub open spec fn check_step(allowance: nat, elapsed: nat, rate: nat, period: nat, ok: bool, after: nat) -> bool {
    let a = refilled(allowance, elapsed, rate, period);
    if admits(a, rate, period) {
        ok && after == a - period
    } else {
        !ok && after == a
    }
}

/// With no time passing between checks, a full bucket of `rate` calls per
/// `period` admits exactly `rate` calls in a row: after `k` admitted calls
/// the bucket holds `(rate - k) * period` units, and the next call is
/// admitted exactly when `k < rate`.
pub proof fn lemma_burst_from_full_bucket(rate: nat, period: nat, k: nat)
    requires
        period > 0,
        k <= rate,
    ensures
        rate * period - k * period == (rate - k) * period,
        refilled((rate * period - k * period) as nat, 0, rate, period) == rate * period - k * period,
        admits(refilled((rate * period - k * period) as nat, 0, rate, period), rate, period) <==> k < rate,
{
    assert(rate * period - k * period == (rate - k) * period) by (nonlinear_arith)
        requires
            k <= rate,
    ;
    assert(k * period <= rate * period) by (nonlinear_arith)
        requires
            k <= rate,
    ;
    assert((rate - k) * period >= period <==> rate - k >= 1) by (nonlinear_arith)
        requires
            period > 0,
            k <= rate,
    ;
}

/// Once a whole period has passed, a bucket of at least one call per
/// period admits the next call, whatever it held before.
pub proof fn lemma_admits_after_period(allowance: nat, elapsed: nat, rate: nat, period: nat)
    requires
        rate >= 1,
        elapsed >= period,
    ensures
        admits(refilled(allowance, elapsed, rate, period), rate, period),
{
    assert(elapsed * rate >= period && rate * period >= period) by (nonlinear_arith)
        requires
            rate >= 1,
            elapsed >= period,
    ;
}

/// A full bucket fits a `u128`, with room for one more refill of the same
/// size.
proof fn lemma_bucket_fits(rate: int, period: int)
    requires
        0 <= rate <= u32::MAX,
        0 <= period <= u64::MAX * 1_000_000_000 + 999_999_999,
    ensures
        rate * period <= u32::MAX * (u64::MAX * 1_000_000_000 + 999_999_999),
        2 * (u32::MAX * (u64::MAX * 1_000_000_000 + 999_999_999)) <= u128::MAX,
{
    assert(rate * period <= u32::MAX * (u64::MAX * 1_000_000_000 + 999_999_999)) by (nonlinear_arith)
        requires
            0 <= rate <= u32::MAX,
            0 <= period <= u64::MAX * 1_000_000_000 + 999_999_999,
    ;
}

/// A token bucket of `rate` calls per period.
pub struct RateLimiter {
    rate: u32,
    per: TimeSpan,
    allowance: u128,
    last_check: Instant,
}

impl RateLimiter {
    /// Calls admitted per period.
    pub closed spec fn spec_rate(&self) -> nat {
        self.rate as nat
    }

    /// The period, in nanoseconds.
    pub closed spec fn spec_period(&self) -> nat {
        self.per@
    }

    /// The allowance, in token-nanoseconds.
    pub closed spec fn spec_allowance(&self) -> nat {
        self.allowance as nat
    }

    /// The allowance never exceeds a full bucket.
    pub closed spec fn wf(&self) -> bool {
        &&& self.allowance <= self.rate * self.per@
        &&& self.per@ <= u64::MAX * 1_000_000_000 + 999_999_999
    }

    /// A full bucket of `rate` calls per `per`.
    pub fn new(rate: u32, per: TimeSpan) -> (r: RateLimiter)
        ensures
            r.wf(),
            r.spec_rate() == rate,
            r.spec_period() == per@,
            r.spec_allowance() == rate * per@,
    {
        let p = per.as_nanos();
        proof { lemma_bucket_fits(rate as int, p as int); }
        RateLimiter { rate, per, allowance: rate as u128 * p, last_check: Instant::now() }
    }

    /// Refills the bucket for `elapsed` nanoseconds, then admits the call
    /// (spending one token) when a whole token is there, or refuses it
    /// (spending nothing).
    pub fn check_after(&mut self, elapsed: u128) -> (r: Result<(), &'static str>)
        requires
            old(self).wf(),
        ensures
            final(self).wf(),
            final(self).spec_rate() == old(self).spec_rate(),
            final(self).spec_period() == old(self).spec_period(),
            check_step(
                old(self).spec_allowance(),
                elapsed as nat,
                old(self).spec_rate(),
                old(self).spec_period(),
                r is Ok,
                final(self).spec_allowance(),
            ),
    {
        let p = self.per.as_nanos();
        let rate = self.rate as u128;
        let ghost full = self.rate * self.per@;
        proof { lemma_bucket_fits(rate as int, p as int); }
        let cap = rate * p;
        let e = if elapsed > p { p } else { elapsed };
        proof {
            vstd::arithmetic::mul::lemma_mul_inequality(e as int, p as int, rate as int);
            if elapsed > p {
                vstd::arithmetic::mul::lemma_mul_inequality(p as int, elapsed as int, rate as int);
            }
            assert(e * rate == rate * e) by (nonlinear_arith);
        }
        let gained = rate * e;
        let sum = self.allowance + gained;
        let a = if sum > cap { cap } else { sum };
        proof {
            let spec_a = refilled(self.allowance as nat, elapsed as nat, self.rate as nat, self.per@);
            assert(elapsed * rate == rate * elapsed) by (nonlinear_arith);
            assert(a == spec_a);
        }
        if self.rate >= 1 && a >= p {
            self.allowance = a - p;
            Ok(())
        } else {
            self.allowance = a;
            Err("Rate limit exceeded")
        }
    }

    /// Admits or refuses a call now, refilling for the time since the last
    /// check.
    pub fn check(&mut self) -> (r: Result<(), &'static str>)
        requires
            old(self).wf(),
        ensures
            final(self).wf(),
            final(self).spec_rate() == old(self).spec_rate(),
            final(self).spec_period() == old(self).spec_period(),
            exists|elapsed: nat|
                #[trigger] check_step(
                    old(self).spec_allowance(),
                    elapsed,
                    old(self).spec_rate(),
                    old(self).spec_period(),
                    r is Ok,
                    final(self).spec_allowance(),
                ),
    {
        let now = Instant::now();
        let elapsed = nanos_between(&self.last_check, &now);
        self.last_check = now;
        let ghost before = *self;
        let r = self.check_after(elapsed);
        proof {
            assert(before.spec_allowance() == old(self).spec_allowance());
            assert(check_step(
                old(self).spec_allowance(),
                elapsed as nat,
                old(self).spec_rate(),
                old(self).spec_period(),
                r is Ok,
                self.spec_allowance(),
            ));
        }
        r
    }
}

} // verus!
