//! Randomized, geometrically growing retry delays.
//!
//! After every failure the control loop draws a wait duration uniformly from
//! `[0, current_envelope)`; the jitter keeps many agent instances from
//! retrying in lockstep.  The envelope then grows by a rational factor
//! `multiplier_num / multiplier_den` (strictly greater than one) until it
//! reaches a fixed ceiling, where it stays.

use rand::Rng;
use vstd::prelude::*;

verus! {

/// State of the backoff generator.  Durations are in milliseconds; the growth
/// factor is kept as a rational number so the arithmetic stays exact.
pub struct Backoff {
    pub max_envelope_ms: u64,
    pub multiplier_num: u64,
    pub multiplier_den: u64,
    pub current_envelope_ms: u64,
}

impl Backoff {
    /// The envelope never exceeds the ceiling and the growth factor is
    /// strictly greater than one.
    pub open spec fn wf(self) -> bool {
        &&& self.current_envelope_ms <= self.max_envelope_ms
        &&& self.multiplier_den >= 1
        &&& self.multiplier_num > self.multiplier_den
    }

    /// The envelope after one advance: grown by the multiplier, capped at the
    /// ceiling.
    pub open spec fn spec_next_envelope(self) -> int {
        let grown = (self.current_envelope_ms as int) * (self.multiplier_num as int)
            / (self.multiplier_den as int);
        if grown > self.max_envelope_ms as int {
            self.max_envelope_ms as int
        } else {
            grown
        }
    }

    /// The whole state after one advance: only the envelope changes.
    pub open spec fn spec_advanced(self) -> Backoff {
        Backoff {
            max_envelope_ms: self.max_envelope_ms,
            multiplier_num: self.multiplier_num,
            multiplier_den: self.multiplier_den,
            current_envelope_ms: self.spec_next_envelope() as u64,
        }
    }

    /// The state after `k` advances.
    pub open spec fn iter_advanced(self, k: nat) -> Backoff
        decreases k,
    {
        if k == 0 {
            self
        } else {
            self.iter_advanced((k - 1) as nat).spec_advanced()
        }
    }

    pub fn new(
        min_envelope_ms: u64,
        max_envelope_ms: u64,
        multiplier_num: u64,
        multiplier_den: u64,
    ) -> (b: Backoff)
        requires
            min_envelope_ms <= max_envelope_ms,
            multiplier_den >= 1,
            multiplier_num > multiplier_den,
        ensures
            b.wf(),
            b.current_envelope_ms == min_envelope_ms,
            b.max_envelope_ms == max_envelope_ms,
            b.multiplier_num == multiplier_num,
            b.multiplier_den == multiplier_den,
    {
        Backoff {
            max_envelope_ms,
            multiplier_num,
            multiplier_den,
            current_envelope_ms: min_envelope_ms,
        }
    }

    /// Draws the next wait duration and advances the envelope.  The draw is
    /// strictly below the envelope at the time of the call; a zero envelope
    /// yields a zero wait rather than failing.
    pub fn next_backoff(&mut self) -> (r: u64)
        requires
            old(self).wf(),
        ensures
            final(self).wf(),
            old(self).current_envelope_ms == 0 ==> r == 0,
            old(self).current_envelope_ms > 0 ==> r < old(self).current_envelope_ms,
            *final(self) == old(self).spec_advanced(),
    {
        let r: u64 = if self.current_envelope_ms == 0 {
            0
        } else {
            rand_below(self.current_envelope_ms)
        };
        proof {
            let c = self.current_envelope_ms as int;
            let n = self.multiplier_num as int;
            assert(c * n <= u64::MAX * u64::MAX) by (nonlinear_arith)
                requires
                    0 <= c <= u64::MAX,
                    0 <= n <= u64::MAX,
            ;
        }
        let prod: u128 = (self.current_envelope_ms as u128) * (self.multiplier_num as u128);
        let grown: u128 = prod / (self.multiplier_den as u128);
        let cap: u128 = self.max_envelope_ms as u128;
        let next_env: u128 = if grown > cap {
            cap
        } else {
            grown
        };
        assert(next_env <= u64::MAX);
        self.current_envelope_ms = next_env as u64;
        r
    }

    /// One advance never shrinks the envelope, never passes the ceiling, and
    /// once the envelope has reached the ceiling it stays there.
    pub proof fn lemma_next_envelope_bounds(self)
        requires
            self.wf(),
        ensures
            self.spec_next_envelope() >= self.current_envelope_ms,
            self.spec_next_envelope() <= self.max_envelope_ms,
            self.current_envelope_ms == self.max_envelope_ms ==> self.spec_next_envelope()
                == self.max_envelope_ms,
            self.spec_advanced().wf(),
            self.spec_advanced().max_envelope_ms == self.max_envelope_ms,
            self.spec_advanced().multiplier_num == self.multiplier_num,
            self.spec_advanced().multiplier_den == self.multiplier_den,
    {
        let c = self.current_envelope_ms as int;
        let n = self.multiplier_num as int;
        let d = self.multiplier_den as int;
        assert(c * n >= c * d) by (nonlinear_arith)
            requires
                c >= 0,
                n >= d,
        ;
        assert(c * d / d == c) by (nonlinear_arith)
            requires
                d >= 1,
        ;
        assert(c * n / d >= c * d / d) by (nonlinear_arith)
            requires
                c * n >= c * d,
                d >= 1,
        ;
    }

    /// Over any run of advances the envelope is monotonically non-decreasing,
    /// stays at or below the ceiling, and is fixed once it reaches the
    /// ceiling.
    pub proof fn lemma_envelope_monotone(self, k: nat)
        requires
            self.wf(),
        ensures
            self.iter_advanced(k).wf(),
            self.iter_advanced(k).max_envelope_ms == self.max_envelope_ms,
            self.iter_advanced(k).current_envelope_ms <= self.iter_advanced(
                (k + 1) as nat,
            ).current_envelope_ms,
            self.iter_advanced(k).current_envelope_ms <= self.max_envelope_ms,
            self.iter_advanced(k).current_envelope_ms == self.max_envelope_ms
                ==> self.iter_advanced((k + 1) as nat).current_envelope_ms
                == self.max_envelope_ms,
        decreases k,
    {
        if k == 0 {
            self.lemma_next_envelope_bounds();
        } else {
            self.lemma_envelope_monotone((k - 1) as nat);
            self.iter_advanced(k).lemma_next_envelope_bounds();
        }
    }

    /// Across any span of advances the envelope never decreases.
    pub proof fn lemma_envelope_monotone_range(self, i: nat, j: nat)
        requires
            self.wf(),
            i <= j,
        ensures
            self.iter_advanced(i).current_envelope_ms <= self.iter_advanced(
                j,
            ).current_envelope_ms,
        decreases j - i,
    {
        if i < j {
            self.lemma_envelope_monotone_range(i, (j - 1) as nat);
            self.lemma_envelope_monotone((j - 1) as nat);
        }
    }
}

/// Relies on rand's `Rng::gen_range` over the half-open range `0..bound`: the
/// sample is uniform in that range, so it is strictly below `bound`.  The
/// range is non-empty, so the call cannot panic.
#[verifier::external_body]
fn rand_below(bound: u64) -> (r: u64)
    requires
        bound > 0,
    ensures
        r < bound,
{
    rand::thread_rng().gen_range(0..bound)
}

} // verus!
