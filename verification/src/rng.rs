//! The run's single seeded random source.
//!
//! A xorshift generator with 128 bits of state drives every random choice a
//! run makes (render-time jitter, emulated loss and latency), so identical
//! settings and an identical seed reproduce a run bit for bit.  Each step
//! has an exact functional contract: nothing about a run is left to chance
//! that the seed does not determine.

use vstd::prelude::*;
use crate::fixed::{div_trunc, mul_div_sat, sat_i64};

verus! {

/// A deterministic pseudo-random generator (xorshift, 128-bit state).
#[derive(Clone, Copy, Debug)]
pub struct SimRng {
    pub x: u32,
    pub y: u32,
    pub z: u32,
    pub w: u32,
}

/// One xorshift step: the word drawn and the state after it.
pub open spec fn rng_next_spec(s: SimRng) -> (u32, SimRng) {
    let t = s.x ^ (s.x << 11);
    let w2 = (s.w ^ (s.w >> 19)) ^ (t ^ (t >> 8));
    (w2, (SimRng { x: s.y, y: s.z, z: s.w, w: w2 }))
}

/// The running total and final state of `k` consecutive draws.
pub open spec fn rng_draws_sum(s: SimRng, k: nat) -> (int, SimRng)
    decreases k,
{
    if k == 0 {
        (0, s)
    } else {
        let (prev, s2) = rng_draws_sum(s, (k - 1) as nat);
        let (v, s3) = rng_next_spec(s2);
        (prev + v, s3)
    }
}

/// A centered, bounded approximation of a Gaussian with standard deviation
/// `sigma`: twelve uniform draws summed and recentered, then scaled.  The
/// result always lies within six `sigma` of zero.
pub open spec fn rng_gauss_spec(s: SimRng, sigma: u64) -> (int, SimRng) {
    let (sum, s2) = rng_draws_sum(s, 12);
    (sat_i64(div_trunc((sum - 6 * 0x100000000) * sigma, 0x100000000)), s2)
}

impl SimRng {
    /// Seeds the generator.  A xorshift state must not be all zero, so an
    /// all-zero seed is replaced by a fixed nonzero one.
    pub fn new(x: u32, y: u32, z: u32, w: u32) -> (r: SimRng)
        ensures
            r == (if x == 0 && y == 0 && z == 0 && w == 0 {
                (SimRng { x: 0x193a6754u32, y: 0xa8a7d469u32, z: 0x97830e05u32, w: 0x113ba7bbu32 })
            } else {
                (SimRng { x, y, z, w })
            }),
    {
        if x == 0 && y == 0 && z == 0 && w == 0 {
            SimRng { x: 0x193a6754, y: 0xa8a7d469, z: 0x97830e05, w: 0x113ba7bb }
        } else {
            SimRng { x, y, z, w }
        }
    }

    /// Draws the next word, exactly as [`rng_next_spec`] says.
    pub fn next_u32(&mut self) -> (r: u32)
        ensures
            r == rng_next_spec(*old(self)).0,
            *final(self) == rng_next_spec(*old(self)).1,
    {
        let t: u32 = self.x ^ (self.x << 11u32);
        let w2: u32 = (self.w ^ (self.w >> 19u32)) ^ (t ^ (t >> 8u32));
        self.x = self.y;
        self.y = self.z;
        self.z = self.w;
        self.w = w2;
        w2
    }

    /// Draws a 64-bit value: first draw high, second draw low.
    pub fn next_u64(&mut self) -> (r: u64)
        ensures
            ({
                let (hi, s2) = rng_next_spec(*old(self));
                let (lo, s3) = rng_next_spec(s2);
                r == hi * 0x100000000 + lo && *final(self) == s3
            }),
    {
        let hi: u32 = self.next_u32();
        let lo: u32 = self.next_u32();
        (hi as u64) * 0x100000000u64 + (lo as u64)
    }

    /// Draws the centered approximate Gaussian of [`rng_gauss_spec`].
    pub fn gauss_approx(&mut self, sigma: u64) -> (r: i64)
        ensures
            r == rng_gauss_spec(*old(self), sigma).0,
            *final(self) == rng_gauss_spec(*old(self), sigma).1,
            -6 * (sigma as int) <= r <= 6 * (sigma as int),
    {
        let ghost s0 = *self;
        let mut sum: u64 = 0;
        let mut i: u64 = 0;
        while i < 12
            invariant
                i <= 12,
                sum <= i * 0xffffffff,
                (sum as int, *self) == rng_draws_sum(s0, i as nat),
            decreases 12 - i,
        {
            let v: u32 = self.next_u32();
            sum = sum + (v as u64);
            i = i + 1;
        }
        let diff: i64 = (sum as i64) - 6 * 0x100000000i64;
        let r: i64 = mul_div_sat(diff, sigma, 0x100000000u64);
        proof {
            let d = diff as int;
            let sg = sigma as int;
            assert(-6 * 0x100000000 <= d <= 6 * 0x100000000);
            assert(d >= 0 ==> d * sg <= 6 * 0x100000000 * sg) by (nonlinear_arith)
                requires
                    d <= 6 * 0x100000000,
                    0 <= sg,
            ;
            assert(d < 0 ==> -(d * sg) <= 6 * 0x100000000 * sg) by (nonlinear_arith)
                requires
                    -6 * 0x100000000 <= d,
                    0 <= sg,
            ;
            if d >= 0 {
                vstd::arithmetic::div_mod::lemma_div_is_ordered(d * sg, 6 * 0x100000000 * sg,
                0x100000000);
                vstd::arithmetic::div_mod::lemma_div_by_multiple(6 * sg, 0x100000000);
                vstd::arithmetic::div_mod::lemma_div_pos_is_pos(d * sg, 0x100000000);
                assert(6 * 0x100000000 * sg == 6 * sg * 0x100000000) by (nonlinear_arith);
            } else {
                vstd::arithmetic::div_mod::lemma_div_is_ordered(-(d * sg), 6 * 0x100000000 * sg,
                0x100000000);
                vstd::arithmetic::div_mod::lemma_div_by_multiple(6 * sg, 0x100000000);
                vstd::arithmetic::mul::lemma_mul_nonnegative(-d, sg);
                assert(-(d * sg) == (-d) * sg) by (nonlinear_arith);
                vstd::arithmetic::div_mod::lemma_div_pos_is_pos(-(d * sg), 0x100000000);
                assert(6 * 0x100000000 * sg == 6 * sg * 0x100000000) by (nonlinear_arith);
            }
        }
        r
    }
}

} // verus!
