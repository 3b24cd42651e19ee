//! A deterministic, explicitly seeded random source.
//!
//! Sampling must be reproducible under a fixed seed, with one independent
//! generator per rendering task, so the generator is a linear congruential
//! step whose evolution is stated exactly: every draw is a function of the
//! state it started from.

use vstd::prelude::*;

use crate::fixed::FP_ONE;
use crate::fixed::fp_add;
use crate::fixed::fp_add_spec;
use crate::fixed::fp_mul;
use crate::fixed::fp_mul_spec;
use crate::fixed::fp_sub;
use crate::fixed::fp_sub_spec;

verus! {

/// Multiplier of the linear congruential step.
pub const RNG_MUL: u64 = 6364136223846793005;

/// Increment of the linear congruential step.
pub const RNG_INC: u64 = 1442695040888963407;

/// The state following `s`.
pub open spec fn rng_step(s: u64) -> u64 {
    s.wrapping_mul(RNG_MUL).wrapping_add(RNG_INC)
}

/// The 32-bit value drawn when stepping from state `s`.
pub open spec fn rng_draw(s: u64) -> u64 {
    rng_step(s) >> 32
}

/// The fixed-point fraction in `[0, 1)` drawn when stepping from state `s`.
pub open spec fn rng_fraction(s: u64) -> i64 {
    (rng_draw(s) % (FP_ONE as u64)) as i64
}

/// A deterministic pseudo-random generator with explicit state.
pub struct Rng {
    state: u64,
}

impl View for Rng {
    type V = u64;

    closed spec fn view(&self) -> u64 {
        self.state
    }
}

impl Rng {
    /// A generator starting from the given seed.
    pub fn new(seed: u64) -> (r: Rng)
        ensures
            r@ == seed,
    {
        Rng { state: seed }
    }

    /// Step the state once and hand out the draw's 32 high bits.
    pub fn next_bits(&mut self) -> (r: u64)
        ensures
            final(self)@ == rng_step(old(self)@),
            r == rng_draw(old(self)@),
            r < 0x1_0000_0000,
    {
        self.state = self.state.wrapping_mul(RNG_MUL).wrapping_add(RNG_INC);
        let st = self.state;
        let r = st >> 32;
        proof {
            assert(st >> 32 < 0x1_0000_0000) by (bit_vector);
        }
        r
    }
}

/// A uniformly drawn integer in `[min, max)`.
pub fn random_int_range(rng: &mut Rng, min: i32, max: i32) -> (r: i32)
    requires
        min < max,
    ensures
        final(rng)@ == rng_step(old(rng)@),
        min <= r < max,
        r == min + rng_draw(old(rng)@) % ((max - min) as u64),
{
    let bits = rng.next_bits();
    let span = (max as i64 - min as i64) as u64;
    let off = bits % span;
    proof {
        assert(off < span);
    }
    (min as i64 + off as i64) as i32
}

/// A uniformly drawn fixed-point fraction in `[0, 1)`.
pub fn random_fraction(rng: &mut Rng) -> (r: i64)
    ensures
        final(rng)@ == rng_step(old(rng)@),
        r == rng_fraction(old(rng)@),
        0 <= r < FP_ONE,
{
    let bits = rng.next_bits();
    (bits % (FP_ONE as u64)) as i64
}

/// The fixed-point scalar in `[min, max)` drawn when stepping from state `s`.
pub open spec fn rng_range_spec(s: u64, min: i64, max: i64) -> int {
    fp_add_spec(min as int, fp_mul_spec(fp_sub_spec(max as int, min as int), rng_fraction(s) as int))
}

/// A uniformly drawn fixed-point scalar in `[min, max)`.
pub fn random_range(rng: &mut Rng, min: i64, max: i64) -> (r: i64)
    ensures
        final(rng)@ == rng_step(old(rng)@),
        r as int == rng_range_spec(old(rng)@, min, max),
{
    let f = random_fraction(rng);
    fp_add(min, fp_mul(fp_sub(max, min), f))
}

} // verus!
