//! Deterministic pseudo-random sampling.
//!
//! Rendering draws all of its randomness from a small splittable generator
//! whose every step is pinned by its contract, so a render is a function of
//! the scene, the options and the seed: per-pixel seeding makes the result
//! independent of tile shape or scheduling.  Fresh entropy enters only when
//! a caller asks for an unseeded generator.

use vstd::prelude::*;

use crate::fx::Fx;

verus! {

/// State increment of the generator (the SplitMix64 constant).
pub const RNG_GAMMA: u64 = 0x9E3779B97F4A7C15;

/// A deterministic pseudo-random generator with 64 bits of state.
#[derive(Debug, Clone, Copy, PartialEq, Eq, Structural)]
pub struct Rng {
    pub state: u64,
}

/// The state after one draw.
pub open spec fn spec_next_state(s: u64) -> u64 {
    s.wrapping_add(RNG_GAMMA)
}

/// The output mixing rounds of the generator.
pub open spec fn spec_mix(z0: u64) -> u64 {
    let z1: u64 = (z0 ^ (z0 >> 30)).wrapping_mul(0xBF58476D1CE4E5B9);
    let z2: u64 = (z1 ^ (z1 >> 27)).wrapping_mul(0x94D049BB133111EB);
    z2 ^ (z2 >> 31)
}

/// The 64 uniform bits produced by one draw from state `s`.
pub open spec fn spec_next64(s: u64) -> u64 {
    spec_mix(spec_next_state(s))
}

/// The scalar in `[min, max)` that one draw from state `s` yields
/// (`min` itself when the interval is empty).
pub open spec fn spec_random_val(s: u64, min: Fx, max: Fx) -> Fx {
    if max.bits <= min.bits {
        min
    } else {
        let delta = max.bits - min.bits;
        let off = delta * (spec_next64(s) as int) / 0x10000000000000000int;
        Fx { bits: (min.bits + off) as i64 }
    }
}

/// The generator a pixel's samples are drawn from: the base seed mixed with
/// the pixel's absolute coordinates.
pub open spec fn spec_pixel_seed(seed: u64, x: usize, y: usize) -> u64 {
    spec_mix(
        seed.wrapping_add((x as u64).wrapping_mul(0xA24BAED4963EE407)).wrapping_add(
            (y as u64).wrapping_mul(0x9FB21C651E98DF25),
        ),
    )
}

/// Relies on rand::random::<u64>: one draw from the thread-local generator.
/// Nothing is promised of its value.
#[verifier::external_body]
fn entropy_seed() -> u64 {
    rand::random::<u64>()
}

proof fn lemma_scaled_offset_in_range(delta: int, u: int)
    by (nonlinear_arith)
    requires
        0 < delta,
        0 <= u < 0x10000000000000000int,
    ensures
        0 <= delta * u / 0x10000000000000000int < delta,
{
}

impl Rng {
    /// The generator starting from the given seed.
    pub fn from_seed(seed: u64) -> (r: Rng)
        ensures
            r.state == seed,
    {
        Rng { state: seed }
    }

    /// A generator seeded from the thread-local entropy source; its draws
    /// are reproducible only within this one value.
    pub fn from_entropy() -> Rng {
        Rng { state: entropy_seed() }
    }

    /// One draw of 64 uniform bits.
    pub fn next64(&mut self) -> (r: u64)
        ensures
            final(self).state == spec_next_state(old(self).state),
            r == spec_next64(old(self).state),
    {
        self.state = self.state.wrapping_add(RNG_GAMMA);
        let z0: u64 = self.state;
        let z1: u64 = (z0 ^ (z0 >> 30)).wrapping_mul(0xBF58476D1CE4E5B9);
        let z2: u64 = (z1 ^ (z1 >> 27)).wrapping_mul(0x94D049BB133111EB);
        z2 ^ (z2 >> 31)
    }
}

/// One uniform draw from `[min, max)` on the grid (`min` when the interval
/// is empty).
pub fn random(rng: &mut Rng, min: Fx, max: Fx) -> (r: Fx)
    ensures
        r == spec_random_val(old(rng).state, min, max),
        final(rng).state == spec_next_state(old(rng).state),
        min.bits <= max.bits ==> min.bits <= r.bits,
        min.bits < max.bits ==> r.bits < max.bits,
{
    let u: u64 = rng.next64();
    if max.bits <= min.bits {
        min
    } else {
        let delta: u128 = ((max.bits as i128) - (min.bits as i128)) as u128;
        assert((delta as int) * (u as int) < 0x100000000000000000000000000000000int)
            by (nonlinear_arith)
            requires
                delta < 0x10000000000000000u128,
                u <= 0xFFFFFFFFFFFFFFFFu64,
        ;
        let off: u128 = (delta * (u as u128)) / 0x10000000000000000u128;
        proof {
            lemma_scaled_offset_in_range(delta as int, u as int);
        }
        let bits: i64 = ((min.bits as i128) + (off as i128)) as i64;
        Fx { bits }
    }
}

/// The per-pixel generator seed for absolute pixel coordinates `(x, y)`.
pub fn pixel_seed(seed: u64, x: usize, y: usize) -> (r: u64)
    ensures
        r == spec_pixel_seed(seed, x, y),
{
    let z0: u64 = seed.wrapping_add((x as u64).wrapping_mul(0xA24BAED4963EE407)).wrapping_add(
        (y as u64).wrapping_mul(0x9FB21C651E98DF25),
    );
    let z1: u64 = (z0 ^ (z0 >> 30)).wrapping_mul(0xBF58476D1CE4E5B9);
    let z2: u64 = (z1 ^ (z1 >> 27)).wrapping_mul(0x94D049BB133111EB);
    z2 ^ (z2 >> 31)
}

} // verus!
