//! Three-component vectors on the fixed-point grid.

use vstd::prelude::*;

use crate::fx::{Fx, iabs, spec_abs, spec_add, spec_div, spec_min, spec_mul, spec_neg, spec_sqrt,
    spec_sub, FX_SCALE};
use crate::rng::{random, spec_next_state, spec_random_val, Rng};

verus! {

/// Components whose magnitude is below one grid step count as zero.
pub const NEAR_ZERO_BITS: i64 = 1;

/// How many rejected draws a rejection-sampling loop tolerates before it
/// falls back to the zero vector (a safe direction for every caller).
pub const MAX_DRAW_TRIES: u64 = 64;

/// A vector of three fixed-point scalars, used interchangeably as a point,
/// a direction and a color.
#[derive(Debug, Clone, Copy, PartialEq, Eq, Structural)]
pub struct Vec3 {
    pub x: Fx,
    pub y: Fx,
    pub z: Fx,
}

/// A location in space.
pub type Point = Vec3;

/// A linear RGB color.
pub type Color = Vec3;

pub open spec fn spec_vzero() -> Vec3 {
    Vec3 { x: Fx { bits: 0 }, y: Fx { bits: 0 }, z: Fx { bits: 0 } }
}

pub open spec fn spec_vadd(a: Vec3, b: Vec3) -> Vec3 {
    Vec3 { x: spec_add(a.x, b.x), y: spec_add(a.y, b.y), z: spec_add(a.z, b.z) }
}

pub open spec fn spec_vsub(a: Vec3, b: Vec3) -> Vec3 {
    Vec3 { x: spec_sub(a.x, b.x), y: spec_sub(a.y, b.y), z: spec_sub(a.z, b.z) }
}

pub open spec fn spec_vneg(a: Vec3) -> Vec3 {
    Vec3 { x: spec_neg(a.x), y: spec_neg(a.y), z: spec_neg(a.z) }
}

/// Scaling by a scalar.
pub open spec fn spec_vscale(a: Vec3, s: Fx) -> Vec3 {
    Vec3 { x: spec_mul(a.x, s), y: spec_mul(a.y, s), z: spec_mul(a.z, s) }
}

/// Division by a scalar.
pub open spec fn spec_vdiv(a: Vec3, s: Fx) -> Vec3 {
    Vec3 { x: spec_div(a.x, s), y: spec_div(a.y, s), z: spec_div(a.z, s) }
}

/// Component-wise product, the attenuation step of the integrator.
pub open spec fn spec_vmul_elem(a: Vec3, b: Vec3) -> Vec3 {
    Vec3 { x: spec_mul(a.x, b.x), y: spec_mul(a.y, b.y), z: spec_mul(a.z, b.z) }
}

pub open spec fn spec_dot(a: Vec3, b: Vec3) -> Fx {
    spec_add(spec_add(spec_mul(a.x, b.x), spec_mul(a.y, b.y)), spec_mul(a.z, b.z))
}

pub open spec fn spec_cross(a: Vec3, b: Vec3) -> Vec3 {
    Vec3 {
        x: spec_sub(spec_mul(a.y, b.z), spec_mul(a.z, b.y)),
        y: spec_sub(spec_mul(a.z, b.x), spec_mul(a.x, b.z)),
        z: spec_sub(spec_mul(a.x, b.y), spec_mul(a.y, b.x)),
    }
}

pub open spec fn spec_len(a: Vec3) -> Fx {
    spec_sqrt(spec_dot(a, a))
}

/// Normalization; a zero vector maps to itself (the deterministic fallback
/// for the degenerate case).
pub open spec fn spec_unit(a: Vec3) -> Vec3 {
    spec_vdiv(a, spec_len(a))
}

/// Mirror reflection about a surface normal.
pub open spec fn spec_reflect(v: Vec3, n: Vec3) -> Vec3 {
    spec_vsub(v, spec_vscale(spec_vscale(n, Fx { bits: 131072 }), spec_dot(v, n)))
}

/// Vector-form Snell refraction; the radicand is taken by magnitude to
/// guard the rounding of the grid.
pub open spec fn spec_refract(v: Vec3, n: Vec3, ri: Fx) -> Vec3 {
    let cos_theta = spec_min(spec_neg(spec_dot(v, n)), Fx { bits: FX_SCALE });
    let r_perp = spec_vscale(spec_vadd(v, spec_vscale(n, cos_theta)), ri);
    let r_para = spec_vscale(
        n,
        spec_neg(spec_sqrt(spec_abs(spec_sub(Fx { bits: FX_SCALE }, spec_dot(r_perp, r_perp))))),
    );
    spec_vadd(r_perp, r_para)
}

pub open spec fn spec_near_zero(a: Vec3) -> bool {
    iabs(a.x.bits as int) < NEAR_ZERO_BITS && iabs(a.y.bits as int) < NEAR_ZERO_BITS && iabs(
        a.z.bits as int,
    ) < NEAR_ZERO_BITS
}

/// One draw of a scalar together with the state it leaves behind.
pub open spec fn spec_draw(s: u64, min: Fx, max: Fx) -> (Fx, u64) {
    (spec_random_val(s, min, max), spec_next_state(s))
}

/// The candidate vector of one rejection-sampling round (`z` fixed at zero
/// when `disk` holds) and the state after its draws.
pub open spec fn spec_box_candidate(s: u64, disk: bool) -> (Vec3, u64) {
    let (vx, s1) = spec_draw(s, Fx { bits: -65536i64 }, Fx { bits: 65536 });
    let (vy, s2) = spec_draw(s1, Fx { bits: -65536i64 }, Fx { bits: 65536 });
    if disk {
        (Vec3 { x: vx, y: vy, z: Fx { bits: 0 } }, s2)
    } else {
        let (vz, s3) = spec_draw(s2, Fx { bits: -65536i64 }, Fx { bits: 65536 });
        (Vec3 { x: vx, y: vy, z: vz }, s3)
    }
}

/// Rejection sampling from the unit ball (or the unit disk): candidates are
/// drawn from the enclosing box until one has length below one; after
/// `tries` rejections the zero vector is returned.
pub open spec fn spec_rejection_sample(s: u64, disk: bool, tries: nat) -> (Vec3, u64)
    decreases tries,
{
    if tries == 0 {
        (spec_vzero(), s)
    } else {
        let (v, s2) = spec_box_candidate(s, disk);
        if spec_len(v).bits < FX_SCALE {
            (v, s2)
        } else {
            spec_rejection_sample(s2, disk, (tries - 1) as nat)
        }
    }
}

proof fn lemma_square_bits_nonneg(a: Fx)
    ensures
        spec_mul(a, a).bits >= 0,
{
    assert((a.bits as int) * (a.bits as int) >= 0) by (nonlinear_arith);
}

/// A dot product of a vector with itself is nonnegative.
pub proof fn lemma_dot_self_nonneg(a: Vec3)
    ensures
        spec_dot(a, a).bits >= 0,
{
    lemma_square_bits_nonneg(a.x);
    lemma_square_bits_nonneg(a.y);
    lemma_square_bits_nonneg(a.z);
}

impl Vec3 {
    pub fn new(x: Fx, y: Fx, z: Fx) -> (r: Vec3)
        ensures
            r == (Vec3 { x, y, z }),
    {
        Vec3 { x, y, z }
    }

    pub fn zero() -> (r: Vec3)
        ensures
            r == spec_vzero(),
    {
        Vec3 { x: Fx { bits: 0 }, y: Fx { bits: 0 }, z: Fx { bits: 0 } }
    }

    pub fn add(self, o: Vec3) -> (r: Vec3)
        ensures
            r == spec_vadd(self, o),
    {
        Vec3 { x: self.x.add(o.x), y: self.y.add(o.y), z: self.z.add(o.z) }
    }

    pub fn sub(self, o: Vec3) -> (r: Vec3)
        ensures
            r == spec_vsub(self, o),
    {
        Vec3 { x: self.x.sub(o.x), y: self.y.sub(o.y), z: self.z.sub(o.z) }
    }

    pub fn neg(self) -> (r: Vec3)
        ensures
            r == spec_vneg(self),
    {
        Vec3 { x: self.x.neg(), y: self.y.neg(), z: self.z.neg() }
    }

    pub fn mul(self, s: Fx) -> (r: Vec3)
        ensures
            r == spec_vscale(self, s),
    {
        Vec3 { x: self.x.mul(s), y: self.y.mul(s), z: self.z.mul(s) }
    }

    pub fn div(self, s: Fx) -> (r: Vec3)
        ensures
            r == spec_vdiv(self, s),
    {
        Vec3 { x: self.x.div(s), y: self.y.div(s), z: self.z.div(s) }
    }

    pub fn mul_elem(self, o: Vec3) -> (r: Vec3)
        ensures
            r == spec_vmul_elem(self, o),
    {
        Vec3 { x: self.x.mul(o.x), y: self.y.mul(o.y), z: self.z.mul(o.z) }
    }

    pub fn dot(&self, other: &Vec3) -> (r: Fx)
        ensures
            r == spec_dot(*self, *other),
    {
        self.x.mul(other.x).add(self.y.mul(other.y)).add(self.z.mul(other.z))
    }

    pub fn cross(&self, other: &Vec3) -> (r: Vec3)
        ensures
            r == spec_cross(*self, *other),
    {
        Vec3 {
            x: self.y.mul(other.z).sub(self.z.mul(other.y)),
            y: self.z.mul(other.x).sub(self.x.mul(other.z)),
            z: self.x.mul(other.y).sub(self.y.mul(other.x)),
        }
    }

    pub fn len(&self) -> (r: Fx)
        ensures
            r == spec_len(*self),
            r.bits >= 0,
    {
        let d = self.dot(self);
        proof {
            lemma_dot_self_nonneg(*self);
        }
        d.sqrt()
    }

    pub fn unit(&self) -> (r: Vec3)
        ensures
            r == spec_unit(*self),
    {
        let l = self.len();
        (*self).div(l)
    }

    /// Mirror reflection about `normal`.
    pub fn reflect(&self, normal: Vec3) -> (r: Vec3)
        ensures
            r == spec_reflect(*self, normal),
    {
        let two = Fx { bits: 2 * FX_SCALE };
        (*self).sub(normal.mul(two).mul(self.dot(&normal)))
    }

    /// Vector-form Snell refraction with refraction ratio `ri`.
    pub fn refract(&self, normal: Vec3, ri: Fx) -> (r: Vec3)
        ensures
            r == spec_refract(*self, normal, ri),
    {
        let one = Fx { bits: FX_SCALE };
        let cos_theta = self.dot(&normal).neg().min(one);
        let r_perp = (*self).add(normal.mul(cos_theta)).mul(ri);
        let radicand = one.sub(r_perp.dot(&r_perp)).abs();
        let r_para = normal.mul(radicand.sqrt().neg());
        r_perp.add(r_para)
    }

    /// Whether every component is below one grid step in magnitude.
    pub fn near_zero(&self) -> (r: bool)
        ensures
            r == spec_near_zero(*self),
    {
        self.x.bits > -NEAR_ZERO_BITS && self.x.bits < NEAR_ZERO_BITS && self.y.bits
            > -NEAR_ZERO_BITS && self.y.bits < NEAR_ZERO_BITS && self.z.bits > -NEAR_ZERO_BITS
            && self.z.bits < NEAR_ZERO_BITS
    }

    /// A vector drawn from the unit ball by bounded rejection sampling.
    pub fn random_in_unit_sphere(rng: &mut Rng) -> (r: Vec3)
        ensures
            (r, final(rng).state) == spec_rejection_sample(
                old(rng).state,
                false,
                MAX_DRAW_TRIES as nat,
            ),
            spec_len(r).bits < FX_SCALE,
    {
        Vec3::rejection_sample(rng, false)
    }

    /// A vector drawn from the unit disk (`z == 0`) by bounded rejection
    /// sampling.
    pub fn random_in_unit_disk(rng: &mut Rng) -> (r: Vec3)
        ensures
            (r, final(rng).state) == spec_rejection_sample(
                old(rng).state,
                true,
                MAX_DRAW_TRIES as nat,
            ),
            spec_len(r).bits < FX_SCALE,
    {
        Vec3::rejection_sample(rng, true)
    }

    #[verifier::rlimit(50)]
    fn rejection_sample(rng: &mut Rng, disk: bool) -> (r: Vec3)
        ensures
            (r, final(rng).state) == spec_rejection_sample(
                old(rng).state,
                disk,
                MAX_DRAW_TRIES as nat,
            ),
            spec_len(r).bits < FX_SCALE,
    {
        let mut tries: u64 = MAX_DRAW_TRIES;
        while tries > 0
            invariant
                spec_rejection_sample(old(rng).state, disk, MAX_DRAW_TRIES as nat)
                    == spec_rejection_sample(rng.state, disk, tries as nat),
            decreases tries,
        {
            let neg_one = Fx { bits: -FX_SCALE };
            let one = Fx { bits: FX_SCALE };
            let ghost s_in = rng.state;
            let vx = random(rng, neg_one, one);
            let vy = random(rng, neg_one, one);
            let vz = if disk {
                Fx { bits: 0 }
            } else {
                random(rng, neg_one, one)
            };
            let v = Vec3 { x: vx, y: vy, z: vz };
            proof {
                assert(spec_box_candidate(s_in, disk) == (v, rng.state));
            }
            if v.len().bits < FX_SCALE {
                proof {
                    assert(spec_rejection_sample(s_in, disk, tries as nat) == (v, rng.state));
                }
                return v;
            }
            proof {
                assert(spec_rejection_sample(s_in, disk, tries as nat) == spec_rejection_sample(
                    rng.state,
                    disk,
                    (tries - 1) as nat,
                ));
            }
            tries = tries - 1;
        }
        proof {
            lemma_zero_len_zero();
        }
        Vec3::zero()
    }
}

/// The zero vector has length zero on the grid.
proof fn lemma_zero_len_zero()
    ensures
        spec_len(spec_vzero()).bits == 0,
{
    crate::fx::lemma_isqrt_zero();
}

} // verus!
