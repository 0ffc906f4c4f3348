//! The dielectric glass material.

use vstd::prelude::*;

use crate::config::ConfigError;
use crate::fx::{spec_abs, spec_add, spec_div, spec_min, spec_mul, spec_neg, spec_sqrt, spec_sub,
    Fx};
use crate::object::HitRecord;
use crate::ray::Ray;
use crate::rng::Rng;
use crate::rng::random;
use crate::vec3::{spec_dot, spec_draw, spec_reflect, spec_refract, spec_unit, Color, Vec3};

verus! {

/// A clear dielectric with a positive refractive index; attenuation is
/// always white (no absorption is modeled).
#[derive(Debug, Clone, Copy)]
pub struct Glass {
    pub refractive_index: Fx,
}

/// The base reflectance of the Schlick approximation:
/// `((1 - ri) / (1 + ri))^2`.
pub open spec fn spec_r0(ri: Fx) -> Fx {
    let one = Fx { bits: 65536 };
    let r = spec_div(spec_sub(one, ri), spec_add(one, ri));
    spec_mul(r, r)
}

/// The Schlick reflectance approximation
/// `r0 + (1 - r0) * (1 - cosine)^5`.
pub open spec fn spec_schlick(cosine: Fx, ri: Fx) -> Fx {
    let one = Fx { bits: 65536 };
    let r0 = spec_r0(ri);
    let omc = spec_sub(one, cosine);
    let p2 = spec_mul(omc, omc);
    let p4 = spec_mul(p2, p2);
    let p5 = spec_mul(p4, omc);
    spec_add(r0, spec_mul(spec_sub(one, r0), p5))
}

/// One glass bounce from generator state `s`: refract by Snell's law
/// unless total internal reflection forbids it or a uniform draw falls
/// below the Schlick reflectance, in which case reflect.  The radicand of
/// `sin` is taken by magnitude, the same rounding guard refraction uses.
pub open spec fn spec_glass_scatter(g: Glass, ray: Ray, hit: HitRecord, s: u64) -> (
    (Ray, Color),
    u64,
) {
    let one = Fx { bits: 65536 };
    let white = Vec3 { x: one, y: one, z: one };
    let ri_inverse = if hit.front_face {
        spec_div(one, g.refractive_index)
    } else {
        g.refractive_index
    };
    let unit_direction = spec_unit(ray.direction);
    let cos_theta = spec_min(spec_neg(spec_dot(unit_direction, hit.normal)), one);
    let sin_theta = spec_sqrt(spec_abs(spec_sub(one, spec_mul(cos_theta, cos_theta))));
    let cannot_refract = spec_mul(ri_inverse, sin_theta).bits > 65536;
    let (draw, s2) = spec_draw(s, Fx { bits: 0 }, one);
    let target = if cannot_refract || spec_schlick(cos_theta, ri_inverse).bits > draw.bits {
        spec_reflect(unit_direction, hit.normal)
    } else {
        spec_refract(unit_direction, hit.normal, ri_inverse)
    };
    ((Ray { origin: hit.point, direction: target }, white), s2)
}

/// The Schlick reflectance for an incidence cosine and refraction ratio.
pub fn schlick(cosine: Fx, ri: Fx) -> (r: Fx)
    ensures
        r == spec_schlick(cosine, ri),
{
    let one = Fx { bits: 65536 };
    let r0 = one.sub(ri).div(one.add(ri));
    let r0 = r0.mul(r0);
    let omc = one.sub(cosine);
    let p2 = omc.mul(omc);
    let p4 = p2.mul(p2);
    let p5 = p4.mul(omc);
    r0.add(one.sub(r0).mul(p5))
}

/// At normal incidence (cosine exactly one) the Schlick reflectance is the
/// base reflectance alone: the power term vanishes entirely.
pub proof fn lemma_schlick_at_normal_incidence(ri: Fx)
    ensures
        spec_schlick(Fx { bits: 65536 }, ri) == spec_r0(ri),
{
    let one = Fx { bits: 65536 };
    let r0 = spec_r0(ri);
    assert(spec_sub(one, one).bits == 0);
    assert(spec_mul(Fx { bits: 0 }, Fx { bits: 0 }).bits == 0);
    assert(spec_mul(spec_sub(one, r0), Fx { bits: 0 }).bits == 0) by {
        assert((spec_sub(one, r0).bits as int) * 0 == 0);
    }
    assert(spec_add(r0, Fx { bits: 0 }) == r0);
}

impl Glass {
    /// A glass surface; the refractive index must be positive.
    pub fn new(refractive_index: Fx) -> (r: Result<Glass, ConfigError>)
        ensures
            refractive_index.bits > 0 ==> r == Ok::<Glass, ConfigError>(
                Glass { refractive_index },
            ),
            refractive_index.bits <= 0 ==> r == Err::<Glass, ConfigError>(
                ConfigError::NonPositiveRefractiveIndex,
            ),
    {
        if refractive_index.bits > 0 {
            Ok(Glass { refractive_index })
        } else {
            Err(ConfigError::NonPositiveRefractiveIndex)
        }
    }

    /// Reflect or refract an incoming ray at the hit.
    pub fn scatter(&self, ray: Ray, hit_record: HitRecord, rng: &mut Rng) -> (r: (Ray, Color))
        ensures
            (r, final(rng).state) == spec_glass_scatter(*self, ray, hit_record, old(rng).state),
    {
        let one = Fx { bits: 65536 };
        let color = Vec3 { x: one, y: one, z: one };

        let ri_inverse = if hit_record.front_face {
            one.div(self.refractive_index)
        } else {
            self.refractive_index
        };

        let unit_direction = ray.direction.unit();
        let cos_theta = unit_direction.dot(&hit_record.normal).neg().min(one);
        let sin_theta = one.sub(cos_theta.mul(cos_theta)).abs().sqrt();

        let cannot_refract = ri_inverse.mul(sin_theta).bits > 65536;
        let reflectance = schlick(cos_theta, ri_inverse);
        let draw = random(rng, Fx { bits: 0 }, one);
        let target = if cannot_refract || reflectance.bits > draw.bits {
            unit_direction.reflect(hit_record.normal)
        } else {
            unit_direction.refract(hit_record.normal, ri_inverse)
        };

        let scattered = Ray::new(hit_record.point, target);
        (scattered, color)
    }
}

} // verus!
