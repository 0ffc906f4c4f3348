//! The reflective metal material.

use vstd::prelude::*;

use crate::config::ConfigError;
use crate::fx::Fx;
use crate::object::HitRecord;
use crate::ray::Ray;
use crate::rng::Rng;
use crate::texture::{spec_texture_color, Texture};
use crate::vec3::{spec_reflect, spec_rejection_sample, spec_vadd, spec_vscale, Color, Vec3,
    MAX_DRAW_TRIES};

verus! {

/// A mirror-like surface; `roughness` in `[0, 1]` perturbs the reflection.
#[derive(Debug, Clone, Copy)]
pub struct Metal {
    pub texture: Texture,
    pub roughness: Fx,
}

/// One metal bounce from generator state `s`: the mirror reflection of the
/// incoming direction, fuzzed by a roughness-scaled draw from the unit
/// ball; the attenuation is the texture color at the hit.
pub open spec fn spec_metal_scatter(m: Metal, ray: Ray, hit: HitRecord, s: u64) -> (
    (Ray, Color),
    u64,
) {
    let color = spec_texture_color(m.texture, hit.uv.0, hit.uv.1, hit.point);
    let target = spec_reflect(ray.direction, hit.normal);
    let (rv, s2) = spec_rejection_sample(s, false, MAX_DRAW_TRIES as nat);
    let direction = spec_vadd(target, spec_vscale(rv, m.roughness));
    ((Ray { origin: hit.point, direction }, color), s2)
}

impl Metal {
    /// A metal surface; the roughness must lie in `[0, 1]`.
    pub fn new(texture: Texture, roughness: Fx) -> (r: Result<Metal, ConfigError>)
        ensures
            0 <= roughness.bits <= 65536 ==> r == Ok::<Metal, ConfigError>(
                Metal { texture, roughness },
            ),
            !(0 <= roughness.bits <= 65536) ==> r == Err::<Metal, ConfigError>(
                ConfigError::RoughnessOutOfRange,
            ),
    {
        if 0 <= roughness.bits && roughness.bits <= 65536 {
            Ok(Metal { texture, roughness })
        } else {
            Err(ConfigError::RoughnessOutOfRange)
        }
    }

    /// Scatter an incoming ray specularly at the hit.
    pub fn scatter(&self, ray: Ray, hit_record: HitRecord, rng: &mut Rng) -> (r: (Ray, Color))
        ensures
            (r, final(rng).state) == spec_metal_scatter(*self, ray, hit_record, old(rng).state),
    {
        let u = hit_record.uv.0;
        let v = hit_record.uv.1;
        let color = self.texture.color(u, v, hit_record.point);

        let target = ray.direction.reflect(hit_record.normal);
        let fuzz = Vec3::random_in_unit_sphere(rng).mul(self.roughness);
        let scattered = Ray::new(hit_record.point, target.add(fuzz));

        (scattered, color)
    }
}

} // verus!
