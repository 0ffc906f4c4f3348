//! The Lambertian-approximation diffuse material.

use vstd::prelude::*;

use crate::object::HitRecord;
use crate::ray::Ray;
use crate::rng::Rng;
use crate::texture::{spec_texture_color, Texture};
use crate::vec3::{spec_near_zero, spec_rejection_sample, spec_vadd, Color, Vec3, MAX_DRAW_TRIES};

verus! {

/// A matte surface tinted by a texture.
#[derive(Debug, Clone, Copy)]
pub struct Diffuse {
    pub texture: Texture,
}

/// One diffuse bounce from generator state `s`: the outgoing direction is
/// the surface normal plus a draw from the unit ball, replaced by the
/// normal itself when that sum degenerates to (near) zero; the attenuation
/// is the texture color at the hit.
pub open spec fn spec_diffuse_scatter(d: Diffuse, hit: HitRecord, s: u64) -> ((Ray, Color), u64) {
    let color = spec_texture_color(d.texture, hit.uv.0, hit.uv.1, hit.point);
    let (rv, s2) = spec_rejection_sample(s, false, MAX_DRAW_TRIES as nat);
    let sum = spec_vadd(hit.normal, rv);
    let target = if spec_near_zero(sum) {
        hit.normal
    } else {
        sum
    };
    ((Ray { origin: hit.point, direction: target }, color), s2)
}

impl Diffuse {
    pub fn new(texture: Texture) -> (r: Diffuse)
        ensures
            r == (Diffuse { texture }),
    {
        Diffuse { texture }
    }

    /// Scatter an incoming ray diffusely at the hit.
    pub fn scatter(&self, _ray: Ray, hit_record: HitRecord, rng: &mut Rng) -> (r: (Ray, Color))
        ensures
            (r, final(rng).state) == spec_diffuse_scatter(*self, hit_record, old(rng).state),
    {
        let u = hit_record.uv.0;
        let v = hit_record.uv.1;
        let color = self.texture.color(u, v, hit_record.point);

        let mut target = hit_record.normal.add(Vec3::random_in_unit_sphere(rng));

        if target.near_zero() {
            target = hit_record.normal;
        }

        let scattered = Ray::new(hit_record.point, target);

        (scattered, color)
    }
}

} // verus!
