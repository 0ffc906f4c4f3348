//! Materials: how a surface continues or terminates a light path.

use vstd::prelude::*;

use crate::fx::Fx;
use crate::object::HitRecord;
use crate::ray::Ray;
use crate::rng::Rng;
use crate::texture::spec_texture_color;
use crate::vec3::{Color, Point, Vec3};

mod diffuse;
mod glass;
mod light;
mod metal;

pub use diffuse::{spec_diffuse_scatter, Diffuse};
pub use glass::{schlick, spec_glass_scatter, spec_r0, spec_schlick, Glass};
pub use light::Light;
pub use metal::{spec_metal_scatter, Metal};

verus! {

/// A surface material; scattering decides how an incoming ray continues,
/// emission is what the surface radiates on its own.
#[derive(Debug, Clone, Copy)]
pub enum Material {
    Diffuse(Diffuse),
    Metal(Metal),
    Glass(Glass),
    Light(Light),
}

/// The scatter decision of a material from generator state `s`: the
/// outgoing ray with its attenuation (`None` terminates the path, the case
/// of a light), and the state the draws leave behind.
pub open spec fn spec_scatter(m: Material, ray: Ray, hit: HitRecord, s: u64) -> (
    Option<(Ray, Color)>,
    u64,
) {
    match m {
        Material::Diffuse(d) => {
            let (rc, s2) = spec_diffuse_scatter(d, hit, s);
            (Some(rc), s2)
        },
        Material::Metal(mt) => {
            let (rc, s2) = spec_metal_scatter(mt, ray, hit, s);
            (Some(rc), s2)
        },
        Material::Glass(g) => {
            let (rc, s2) = spec_glass_scatter(g, ray, hit, s);
            (Some(rc), s2)
        },
        Material::Light(_) => (None, s),
    }
}

/// What a material emits at `(u, v)` and a point: black for everything but
/// a light, whose texture is the one source of outgoing energy not derived
/// from attenuated incoming light.
pub open spec fn spec_emit(m: Material, u: Fx, v: Fx, p: Point) -> Color {
    match m {
        Material::Light(l) => spec_texture_color(l.texture, u, v, p),
        _ => Vec3 { x: Fx { bits: 0 }, y: Fx { bits: 0 }, z: Fx { bits: 0 } },
    }
}

impl Material {
    /// How the incoming ray continues after striking this material.
    pub fn scatter(&self, ray: Ray, hit_record: HitRecord, rng: &mut Rng) -> (r: Option<
        (Ray, Color),
    >)
        ensures
            (r, final(rng).state) == spec_scatter(*self, ray, hit_record, old(rng).state),
    {
        match self {
            Material::Diffuse(d) => Some(d.scatter(ray, hit_record, rng)),
            Material::Metal(mt) => Some(mt.scatter(ray, hit_record, rng)),
            Material::Glass(g) => Some(g.scatter(ray, hit_record, rng)),
            Material::Light(l) => l.scatter(ray, hit_record),
        }
    }

    /// What this material emits at `(u, v)` and `point`.
    pub fn emit(&self, u: Fx, v: Fx, point: Point) -> (c: Color)
        ensures
            c == spec_emit(*self, u, v, point),
    {
        match self {
            Material::Light(l) => l.emit(u, v, point),
            _ => Vec3::zero(),
        }
    }
}

} // verus!
