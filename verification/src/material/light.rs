//! The emissive light material.

use vstd::prelude::*;

use crate::fx::Fx;
use crate::object::HitRecord;
use crate::ray::Ray;
use crate::texture::{spec_texture_color, Texture};
use crate::vec3::{Color, Point};

verus! {

/// An emitter: it never scatters, and radiates its texture's color.
#[derive(Debug, Clone, Copy)]
pub struct Light {
    pub texture: Texture,
}

impl Light {
    pub fn new(texture: Texture) -> (r: Light)
        ensures
            r == (Light { texture }),
    {
        Light { texture }
    }

    /// A light never scatters: the path terminates here and contributes
    /// only this material's emission.
    pub fn scatter(&self, _ray: Ray, _hit_record: HitRecord) -> (r: Option<(Ray, Color)>)
        ensures
            r is None,
    {
        None
    }

    /// The emitted color: the texture sampled at the hit.
    pub fn emit(&self, u: Fx, v: Fx, point: Point) -> (c: Color)
        ensures
            c == spec_texture_color(self.texture, u, v, point),
    {
        self.texture.color(u, v, point)
    }
}

} // verus!
