//! Rays: an origin with an (unnormalized) direction.

use vstd::prelude::*;

use crate::fx::Fx;
use crate::vec3::{spec_vadd, spec_vscale, Point, Vec3};

verus! {

/// A parametric ray `origin + t * direction`; `t` may be negative, callers
/// clip with their own parameter range.
#[derive(Debug, Clone, Copy, PartialEq, Eq, Structural)]
pub struct Ray {
    pub origin: Point,
    pub direction: Vec3,
}

/// The point a ray reaches at parameter `t`.
pub open spec fn spec_at(r: Ray, t: Fx) -> Point {
    spec_vadd(r.origin, spec_vscale(r.direction, t))
}

impl Ray {
    pub fn new(origin: Point, direction: Vec3) -> (r: Ray)
        ensures
            r == (Ray { origin, direction }),
    {
        Ray { origin, direction }
    }

    pub fn at(&self, t: Fx) -> (p: Point)
        ensures
            p == spec_at(*self, t),
    {
        self.origin.add(self.direction.mul(t))
    }
}

} // verus!
