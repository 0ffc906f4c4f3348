//! Cameras: normalized screen fractions to primary rays.

use vstd::prelude::*;

use crate::fx::{spec_div, spec_mul, spec_tan, Fx, PI_BITS};
use crate::ray::Ray;
use crate::rng::Rng;
use crate::vec3::{spec_cross, spec_rejection_sample, spec_unit, spec_vadd, spec_vdiv, spec_vscale,
    spec_vsub, Point, Vec3, MAX_DRAW_TRIES};

verus! {

/// A thin-lens camera: an origin, the top-left corner and extent vectors of
/// the focus-plane viewport, the lens basis and the lens radius.  A lens
/// radius of zero degenerates to a pinhole.
#[derive(Debug, Clone, Copy, PartialEq, Eq, Structural)]
pub struct Camera {
    pub origin: Point,
    pub screen_top_left: Point,
    pub horizontal: Vec3,
    pub vertical: Vec3,
    pub u: Vec3,
    pub v: Vec3,
    pub lens_radius: Fx,
}

/// The camera a full look-from/look-at configuration builds.
pub open spec fn spec_camera_new(
    lookfrom: Point,
    lookat: Point,
    vup: Vec3,
    vfov: Fx,
    aspect_ratio: Fx,
    aperture: Fx,
    focus_dist: Fx,
) -> Camera {
    let two = Fx { bits: 131072 };
    let half_angle = spec_div(spec_div(spec_mul(vfov, Fx { bits: PI_BITS }), Fx {
        bits: 11796480,
    }), two);
    let h = spec_tan(half_angle);
    let viewport_height = spec_mul(two, h);
    let viewport_width = spec_mul(aspect_ratio, viewport_height);
    let w = spec_unit(spec_vsub(lookfrom, lookat));
    let u = spec_unit(spec_cross(vup, w));
    let v = spec_cross(w, u);
    let horizontal = spec_vscale(u, spec_mul(focus_dist, viewport_width));
    let vertical = spec_vscale(v, spec_mul(focus_dist, viewport_height));
    let screen_top_left = spec_vsub(
        spec_vadd(spec_vsub(lookfrom, spec_vdiv(horizontal, two)), spec_vdiv(vertical, two)),
        spec_vscale(w, focus_dist),
    );
    Camera {
        origin: lookfrom,
        screen_top_left,
        horizontal,
        vertical,
        u,
        v,
        lens_radius: spec_div(aperture, two),
    }
}

/// The camera a fixed-distance pinhole configuration builds: an axis-aligned
/// screen rectangle at the focal distance in front of the origin.
pub open spec fn spec_camera_fixed(
    origin: Point,
    viewport_width: Fx,
    viewport_height: Fx,
    focal_length: Fx,
) -> Camera {
    let two = Fx { bits: 131072 };
    let horizontal = Vec3 { x: viewport_width, y: Fx { bits: 0 }, z: Fx { bits: 0 } };
    let vertical = Vec3 { x: Fx { bits: 0 }, y: viewport_height, z: Fx { bits: 0 } };
    let screen_top_left = spec_vsub(
        spec_vadd(spec_vsub(origin, spec_vdiv(horizontal, two)), spec_vdiv(vertical, two)),
        Vec3 { x: Fx { bits: 0 }, y: Fx { bits: 0 }, z: focal_length },
    );
    Camera {
        origin,
        screen_top_left,
        horizontal,
        vertical,
        u: Vec3 { x: Fx { bits: 65536 }, y: Fx { bits: 0 }, z: Fx { bits: 0 } },
        v: Vec3 { x: Fx { bits: 0 }, y: Fx { bits: 65536 }, z: Fx { bits: 0 } },
        lens_radius: Fx { bits: 0 },
    }
}

/// The primary ray through screen fractions `(fx, fy)` after one lens-disk
/// draw from state `s`, and the state left behind.
#[verifier::opaque]
pub open spec fn spec_camera_ray(c: Camera, frac_x: Fx, frac_y: Fx, s: u64) -> (Ray, u64) {
    let (d, s2) = spec_rejection_sample(s, true, MAX_DRAW_TRIES as nat);
    let blur = spec_vscale(d, c.lens_radius);
    let offset = spec_vadd(spec_vscale(c.u, blur.x), spec_vscale(c.v, blur.y));
    let target = spec_vsub(
        spec_vadd(c.screen_top_left, spec_vscale(c.horizontal, frac_x)),
        spec_vscale(c.vertical, frac_y),
    );
    (
        Ray {
            origin: spec_vadd(c.origin, offset),
            direction: spec_vsub(spec_vsub(target, c.origin), offset),
        },
        s2,
    )
}

impl Camera {
    /// A thin-lens camera from a look-from/look-at configuration; `vfov` is
    /// the vertical field of view in degrees (meaningful strictly between 0
    /// and 180, the domain of the tangent approximation).
    pub fn new(
        lookfrom: Point,
        lookat: Point,
        vup: Vec3,
        vfov: Fx,
        aspect_ratio: Fx,
        aperture: Fx,
        focus_dist: Fx,
    ) -> (c: Camera)
        ensures
            c == spec_camera_new(lookfrom, lookat, vup, vfov, aspect_ratio, aperture, focus_dist),
    {
        let two = Fx { bits: 131072 };
        // degrees to radians: multiply by pi, divide by 180, then halve
        let half_angle = vfov.mul(Fx { bits: PI_BITS }).div(Fx { bits: 11796480 }).div(two);
        let h = half_angle.tan();
        let viewport_height = two.mul(h);
        let viewport_width = aspect_ratio.mul(viewport_height);

        let w = lookfrom.sub(lookat).unit();
        let u = vup.cross(&w).unit();
        let v = w.cross(&u);

        let origin = lookfrom;
        let horizontal = u.mul(focus_dist.mul(viewport_width));
        let vertical = v.mul(focus_dist.mul(viewport_height));

        let screen_top_left = origin.sub(horizontal.div(two)).add(vertical.div(two)).sub(
            w.mul(focus_dist),
        );
        let lens_radius = aperture.div(two);

        Camera { origin, screen_top_left, horizontal, vertical, u, v, lens_radius }
    }

    /// A pinhole camera over an axis-aligned screen rectangle at a fixed
    /// focal distance.
    pub fn fixed_distance(
        origin: Point,
        viewport_width: Fx,
        viewport_height: Fx,
        focal_length: Fx,
    ) -> (c: Camera)
        ensures
            c == spec_camera_fixed(origin, viewport_width, viewport_height, focal_length),
    {
        let two = Fx { bits: 131072 };
        let horizontal = Vec3 { x: viewport_width, y: Fx { bits: 0 }, z: Fx { bits: 0 } };
        let vertical = Vec3 { x: Fx { bits: 0 }, y: viewport_height, z: Fx { bits: 0 } };
        let screen_top_left = origin.sub(horizontal.div(two)).add(vertical.div(two)).sub(
            Vec3 { x: Fx { bits: 0 }, y: Fx { bits: 0 }, z: focal_length },
        );
        Camera {
            origin,
            screen_top_left,
            horizontal,
            vertical,
            u: Vec3 { x: Fx { bits: 65536 }, y: Fx { bits: 0 }, z: Fx { bits: 0 } },
            v: Vec3 { x: Fx { bits: 0 }, y: Fx { bits: 65536 }, z: Fx { bits: 0 } },
            lens_radius: Fx { bits: 0 },
        }
    }

    /// The primary ray through screen fractions `(fx, fy)`, its origin
    /// blurred over the lens disk for depth of field.
    pub fn ray(&self, frac_x: Fx, frac_y: Fx, rng: &mut Rng) -> (r: Ray)
        ensures
            (r, final(rng).state) == spec_camera_ray(*self, frac_x, frac_y, old(rng).state),
    {
        proof {
            reveal(spec_camera_ray);
        }
        let d = Vec3::random_in_unit_disk(rng);
        let blur = d.mul(self.lens_radius);
        let offset = self.u.mul(blur.x).add(self.v.mul(blur.y));
        let target = self.screen_top_left.add(self.horizontal.mul(frac_x)).sub(
            self.vertical.mul(frac_y),
        );
        Ray::new(self.origin.add(offset), target.sub(self.origin).sub(offset))
    }
}

} // verus!
