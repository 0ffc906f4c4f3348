//! Geometry: ray-intersectable objects and their hit records.

use vstd::prelude::*;

use crate::config::ConfigError;
use crate::fx::{spec_add, spec_div, spec_mul, spec_neg, spec_sqrt, spec_sub, Fx};
use crate::material::Material;
use crate::mesh::{spec_mesh_hit, spec_mesh_wf, Mesh};
use crate::ray::{spec_at, Ray};
use crate::texture::spec_uv_coords;
use crate::vec3::{spec_dot, spec_vdiv, spec_vneg, spec_vsub, Point, Vec3};

verus! {

/// The result of a successful intersection: the hit point, the unit-length
/// oriented normal, whether the geometric normal already faced the ray,
/// the ray parameter, surface coordinates and the material struck (by
/// value: materials are small copyable descriptions).  Ephemeral: it lives
/// for one integrator step.
#[derive(Debug, Clone, Copy)]
pub struct HitRecord {
    pub point: Point,
    pub normal: Vec3,
    pub front_face: bool,
    pub t: Fx,
    pub uv: (Fx, Fx),
    pub material: Material,
}

/// A sphere with a positive radius, owning its material.
#[derive(Debug, Clone, Copy)]
pub struct Sphere {
    pub center: Point,
    pub radius: Fx,
    pub material: Material,
}

/// The outward geometric normal of a sphere at a surface point.
pub open spec fn spec_sphere_normal_at(s: Sphere, point: Point) -> Vec3 {
    spec_vdiv(spec_vsub(point, s.center), s.radius)
}

/// The hit record a sphere builds once the ray parameter `t` is chosen.
pub open spec fn spec_sphere_record(s: Sphere, ray: Ray, t: Fx) -> HitRecord {
    let point = spec_at(ray, t);
    let normal0 = spec_sphere_normal_at(s, point);
    let front_face = spec_dot(ray.direction, normal0).bits < 0;
    let normal = if front_face {
        normal0
    } else {
        spec_vneg(normal0)
    };
    HitRecord {
        point,
        normal,
        front_face,
        t,
        uv: spec_uv_coords(spec_vsub(point, s.center)),
        material: s.material,
    }
}

/// The nearest sphere intersection within `[t_min, t_max]`: solve the
/// quadratic, miss on a negative discriminant, prefer the smaller root and
/// fall back to the larger, miss when neither is in range.
pub open spec fn spec_sphere_hit(s: Sphere, ray: Ray, t_min: Fx, t_max: Fx) -> Option<HitRecord> {
    let oc = spec_vsub(ray.origin, s.center);
    let a = spec_dot(ray.direction, ray.direction);
    let half_b = spec_dot(oc, ray.direction);
    let c = spec_sub(spec_dot(oc, oc), spec_mul(s.radius, s.radius));
    let d = spec_sub(spec_mul(half_b, half_b), spec_mul(a, c));
    if d.bits < 0 {
        None
    } else {
        let sq = spec_sqrt(d);
        let t1 = spec_div(spec_sub(spec_neg(half_b), sq), a);
        let t2 = spec_div(spec_add(spec_neg(half_b), sq), a);
        if !(t1.bits < t_min.bits || t1.bits > t_max.bits) {
            Some(spec_sphere_record(s, ray, t1))
        } else if !(t2.bits < t_min.bits || t2.bits > t_max.bits) {
            Some(spec_sphere_record(s, ray, t2))
        } else {
            None
        }
    }
}

impl Sphere {
    /// A sphere; the radius must be positive.
    pub fn new(center: Point, radius: Fx, material: Material) -> (r: Result<Sphere, ConfigError>)
        ensures
            radius.bits > 0 ==> r == Ok::<Sphere, ConfigError>(
                Sphere { center, radius, material },
            ),
            radius.bits <= 0 ==> r == Err::<Sphere, ConfigError>(ConfigError::NonPositiveRadius),
    {
        if radius.bits > 0 {
            Ok(Sphere { center, radius, material })
        } else {
            Err(ConfigError::NonPositiveRadius)
        }
    }

    /// The outward geometric normal at a surface point.
    pub fn normal_at(&self, point: Point) -> (n: Vec3)
        ensures
            n == spec_sphere_normal_at(*self, point),
    {
        point.sub(self.center).div(self.radius)
    }

    /// The nearest intersection with the ray within `[t_min, t_max]`.
    pub fn hit(&self, ray: Ray, t_min: Fx, t_max: Fx) -> (r: Option<HitRecord>)
        ensures
            r == spec_sphere_hit(*self, ray, t_min, t_max),
    {
        let oc = ray.origin.sub(self.center);
        let a = ray.direction.dot(&ray.direction);
        let half_b = oc.dot(&ray.direction);
        let c = oc.dot(&oc).sub(self.radius.mul(self.radius));

        let d = half_b.mul(half_b).sub(a.mul(c));

        if d.bits < 0 {
            return None;
        }

        let sq = d.sqrt();
        let t = half_b.neg().sub(sq).div(a);
        let t = if t.bits < t_min.bits || t.bits > t_max.bits {
            let t = half_b.neg().add(sq).div(a);
            if t.bits < t_min.bits || t.bits > t_max.bits {
                return None;
            }
            t
        } else {
            t
        };

        let point = ray.at(t);
        let normal = self.normal_at(point);
        let front_face = ray.direction.dot(&normal).bits < 0;
        let normal = if front_face {
            normal
        } else {
            normal.neg()
        };
        let uv = crate::texture::uv_coords(point.sub(self.center));

        Some(
            HitRecord {
                point,
                normal,
                front_face,
                t,
                uv,
                material: self.material,
            },
        )
    }
}

/// The clip-range invariant: when a sphere reports a hit, its parameter
/// lies within the caller-supplied `[t_min, t_max]`.
pub proof fn lemma_sphere_hit_t_in_range(s: Sphere, ray: Ray, t_min: Fx, t_max: Fx)
    ensures
        spec_sphere_hit(s, ray, t_min, t_max) is Some ==> t_min.bits <= (spec_sphere_hit(
            s,
            ray,
            t_min,
            t_max,
        )->0).t.bits <= t_max.bits,
{
}

/// Any geometric object a ray can strike.
#[derive(Debug)]
pub enum Hittable {
    Sphere(Sphere),
    Mesh(Mesh),
}

impl Hittable {
    /// The object's construction invariant (a mesh's faces stay in bounds
    /// and its box matches its vertices); constructors establish it.
    pub open spec fn wf(&self) -> bool {
        match self {
            Hittable::Sphere(_) => true,
            Hittable::Mesh(m) => spec_mesh_wf(*m),
        }
    }

    /// The nearest intersection of this object within `[t_min, t_max]`.
    pub open spec fn spec_hit(&self, ray: Ray, t_min: Fx, t_max: Fx) -> Option<HitRecord> {
        match self {
            Hittable::Sphere(s) => spec_sphere_hit(*s, ray, t_min, t_max),
            Hittable::Mesh(m) => spec_mesh_hit(*m, ray, t_min, t_max),
        }
    }

    /// The nearest intersection with the ray within `[t_min, t_max]`.
    pub fn hit(&self, ray: Ray, t_min: Fx, t_max: Fx) -> (r: Option<HitRecord>)
        requires
            self.wf(),
        ensures
            r == self.spec_hit(ray, t_min, t_max),
    {
        match self {
            Hittable::Sphere(s) => s.hit(ray, t_min, t_max),
            Hittable::Mesh(m) => m.hit(ray, t_min, t_max),
        }
    }
}

} // verus!
