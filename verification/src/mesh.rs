//! Triangle meshes with a bounding-box pre-filter.

use vstd::prelude::*;

use crate::config::ConfigError;
use crate::fx::{iabs, spec_add, spec_div, spec_max, spec_min, spec_mul, Fx};
use crate::material::Material;
use crate::object::HitRecord;
use crate::ray::{spec_at, Ray};
use crate::vec3::{spec_cross, spec_dot, spec_vadd, spec_vneg, spec_vsub, Point, Vec3};

verus! {

/// A triangle-plane alignment below this threshold — one grid step, the
/// tightest grid bound at the scale of the float epsilon `1e-5` — counts
/// as parallel and misses.
pub const PARALLEL_EPS_BITS: i64 = 1;

/// The result of a ray-triangle intersection, in mesh-local space and
/// without a material.
#[derive(Debug, Clone, Copy)]
pub struct TrigHitRecord {
    pub point: Point,
    pub normal: Vec3,
    pub front_face: bool,
    pub t: Fx,
    pub uv: (Fx, Fx),
}

/// One triangle, by its three vertex positions.
#[derive(Debug, Clone, Copy)]
pub struct Trig {
    pub v1: Point,
    pub v2: Point,
    pub v3: Point,
}

/// Ray-triangle intersection by the Moller-Trumbore algorithm: reject a
/// near-parallel ray, then reject barycentric coordinates with `u < 0`,
/// `u > 1`, `v < 0` or `u + v > 1`; otherwise report the hit with its
/// oriented normal and `(u, v)`.
#[verifier::opaque]
pub open spec fn spec_trig_hit(tg: Trig, ray: Ray) -> Option<TrigHitRecord> {
    let edge1 = spec_vsub(tg.v2, tg.v1);
    let edge2 = spec_vsub(tg.v3, tg.v1);
    let p = ray.origin;
    let d = ray.direction;
    let h = spec_cross(d, edge2);
    let a = spec_dot(edge1, h);
    if iabs(a.bits as int) < PARALLEL_EPS_BITS {
        None
    } else {
        let f = spec_div(Fx { bits: 65536 }, a);
        let s = spec_vsub(p, tg.v1);
        let u = spec_mul(f, spec_dot(s, h));
        if u.bits < 0 || u.bits > 65536 {
            None
        } else {
            let q = spec_cross(s, edge1);
            let v = spec_mul(f, spec_dot(d, q));
            if v.bits < 0 || spec_add(u, v).bits > 65536 {
                None
            } else {
                let t = spec_mul(f, spec_dot(edge2, q));
                let point = spec_at(ray, t);
                let normal0 = spec_cross(edge1, edge2);
                let front_face = spec_dot(d, normal0).bits < 0;
                let normal = if front_face {
                    normal0
                } else {
                    spec_vneg(normal0)
                };
                Some(TrigHitRecord { point, normal, front_face, t, uv: (u, v) })
            }
        }
    }
}

impl Trig {
    pub fn new(v1: Point, v2: Point, v3: Point) -> (r: Trig)
        ensures
            r == (Trig { v1, v2, v3 }),
    {
        Trig { v1, v2, v3 }
    }

    /// The intersection of the ray with this triangle, if any.
    pub fn hit(&self, ray: Ray) -> (r: Option<TrigHitRecord>)
        ensures
            r == spec_trig_hit(*self, ray),
    {
        proof {
            reveal(spec_trig_hit);
        }
        let edge1 = self.v2.sub(self.v1);
        let edge2 = self.v3.sub(self.v1);

        let p = ray.origin;
        let d = ray.direction;
        let h = d.cross(&edge2);
        let a = edge1.dot(&h);

        if a.abs().bits < PARALLEL_EPS_BITS {
            return None;
        }

        let f = Fx { bits: 65536 }.div(a);
        let s = p.sub(self.v1);
        let u = f.mul(s.dot(&h));
        if u.bits < 0 || u.bits > 65536 {
            return None;
        }

        let q = s.cross(&edge1);
        let v = f.mul(d.dot(&q));
        if v.bits < 0 || u.add(v).bits > 65536 {
            return None;
        }

        let t = f.mul(edge2.dot(&q));
        let point = ray.at(t);
        let normal = edge1.cross(&edge2);
        let front_face = d.dot(&normal).bits < 0;
        let normal = if front_face {
            normal
        } else {
            normal.neg()
        };

        let hit_record = TrigHitRecord { point, normal, front_face, t, uv: (u, v) };
        Some(hit_record)
    }
}

/// The parallel-rejection law: a ray whose direction is (near-)parallel to
/// the triangle's plane never reports a hit.
pub proof fn lemma_trig_rejects_parallel(tg: Trig, ray: Ray)
    requires
        iabs(
            spec_dot(spec_vsub(tg.v2, tg.v1), spec_cross(ray.direction, spec_vsub(tg.v3, tg.v1))).bits
                as int,
        ) < PARALLEL_EPS_BITS,
    ensures
        spec_trig_hit(tg, ray) is None,
{
    reveal(spec_trig_hit);
}

/// The barycentric-rejection law: a first coordinate outside `[0, 1]`
/// never reports a hit.
pub proof fn lemma_trig_rejects_u_outside(tg: Trig, ray: Ray)
    requires
        ({
            let edge1 = spec_vsub(tg.v2, tg.v1);
            let edge2 = spec_vsub(tg.v3, tg.v1);
            let h = spec_cross(ray.direction, edge2);
            let a = spec_dot(edge1, h);
            let f = spec_div(Fx { bits: 65536 }, a);
            let u = spec_mul(f, spec_dot(spec_vsub(ray.origin, tg.v1), h));
            u.bits < 0 || u.bits > 65536
        }),
    ensures
        spec_trig_hit(tg, ray) is None,
{
    reveal(spec_trig_hit);
}

/// The barycentric-rejection law: a second coordinate below zero, or a
/// coordinate sum above one, never reports a hit.
pub proof fn lemma_trig_rejects_v_outside(tg: Trig, ray: Ray)
    requires
        ({
            let edge1 = spec_vsub(tg.v2, tg.v1);
            let edge2 = spec_vsub(tg.v3, tg.v1);
            let h = spec_cross(ray.direction, edge2);
            let a = spec_dot(edge1, h);
            let f = spec_div(Fx { bits: 65536 }, a);
            let s = spec_vsub(ray.origin, tg.v1);
            let u = spec_mul(f, spec_dot(s, h));
            let q = spec_cross(s, edge1);
            let v = spec_mul(f, spec_dot(ray.direction, q));
            v.bits < 0 || spec_add(u, v).bits > 65536
        }),
    ensures
        spec_trig_hit(tg, ray) is None,
{
    reveal(spec_trig_hit);
}

/// Every face references only existing vertices.
pub open spec fn spec_faces_ok(faces: Seq<(u32, u32, u32)>, n: int) -> bool {
    forall|i: int|
        0 <= i < faces.len() ==> (faces[i].0 < n && faces[i].1 < n && faces[i].2 < n)
}

/// Componentwise minimum corner.
pub open spec fn spec_vmin3(a: Vec3, b: Vec3) -> Vec3 {
    Vec3 { x: spec_min(a.x, b.x), y: spec_min(a.y, b.y), z: spec_min(a.z, b.z) }
}

/// Componentwise maximum corner.
pub open spec fn spec_vmax3(a: Vec3, b: Vec3) -> Vec3 {
    Vec3 { x: spec_max(a.x, b.x), y: spec_max(a.y, b.y), z: spec_max(a.z, b.z) }
}

/// The axis-aligned bounding box of a vertex list, folded left to right
/// from the extreme sentinels (an empty list keeps the inverted box, which
/// rejects every ray).
pub open spec fn spec_aabb(vs: Seq<Vec3>) -> (Vec3, Vec3)
    decreases vs.len(),
{
    if vs.len() == 0 {
        (
            Vec3 { x: Fx { bits: i64::MAX }, y: Fx { bits: i64::MAX }, z: Fx { bits: i64::MAX } },
            Vec3 { x: Fx { bits: i64::MIN }, y: Fx { bits: i64::MIN }, z: Fx { bits: i64::MIN } },
        )
    } else {
        let (mn, mx) = spec_aabb(vs.drop_last());
        (spec_vmin3(mn, vs.last()), spec_vmax3(mx, vs.last()))
    }
}

/// A triangle mesh: vertices and index triples in mesh-local space, the
/// world-space offset of its center, its material, and the precomputed
/// bounding box of the raw vertices (before the center offset).
#[derive(Debug)]
pub struct Mesh {
    pub vertices: Vec<Point>,
    pub faces: Vec<(u32, u32, u32)>,
    pub center: Point,
    pub material: Material,
    pub aabb: (Vec3, Vec3),
}

/// The mesh's construction invariant: faces index existing vertices and
/// the stored box is the box of the vertices.
pub open spec fn spec_mesh_wf(m: Mesh) -> bool {
    &&& spec_faces_ok(m.faces@, m.vertices@.len() as int)
    &&& m.aabb == spec_aabb(m.vertices@)
}

/// The slab test of the bounding box against a (mesh-local) ray: per axis,
/// the entry/exit parameters shrink the running interval, and an empty
/// interval rejects.  A pass is necessary for a triangle hit, not
/// sufficient; the test exists to skip the triangle scan on a clear miss.
pub open spec fn spec_hit_aabb(aabb: (Vec3, Vec3), ray: Ray, t_min: Fx, t_max: Fx) -> bool {
    let rmin = spec_vsub(aabb.0, ray.origin);
    let rmax = spec_vsub(aabb.1, ray.origin);
    let d = ray.direction;
    let tx0 = spec_min(spec_div(rmin.x, d.x), spec_div(rmax.x, d.x));
    let tx1 = spec_max(spec_div(rmin.x, d.x), spec_div(rmax.x, d.x));
    if spec_max(tx0, t_min).bits >= spec_min(tx1, t_max).bits {
        false
    } else {
        let ty0 = spec_min(spec_div(rmin.y, d.y), spec_div(rmax.y, d.y));
        let ty1 = spec_max(spec_div(rmin.y, d.y), spec_div(rmax.y, d.y));
        if spec_max(ty0, t_min).bits >= spec_min(ty1, t_max).bits {
            false
        } else {
            let tz0 = spec_min(spec_div(rmin.z, d.z), spec_div(rmax.z, d.z));
            let tz1 = spec_max(spec_div(rmin.z, d.z), spec_div(rmax.z, d.z));
            if spec_max(tz0, t_min).bits >= spec_min(tz1, t_max).bits {
                false
            } else {
                true
            }
        }
    }
}

/// The scan of the first `k` faces: the record of the nearest triangle hit
/// with parameter strictly above `t_min` and strictly below the best so
/// far (starting from `t_max`), and that best parameter.
pub open spec fn spec_mesh_scan(
    vs: Seq<Vec3>,
    faces: Seq<(u32, u32, u32)>,
    ray: Ray,
    t_min: Fx,
    t_max: Fx,
    k: int,
) -> (Option<TrigHitRecord>, Fx)
    decreases k,
{
    if k <= 0 {
        (None, t_max)
    } else {
        let (acc, bt) = spec_mesh_scan(vs, faces, ray, t_min, t_max, k - 1);
        let f = faces[k - 1];
        let tg = Trig { v1: vs[f.0 as int], v2: vs[f.1 as int], v3: vs[f.2 as int] };
        match spec_trig_hit(tg, ray) {
            Some(rec) => {
                if rec.t.bits < bt.bits && rec.t.bits > t_min.bits {
                    (Some(rec), rec.t)
                } else {
                    (acc, bt)
                }
            },
            None => (acc, bt),
        }
    }
}

/// The nearest mesh intersection within `[t_min, t_max]`: translate the
/// ray into mesh-local space, reject on the bounding box, otherwise scan
/// every triangle and translate the winner back to world space.
pub open spec fn spec_mesh_hit(m: Mesh, ray: Ray, t_min: Fx, t_max: Fx) -> Option<HitRecord> {
    let tr = Ray { origin: spec_vsub(ray.origin, m.center), direction: ray.direction };
    if !spec_hit_aabb(m.aabb, tr, t_min, t_max) {
        None
    } else {
        let (best, _bt) = spec_mesh_scan(m.vertices@, m.faces@, tr, t_min, t_max, m.faces@.len() as int);
        match best {
            Some(r) => Some(
                HitRecord {
                    point: spec_vadd(r.point, m.center),
                    normal: r.normal,
                    front_face: r.front_face,
                    t: r.t,
                    uv: r.uv,
                    material: m.material,
                },
            ),
            None => None,
        }
    }
}

impl Mesh {
    /// A mesh from vertices, faces, a center offset and a material; every
    /// face index must stay within the vertex list.  The bounding box is
    /// computed here, once, from the raw vertex extents.
    pub fn new(
        vertices: Vec<Point>,
        faces: Vec<(u32, u32, u32)>,
        center: Point,
        material: Material,
    ) -> (r: Result<Mesh, ConfigError>)
        ensures
            spec_faces_ok(faces@, vertices@.len() as int) ==> r == Ok::<Mesh, ConfigError>(
                Mesh { vertices, faces, center, material, aabb: spec_aabb(vertices@) },
            ),
            !spec_faces_ok(faces@, vertices@.len() as int) ==> r == Err::<Mesh, ConfigError>(
                ConfigError::FaceIndexOutOfBounds,
            ),
    {
        let nv: usize = vertices.len();
        let nf: usize = faces.len();
        let mut i: usize = 0;
        while i < nf
            invariant
                i <= nf,
                nf == faces@.len(),
                nv == vertices@.len(),
                forall|j: int|
                    0 <= j < i ==> (faces@[j].0 < nv && faces@[j].1 < nv && faces@[j].2 < nv),
            decreases nf - i,
        {
            let f = faces[i];
            if f.0 as usize >= nv || f.1 as usize >= nv || f.2 as usize >= nv {
                return Err(ConfigError::FaceIndexOutOfBounds);
            }
            i = i + 1;
        }

        let mut mn = Vec3 {
            x: Fx { bits: i64::MAX },
            y: Fx { bits: i64::MAX },
            z: Fx { bits: i64::MAX },
        };
        let mut mx = Vec3 {
            x: Fx { bits: i64::MIN },
            y: Fx { bits: i64::MIN },
            z: Fx { bits: i64::MIN },
        };
        let mut k: usize = 0;
        while k < nv
            invariant
                k <= nv,
                nv == vertices@.len(),
                (mn, mx) == spec_aabb(vertices@.take(k as int)),
            decreases nv - k,
        {
            let v = vertices[k];
            proof {
                assert(vertices@.take(k + 1).drop_last() =~= vertices@.take(k as int));
                assert(vertices@.take(k + 1).last() == vertices@[k as int]);
            }
            mn = Vec3 { x: mn.x.min(v.x), y: mn.y.min(v.y), z: mn.z.min(v.z) };
            mx = Vec3 { x: mx.x.max(v.x), y: mx.y.max(v.y), z: mx.z.max(v.z) };
            k = k + 1;
        }
        proof {
            assert(vertices@.take(nv as int) =~= vertices@);
        }

        Ok(Mesh { vertices, faces, center, material, aabb: (mn, mx) })
    }

    /// Whether the (mesh-local) ray passes the bounding-box slab test.
    pub fn hit_aabb(&self, ray: Ray, t_min: Fx, t_max: Fx) -> (r: bool)
        ensures
            r == spec_hit_aabb(self.aabb, ray, t_min, t_max),
    {
        let a = self.aabb.0;
        let b = self.aabb.1;

        let rmin = a.sub(ray.origin);
        let rmax = b.sub(ray.origin);
        let d = ray.direction;

        let t0 = rmin.x.div(d.x).min(rmax.x.div(d.x));
        let t1 = rmin.x.div(d.x).max(rmax.x.div(d.x));
        if t0.max(t_min).bits >= t1.min(t_max).bits {
            return false;
        }

        let t0 = rmin.y.div(d.y).min(rmax.y.div(d.y));
        let t1 = rmin.y.div(d.y).max(rmax.y.div(d.y));
        if t0.max(t_min).bits >= t1.min(t_max).bits {
            return false;
        }

        let t0 = rmin.z.div(d.z).min(rmax.z.div(d.z));
        let t1 = rmin.z.div(d.z).max(rmax.z.div(d.z));
        if t0.max(t_min).bits >= t1.min(t_max).bits {
            return false;
        }

        true
    }

    /// The nearest intersection with the ray within `[t_min, t_max]`.
    pub fn hit(&self, ray: Ray, t_min: Fx, t_max: Fx) -> (r: Option<HitRecord>)
        requires
            spec_mesh_wf(*self),
        ensures
            r == spec_mesh_hit(*self, ray, t_min, t_max),
    {
        let transformed_ray = Ray::new(ray.origin.sub(self.center), ray.direction);

        if !self.hit_aabb(transformed_ray, t_min, t_max) {
            return None;
        }

        let mut hit_record: Option<TrigHitRecord> = None;
        let mut hit_t = t_max;
        let nf: usize = self.faces.len();
        let mut i: usize = 0;
        while i < nf
            invariant
                i <= nf,
                nf == self.faces@.len(),
                spec_mesh_wf(*self),
                (hit_record, hit_t) == spec_mesh_scan(
                    self.vertices@,
                    self.faces@,
                    transformed_ray,
                    t_min,
                    t_max,
                    i as int,
                ),
            decreases nf - i,
        {
            let f = self.faces[i];
            let trig = Trig::new(
                self.vertices[f.0 as usize],
                self.vertices[f.1 as usize],
                self.vertices[f.2 as usize],
            );

            match trig.hit(transformed_ray) {
                Some(record) => {
                    if record.t.bits < hit_t.bits && record.t.bits > t_min.bits {
                        hit_t = record.t;
                        hit_record = Some(record);
                    }
                },
                None => (),
            }
            i = i + 1;
        }

        if let Some(r0) = hit_record {
            Some(
                HitRecord {
                    point: r0.point.add(self.center),
                    normal: r0.normal,
                    front_face: r0.front_face,
                    t: r0.t,
                    uv: r0.uv,
                    material: self.material,
                },
            )
        } else {
            None
        }
    }
}

} // verus!
