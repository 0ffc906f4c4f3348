use ocular::config::ConfigError;
use ocular::material::{Diffuse, Material};
use ocular::mesh::{Mesh, Trig};
use ocular::object::Sphere;
use ocular::texture::{Solid, Texture};
use ocular::{Fx, Ray, Vec3};

fn fxi(v: i32) -> Fx {
    Fx::from_int(v)
}

fn vec(x: i64, y: i64, z: i64) -> Vec3 {
    Vec3::new(Fx::from_bits(x), Fx::from_bits(y), Fx::from_bits(z))
}

fn gray_material() -> Material {
    Material::Diffuse(Diffuse::new(Texture::Solid(Solid::new(vec(32768, 32768, 32768)))))
}

#[test]
fn sphere_hit_head_on() {
    let sphere = Sphere::new(vec(0, 0, -65536), Fx::from_bits(32768), gray_material()).unwrap();
    let ray = Ray::new(vec(0, 0, 0), vec(0, 0, -65536));
    let rec = sphere.hit(ray, Fx::zero(), fxi(100)).unwrap();
    assert_eq!(rec.t, Fx::from_bits(32768));
    assert_eq!(rec.point, vec(0, 0, -32768));
    assert_eq!(rec.normal, vec(0, 0, 65536));
    assert!(rec.front_face);
}

#[test]
fn sphere_miss_perpendicular() {
    let sphere = Sphere::new(vec(0, 0, -65536), Fx::from_bits(32768), gray_material()).unwrap();
    let ray = Ray::new(vec(0, 0, 0), vec(65536, 0, 0));
    assert!(sphere.hit(ray, Fx::zero(), fxi(100)).is_none());
}

#[test]
fn sphere_hit_respects_clip_range() {
    let sphere = Sphere::new(vec(0, 0, -65536), Fx::from_bits(32768), gray_material()).unwrap();
    let ray = Ray::new(vec(0, 0, 0), vec(0, 0, -65536));
    // both roots (0.5 and 1.5) lie beyond the clip end
    assert!(sphere.hit(ray, Fx::zero(), Fx::from_bits(16384)).is_none());
    // the near root is clipped away, the far root (t = 1.5) is taken
    let rec = sphere.hit(ray, Fx::from_bits(65536), fxi(100)).unwrap();
    assert_eq!(rec.t, Fx::from_bits(98304));
    assert!(!rec.front_face);
}

#[test]
fn sphere_rejects_nonpositive_radius() {
    assert!(matches!(
        Sphere::new(vec(0, 0, 0), Fx::zero(), gray_material()),
        Err(ConfigError::NonPositiveRadius)
    ));
    assert!(matches!(
        Sphere::new(vec(0, 0, 0), Fx::from_bits(-65536), gray_material()),
        Err(ConfigError::NonPositiveRadius)
    ));
}

fn unit_triangle() -> Trig {
    Trig::new(vec(0, 0, 0), vec(65536, 0, 0), vec(0, 65536, 0))
}

#[test]
fn triangle_rejects_parallel_ray() {
    let ray = Ray::new(vec(0, 0, 65536), vec(65536, 0, 0));
    assert!(unit_triangle().hit(ray).is_none());
}

#[test]
fn triangle_hit_inside() {
    let ray = Ray::new(vec(16384, 16384, 65536), vec(0, 0, -65536));
    let rec = unit_triangle().hit(ray).unwrap();
    assert_eq!(rec.t, Fx::from_bits(65536));
    assert_eq!(rec.point, vec(16384, 16384, 0));
    assert_eq!(rec.uv.0, Fx::from_bits(16384));
    assert_eq!(rec.uv.1, Fx::from_bits(16384));
    assert!(rec.front_face);
    assert_eq!(rec.normal, vec(0, 0, 65536));
}

#[test]
fn triangle_rejects_u_below_zero() {
    let ray = Ray::new(vec(-32768, 16384, 65536), vec(0, 0, -65536));
    assert!(unit_triangle().hit(ray).is_none());
}

#[test]
fn triangle_rejects_u_above_one() {
    let ray = Ray::new(vec(98304, 16384, 65536), vec(0, 0, -65536));
    assert!(unit_triangle().hit(ray).is_none());
}

#[test]
fn triangle_rejects_v_below_zero() {
    let ray = Ray::new(vec(16384, -32768, 65536), vec(0, 0, -65536));
    assert!(unit_triangle().hit(ray).is_none());
}

#[test]
fn triangle_rejects_uv_sum_above_one() {
    let ray = Ray::new(vec(49152, 49152, 65536), vec(0, 0, -65536));
    assert!(unit_triangle().hit(ray).is_none());
}

#[test]
fn mesh_rejects_face_index_out_of_bounds() {
    let vertices = vec![vec(0, 0, 0), vec(65536, 0, 0), vec(0, 65536, 0)];
    let faces = vec![(0u32, 1u32, 3u32)];
    assert!(matches!(
        Mesh::new(vertices, faces, vec(0, 0, 0), gray_material()),
        Err(ConfigError::FaceIndexOutOfBounds)
    ));
}

#[test]
fn mesh_bounding_box_from_vertices() {
    let vertices = vec![vec(0, 0, 0), vec(65536, 0, 0), vec(0, 65536, -32768)];
    let faces = vec![(0u32, 1u32, 2u32)];
    let mesh = Mesh::new(vertices, faces, vec(0, 0, 0), gray_material()).unwrap();
    assert_eq!(mesh.aabb.0, vec(0, 0, -32768));
    assert_eq!(mesh.aabb.1, vec(65536, 65536, 0));
}

#[test]
fn mesh_hit_translates_by_center() {
    // the fourth vertex only deepens the bounding box: a box flat in one
    // axis makes the slab interval empty and rejects everything
    let vertices = vec![vec(0, 0, 0), vec(65536, 0, 0), vec(0, 65536, 0), vec(0, 0, -65536)];
    let faces = vec![(0u32, 1u32, 2u32)];
    let center = vec(655360, 0, 0);
    let mesh = Mesh::new(vertices, faces, center, gray_material()).unwrap();
    // aim at the triangle's interior, shifted by the mesh center
    let ray = Ray::new(vec(655360 + 16384, 16384, 65536), vec(0, 0, -65536));
    let rec = mesh.hit(ray, Fx::zero(), fxi(100)).unwrap();
    assert_eq!(rec.t, Fx::from_bits(65536));
    assert_eq!(rec.point, vec(655360 + 16384, 16384, 0));
}

#[test]
fn mesh_miss_outside_bounding_box() {
    let vertices = vec![vec(0, 0, 0), vec(65536, 0, 0), vec(0, 65536, 0)];
    let faces = vec![(0u32, 1u32, 2u32)];
    let mesh = Mesh::new(vertices, faces, vec(0, 0, 0), gray_material()).unwrap();
    let ray = Ray::new(vec(655360, 655360, 65536), vec(0, 0, -65536));
    assert!(mesh.hit(ray, Fx::zero(), fxi(100)).is_none());
}
