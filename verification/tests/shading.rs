use ocular::material::{schlick, Diffuse, Glass, Light, Material, Metal};
use ocular::config::ConfigError;
use ocular::texture::{uv_coords, Checkered, Sky, Solid, Texture};
use ocular::{Fx, Vec3};

fn vec(x: i64, y: i64, z: i64) -> Vec3 {
    Vec3::new(Fx::from_bits(x), Fx::from_bits(y), Fx::from_bits(z))
}

#[test]
fn reflect_exact() {
    let v = vec(65536, -65536, 0);
    let n = vec(0, 65536, 0);
    assert_eq!(v.reflect(n), vec(65536, 65536, 0));
}

#[test]
fn refract_straight_through() {
    // at a refraction ratio of one the perpendicular ray passes unchanged
    let v = vec(0, 0, -65536);
    let n = vec(0, 0, 65536);
    assert_eq!(v.refract(n, Fx::one()), vec(0, 0, -65536));
}

#[test]
fn schlick_at_normal_incidence_is_r0() {
    // at cosine one the power term vanishes: the result is r0 exactly,
    // whatever the refraction ratio
    let one = Fx::one();
    for bits in [98304i64, 65536, 155320, 43690] {
        let ri = Fx::from_bits(bits);
        let r = one.sub(ri).div(one.add(ri));
        let r0 = r.mul(r);
        assert_eq!(schlick(one, ri), r0);
    }
    // one literal anchor: ri = 1.5 gives r0 = ((-0.5)/2.5)^2, about 0.04
    assert_eq!(schlick(one, Fx::from_bits(98304)), Fx::from_bits(2621));
}

#[test]
fn near_zero_is_one_grid_step() {
    assert!(Vec3::zero().near_zero());
    assert!(!vec(1, 0, 0).near_zero());
    assert!(!vec(0, -1, 0).near_zero());
}

#[test]
fn unit_of_zero_vector_is_zero() {
    // the deterministic fallback for the degenerate normalization
    assert_eq!(Vec3::zero().unit(), Vec3::zero());
}

#[test]
fn dot_and_cross_exact() {
    let a = vec(65536, 131072, 196608);
    let b = vec(-65536, 65536, 131072);
    assert_eq!(a.dot(&b), Fx::from_bits(65536 + 393216));
    // cross of the axes
    let x = vec(65536, 0, 0);
    let y = vec(0, 65536, 0);
    assert_eq!(x.cross(&y), vec(0, 0, 65536));
}

#[test]
fn light_never_scatters_and_emits_texture() {
    let tint = vec(65536, 32768, 16384);
    let light = Light::new(Texture::Solid(Solid::new(tint)));
    let m = Material::Light(light);
    let u = Fx::zero();
    let v = Fx::zero();
    assert_eq!(m.emit(u, v, Vec3::zero()), tint);
    let diffuse = Material::Diffuse(Diffuse::new(Texture::Solid(Solid::new(tint))));
    assert_eq!(diffuse.emit(u, v, Vec3::zero()), Vec3::zero());
}

#[test]
fn glass_rejects_nonpositive_index() {
    assert!(matches!(Glass::new(Fx::zero()), Err(ConfigError::NonPositiveRefractiveIndex)));
    assert!(Glass::new(Fx::from_bits(98304)).is_ok());
}

#[test]
fn metal_rejects_roughness_outside_unit_interval() {
    let t = Texture::Solid(Solid::new(Vec3::zero()));
    assert!(matches!(
        Metal::new(t, Fx::from_bits(65537)),
        Err(ConfigError::RoughnessOutOfRange)
    ));
    assert!(matches!(
        Metal::new(t, Fx::from_bits(-1)),
        Err(ConfigError::RoughnessOutOfRange)
    ));
    assert!(Metal::new(t, Fx::from_bits(19660)).is_ok());
}

#[test]
fn solid_texture_ignores_coordinates() {
    let c = vec(13107, 26214, 39321);
    let t = Texture::Solid(Solid::new(c));
    assert_eq!(t.color(Fx::zero(), Fx::one(), vec(655360, 0, -655360)), c);
}

#[test]
fn checkered_texture_alternates_cells() {
    let dark = Vec3::zero();
    let bright = vec(65536, 65536, 65536);
    let t = Texture::Checkered(Checkered::new(dark, bright, Fx::one()));
    let u = Fx::zero();
    let v = Fx::zero();
    // all three coordinates inside the first positive half-period: the
    // sine product is positive, so the second color shows
    assert_eq!(t.color(u, v, vec(32768, 32768, 32768)), bright);
    // x = 4 sits one half-period further: the product flips sign
    assert_eq!(t.color(u, v, vec(262144, 32768, 32768)), dark);
}

#[test]
fn sky_texture_blends_white_to_blue() {
    let t = Texture::Sky(Sky);
    let white = vec(65536, 65536, 65536);
    let blue = vec(32768, 45875, 65536);
    assert_eq!(t.color(Fx::zero(), Fx::zero(), Vec3::zero()), white);
    assert_eq!(t.color(Fx::zero(), Fx::one(), Vec3::zero()), blue);
}

#[test]
fn uv_coords_poles_and_equator() {
    // straight up: the polar coordinate reaches one
    let uv_up = uv_coords(vec(0, 65536, 0));
    assert_eq!(uv_up.1, Fx::one());
    // straight down: zero
    let uv_down = uv_coords(vec(0, -65536, 0));
    assert_eq!(uv_down.1, Fx::zero());
    // on the equator the polar coordinate is a half
    let uv_eq = uv_coords(vec(65536, 0, 0));
    assert_eq!(uv_eq.0, Fx::from_bits(32768));
    assert_eq!(uv_eq.1, Fx::from_bits(32768));
    // both coordinates always land in the unit square
    for dir in [vec(3, -7, 11), vec(-65536, 1, -1), vec(0, 0, -65536)] {
        let uv = uv_coords(dir);
        assert!(uv.0.bits >= 0 && uv.0.bits <= 65536);
        assert!(uv.1.bits >= 0 && uv.1.bits <= 65536);
    }
}
