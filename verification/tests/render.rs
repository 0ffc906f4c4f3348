use ocular::material::{Diffuse, Light, Material, Metal};
use ocular::object::{Hittable, Sphere};
use ocular::rng::pixel_seed;
use ocular::scene::{RenderOptions, Scene};
use ocular::texture::{Sky, Solid, Texture};
use ocular::{random, Camera, Fx, Image, Pixel, Ray, Rng, Vec3};

fn vec(x: i64, y: i64, z: i64) -> Vec3 {
    Vec3::new(Fx::from_bits(x), Fx::from_bits(y), Fx::from_bits(z))
}

fn test_scene() -> Scene {
    let camera = Camera::fixed_distance(
        vec(0, 0, 0),
        Fx::from_int(2),
        Fx::from_int(2),
        Fx::one(),
    );
    let ground = Sphere::new(
        vec(0, -6553600, -65536),
        Fx::from_bits(6488064),
        Material::Metal(
            Metal::new(Texture::Solid(Solid::new(vec(45875, 45875, 45875))), Fx::from_bits(19660))
                .unwrap(),
        ),
    )
        .unwrap();
    let ball = Sphere::new(
        vec(0, 0, -131072),
        Fx::from_bits(32768),
        Material::Diffuse(Diffuse::new(Texture::Solid(Solid::new(vec(19660, 26214, 52428))))),
    )
        .unwrap();
    let lamp = Sphere::new(
        vec(131072, 131072, -65536),
        Fx::from_bits(32768),
        Material::Light(Light::new(Texture::Solid(Solid::new(vec(655360, 655360, 655360))))),
    )
        .unwrap();
    Scene::new(
        camera,
        Texture::Sky(Sky),
        vec![Hittable::Sphere(ground), Hittable::Sphere(ball), Hittable::Sphere(lamp)],
    )
}

fn options(crop: ((usize, usize), (usize, usize))) -> RenderOptions {
    RenderOptions {
        width: 8,
        height: 8,
        crop_region: crop,
        samples: 2,
        bounces: 3,
        clip_start: Fx::from_bits(655),
        clip_end: Fx::from_int(1000),
        block_size: 2,
        seed: 0x5EED,
        jitter: true,
    }
}

#[test]
fn tone_map_round_trip() {
    let white = Pixel::from_color(vec(65536, 65536, 65536));
    assert_eq!(white, Pixel { r: 255, g: 255, b: 255 });
    let black = Pixel::from_color(vec(0, 0, 0));
    assert_eq!(black, Pixel { r: 0, g: 0, b: 0 });
}

#[test]
fn tone_map_gamma_quarter() {
    // sqrt(1/4) = 1/2, and floor(0.5 * 255.999) = 127
    let p = Pixel::from_color(vec(16384, 16384, 16384));
    assert_eq!(p, Pixel { r: 127, g: 127, b: 127 });
}

#[test]
fn tone_map_clamps_out_of_range() {
    // negative channels darken to zero, overbright channels cap at 255
    let p = Pixel::from_color(vec(-65536, 655360, 0));
    assert_eq!(p, Pixel { r: 0, g: 255, b: 0 });
}

#[test]
fn image_set_and_get() {
    let mut img = Image::new(3, 2);
    assert_eq!(img.width(), 3);
    assert_eq!(img.height(), 2);
    assert_eq!(img.get_pixel(2, 1), Pixel { r: 0, g: 0, b: 0 });
    img.set_pixel(2, 1, Pixel { r: 9, g: 8, b: 7 });
    assert_eq!(img.get_pixel(2, 1), Pixel { r: 9, g: 8, b: 7 });
    assert_eq!(img.get_pixel(1, 1), Pixel { r: 0, g: 0, b: 0 });
}

#[test]
fn ray_color_zero_bounces_is_black() {
    let scene = test_scene();
    let mut rng = Rng::from_seed(7);
    let before = rng;
    let c = scene.ray_color(
        Ray::new(vec(0, 0, 0), vec(0, 0, -65536)),
        Fx::zero(),
        Fx::from_int(1000),
        0,
        &mut rng,
    );
    assert_eq!(c, Vec3::zero());
    // the truncated path draws nothing
    assert_eq!(rng, before);
}

#[test]
fn ray_color_miss_samples_background() {
    let scene = test_scene();
    let mut rng = Rng::from_seed(7);
    // straight up: far above every object
    let c = scene.ray_color(
        Ray::new(vec(0, 655360, 0), vec(0, 65536, 0)),
        Fx::zero(),
        Fx::from_int(1000),
        3,
        &mut rng,
    );
    // the sky at the upward pole is the full blue
    assert_eq!(c, vec(32768, 45875, 65536));
}

#[test]
fn tiled_render_matches_single_render() {
    let scene = test_scene();
    let opts = options(((1, 6), (0, 5)));
    let single = scene.render(opts);
    let tiled = scene.threaded_render(opts);
    assert_eq!(single.width(), tiled.width());
    assert_eq!(single.height(), tiled.height());
    for y in 0..single.height() {
        for x in 0..single.width() {
            assert_eq!(single.get_pixel(x, y), tiled.get_pixel(x, y));
        }
    }
}

#[test]
fn single_sample_no_jitter_equals_ray_color() {
    let scene = test_scene();
    let mut opts = options(((2, 3), (3, 4)));
    opts.samples = 1;
    opts.jitter = false;
    let img = scene.render(opts);

    let mut rng = Rng::from_seed(pixel_seed(opts.seed, 2, 3));
    let frac_x = Fx::from_usize(2).div(Fx::from_usize(opts.width));
    let frac_y = Fx::from_usize(3).div(Fx::from_usize(opts.height));
    let ray = scene.camera.ray(frac_x, frac_y, &mut rng);
    let color = scene.ray_color(ray, opts.clip_start, opts.clip_end, opts.bounces, &mut rng);

    assert_eq!(img.get_pixel(0, 0), Pixel::from_color(color));
}

#[test]
fn render_is_deterministic_for_a_seed() {
    let scene = test_scene();
    let opts = options(((0, 3), (0, 3)));
    let a = scene.render(opts);
    let b = scene.render(opts);
    for y in 0..3 {
        for x in 0..3 {
            assert_eq!(a.get_pixel(x, y), b.get_pixel(x, y));
        }
    }
}

#[test]
fn seeded_rng_is_reproducible() {
    let mut a = Rng::from_seed(42);
    let mut b = Rng::from_seed(42);
    for _ in 0..8 {
        let x = random(&mut a, Fx::from_bits(-65536), Fx::one());
        let y = random(&mut b, Fx::from_bits(-65536), Fx::one());
        assert_eq!(x, y);
        assert!(x.bits >= -65536 && x.bits < 65536);
    }
}

#[test]
fn entropy_rng_draws_in_range() {
    let mut rng = Rng::from_entropy();
    for _ in 0..8 {
        let x = random(&mut rng, Fx::zero(), Fx::one());
        assert!(x.bits >= 0 && x.bits < 65536);
    }
}

#[test]
fn random_in_unit_sphere_stays_inside() {
    let mut rng = Rng::from_seed(9);
    for _ in 0..16 {
        let v = Vec3::random_in_unit_sphere(&mut rng);
        assert!(v.len().bits < 65536);
    }
    for _ in 0..16 {
        let d = Vec3::random_in_unit_disk(&mut rng);
        assert!(d.len().bits < 65536);
        assert_eq!(d.z, Fx::zero());
    }
}

#[test]
fn pinhole_camera_center_ray() {
    let camera = Camera::fixed_distance(
        vec(0, 0, 0),
        Fx::from_int(2),
        Fx::from_int(2),
        Fx::one(),
    );
    let mut rng = Rng::from_seed(1);
    let ray = camera.ray(Fx::from_bits(32768), Fx::from_bits(32768), &mut rng);
    // with a zero lens radius the origin is exact and the center ray looks
    // straight down the axis
    assert_eq!(ray.origin, vec(0, 0, 0));
    assert_eq!(ray.direction, vec(0, 0, -65536));
}

#[test]
fn thin_lens_camera_center_ray_points_forward() {
    let camera = Camera::new(
        vec(0, 0, 0),
        vec(0, 0, -65536),
        vec(0, 65536, 0),
        Fx::from_int(90),
        Fx::one(),
        Fx::zero(),
        Fx::one(),
    );
    let mut rng = Rng::from_seed(1);
    let ray = camera.ray(Fx::from_bits(32768), Fx::from_bits(32768), &mut rng);
    assert_eq!(ray.origin, vec(0, 0, 0));
    // the center of the screen sits straight ahead on the focus plane
    assert!(ray.direction.z.bits < 0);
    assert!(ray.direction.x.bits.abs() <= 1);
    assert!(ray.direction.y.bits.abs() <= 1);
}
