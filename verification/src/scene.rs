//! Scenes: the nearest-hit query, the radiance integrator, and the tiled
//! renderer.

use vstd::prelude::*;

use crate::camera::{spec_camera_ray, Camera};
use crate::fx::{spec_add, spec_div, usize_fx, Fx};
use crate::image::{lemma_row_major_index_in_range, lemma_row_major_injective, pixel_at,
    spec_from_color, Image, Pixel};
use crate::material::{spec_emit, spec_scatter};
use crate::object::{HitRecord, Hittable};
use crate::ray::Ray;
use crate::rng::{pixel_seed, random, spec_pixel_seed, Rng};
use crate::texture::{spec_texture_color, spec_uv_coords, uv_coords, Texture};
use crate::vec3::{spec_draw, spec_vadd, spec_vdiv, spec_vmul_elem, spec_vzero, Color, Vec3};

verus! {

/// Rendering configuration: image dimensions, the crop rectangle to render
/// (as `((x0, x1), (y0, y1))` in absolute pixel coordinates), samples per
/// pixel, the bounce cap, the ray-parameter clip range, the tile edge for
/// the tiled path, the base seed of the deterministic sampler, and whether
/// sample positions are jittered within the pixel.
#[derive(Debug, Clone, Copy)]
pub struct RenderOptions {
    pub width: usize,
    pub height: usize,
    pub crop_region: ((usize, usize), (usize, usize)),
    pub samples: usize,
    pub bounces: usize,
    pub clip_start: Fx,
    pub clip_end: Fx,
    pub block_size: usize,
    pub seed: u64,
    pub jitter: bool,
}

/// A scene: the camera, the background texture, and the objects, built
/// once and read-only while rendering.
#[derive(Debug)]
pub struct Scene {
    pub camera: Camera,
    pub texture: Texture,
    pub objects: Vec<Hittable>,
}

/// The nearest-hit scan over the first `k` objects: the record of the hit
/// with parameter strictly above `t_min` and strictly below the best so
/// far (starting from `t_max`), and that best parameter.
pub open spec fn spec_scene_scan(
    objects: Seq<Hittable>,
    ray: Ray,
    t_min: Fx,
    t_max: Fx,
    k: int,
) -> (Option<HitRecord>, Fx)
    decreases k,
{
    if k <= 0 {
        (None, t_max)
    } else {
        let (acc, bt) = spec_scene_scan(objects, ray, t_min, t_max, k - 1);
        match objects[k - 1].spec_hit(ray, t_min, t_max) {
            Some(rec) => {
                if rec.t.bits < bt.bits && rec.t.bits > t_min.bits {
                    (Some(rec), rec.t)
                } else {
                    (acc, bt)
                }
            },
            None => (acc, bt),
        }
    }
}

/// The color a ray gathers from generator state `s` with at most `bounces`
/// path segments, and the state the draws leave behind: black at the
/// truncation depth; on a hit, the scattered ray's color attenuated
/// component-wise, or the bare emission where the path terminates; on a
/// miss, the background texture sampled by direction alone (the point
/// argument is the far sentinel).
#[verifier::opaque]
pub open spec fn spec_ray_color(
    scene: Scene,
    ray: Ray,
    t_min: Fx,
    t_max: Fx,
    bounces: nat,
    s: u64,
) -> (Color, u64)
    decreases bounces,
{
    if bounces == 0 {
        (spec_vzero(), s)
    } else {
        match spec_scene_scan(scene.objects@, ray, t_min, t_max, scene.objects@.len() as int).0 {
            Some(rec) => {
                let (sc, s2) = spec_scatter(rec.material, ray, rec, s);
                match sc {
                    Some((scattered, c1)) => {
                        let (c2, s3) = spec_ray_color(
                            scene,
                            scattered,
                            t_min,
                            t_max,
                            (bounces - 1) as nat,
                            s2,
                        );
                        (spec_vmul_elem(c1, c2), s3)
                    },
                    None => (spec_emit(rec.material, rec.uv.0, rec.uv.1, rec.point), s2),
                }
            },
            None => {
                let uv = spec_uv_coords(ray.direction);
                let far = Vec3 {
                    x: Fx { bits: i64::MAX },
                    y: Fx { bits: i64::MAX },
                    z: Fx { bits: i64::MAX },
                };
                (spec_texture_color(scene.texture, uv.0, uv.1, far), s)
            },
        }
    }
}

/// The color sum of the first `n` samples of the pixel at absolute
/// coordinates `(x, y)`, from generator state `s`, and the state left
/// behind.  Each sample jitters the pixel by a uniform offset in `[0, 1)`
/// (zero when jitter is off), normalizes against the full image
/// dimensions, shoots the camera ray and gathers its color.
pub open spec fn spec_sample_sum(
    scene: Scene,
    o: RenderOptions,
    x: usize,
    y: usize,
    n: nat,
    s: u64,
) -> (Color, u64)
    decreases n,
{
    if n == 0 {
        (spec_vzero(), s)
    } else {
        let (acc, s1) = spec_sample_sum(scene, o, x, y, (n - 1) as nat, s);
        let (jx, s2) = if o.jitter {
            spec_draw(s1, Fx { bits: 0 }, Fx { bits: 65536 })
        } else {
            (Fx { bits: 0 }, s1)
        };
        let (jy, s3) = if o.jitter {
            spec_draw(s2, Fx { bits: 0 }, Fx { bits: 65536 })
        } else {
            (Fx { bits: 0 }, s2)
        };
        let frac_x = spec_div(spec_add(usize_fx(x), jx), usize_fx(o.width));
        let frac_y = spec_div(spec_add(usize_fx(y), jy), usize_fx(o.height));
        let (ray, s4) = spec_camera_ray(scene.camera, frac_x, frac_y, s3);
        let (c, s5) = spec_ray_color(scene, ray, o.clip_start, o.clip_end, o.bounces as nat, s4);
        (spec_vadd(acc, c), s5)
    }
}

/// The linear color of the pixel at absolute coordinates `(x, y)`: the
/// average of its samples, drawn from the pixel's own seeded generator.
/// It does not depend on the crop rectangle or the tile edge.
#[verifier::opaque]
pub open spec fn spec_pixel_color(scene: Scene, o: RenderOptions, x: usize, y: usize) -> Color {
    let s0 = spec_pixel_seed(o.seed, x, y);
    let (sum, _s) = spec_sample_sum(scene, o, x, y, o.samples as nat, s0);
    spec_vdiv(sum, usize_fx(o.samples))
}

/// The tone-mapped pixel at absolute coordinates `(x, y)`.
#[verifier::opaque]
pub open spec fn spec_pixel(scene: Scene, o: RenderOptions, x: usize, y: usize) -> Pixel {
    spec_from_color(spec_pixel_color(scene, o, x, y))
}

/// Two option sets that agree on everything a pixel's value reads (all
/// fields but the crop rectangle and the tile edge).
pub open spec fn same_sampling(o1: RenderOptions, o2: RenderOptions) -> bool {
    &&& o1.width == o2.width
    &&& o1.height == o2.height
    &&& o1.samples == o2.samples
    &&& o1.bounces == o2.bounces
    &&& o1.clip_start == o2.clip_start
    &&& o1.clip_end == o2.clip_end
    &&& o1.seed == o2.seed
    &&& o1.jitter == o2.jitter
}

proof fn lemma_sample_sum_crop_free(
    scene: Scene,
    o1: RenderOptions,
    o2: RenderOptions,
    x: usize,
    y: usize,
    n: nat,
    s: u64,
)
    requires
        same_sampling(o1, o2),
    ensures
        spec_sample_sum(scene, o1, x, y, n, s) == spec_sample_sum(scene, o2, x, y, n, s),
    decreases n,
{
    if n > 0 {
        lemma_sample_sum_crop_free(scene, o1, o2, x, y, (n - 1) as nat, s);
    }
}

/// The tile-independence law: a pixel's value depends only on the scene,
/// the sampling options and its own absolute coordinates — never on the
/// crop rectangle or the tile edge.  This is why the tiled parallel path
/// reproduces the single path pixel for pixel.
pub proof fn lemma_pixel_crop_free(
    scene: Scene,
    o1: RenderOptions,
    o2: RenderOptions,
    x: usize,
    y: usize,
)
    requires
        same_sampling(o1, o2),
    ensures
        spec_pixel(scene, o1, x, y) == spec_pixel(scene, o2, x, y),
{
    reveal(spec_pixel);
    reveal(spec_pixel_color);
    lemma_sample_sum_crop_free(
        scene,
        o1,
        o2,
        x,
        y,
        o1.samples as nat,
        spec_pixel_seed(o1.seed, x, y),
    );
}

proof fn lemma_scene_scan_t_in_range(
    objects: Seq<Hittable>,
    ray: Ray,
    t_min: Fx,
    t_max: Fx,
    k: int,
)
    ensures
        ({
            let (acc, bt) = spec_scene_scan(objects, ray, t_min, t_max, k);
            bt.bits <= t_max.bits && (acc is Some ==> t_min.bits < (acc->0).t.bits
                && (acc->0).t.bits <= bt.bits)
        }),
    decreases k,
{
    if k > 0 {
        lemma_scene_scan_t_in_range(objects, ray, t_min, t_max, k - 1);
    }
}

/// The clip-range invariant: when the scene reports a hit, its parameter
/// lies within the caller-supplied `[t_min, t_max]`.
pub proof fn lemma_hit_t_in_range(scene: Scene, ray: Ray, t_min: Fx, t_max: Fx)
    ensures
        scene.spec_hit(ray, t_min, t_max) is Some ==> t_min.bits <= (scene.spec_hit(
            ray,
            t_min,
            t_max,
        )->0).t.bits <= t_max.bits,
{
    lemma_scene_scan_t_in_range(
        scene.objects@,
        ray,
        t_min,
        t_max,
        scene.objects@.len() as int,
    );
}

/// The truncation law: with no bounces left the integrator yields exactly
/// black, for any ray and any scene, and draws nothing.
pub proof fn lemma_ray_color_depth_zero(scene: Scene, ray: Ray, t_min: Fx, t_max: Fx, s: u64)
    ensures
        spec_ray_color(scene, ray, t_min, t_max, 0, s) == (spec_vzero(), s),
{
    reveal(spec_ray_color);
}

impl Scene {
    /// The objects' construction invariants all hold; constructors of the
    /// objects establish them.
    pub open spec fn wf(&self) -> bool {
        forall|i: int|
            0 <= i < self.objects@.len() ==> (#[trigger] self.objects@[i]).wf()
    }

    /// The nearest hit among all objects within `[t_min, t_max]`.
    pub open spec fn spec_hit(&self, ray: Ray, t_min: Fx, t_max: Fx) -> Option<HitRecord> {
        spec_scene_scan(self.objects@, ray, t_min, t_max, self.objects@.len() as int).0
    }

    pub fn new(camera: Camera, texture: Texture, objects: Vec<Hittable>) -> (s: Scene)
        ensures
            s == (Scene { camera, texture, objects }),
    {
        Scene { camera, texture, objects }
    }

    /// The nearest hit among all objects: a linear scan tracking the
    /// globally smallest parameter in range.
    pub fn hit(&self, ray: Ray, t_min: Fx, t_max: Fx) -> (r: Option<HitRecord>)
        requires
            self.wf(),
        ensures
            r == self.spec_hit(ray, t_min, t_max),
    {
        let mut hit_record: Option<HitRecord> = None;
        let mut hit_t = t_max;
        let n: usize = self.objects.len();
        let mut i: usize = 0;
        while i < n
            invariant
                i <= n,
                n == self.objects@.len(),
                self.wf(),
                (hit_record, hit_t) == spec_scene_scan(self.objects@, ray, t_min, t_max, i as int),
            decreases n - i,
        {
            let object = &self.objects[i];
            match object.hit(ray, t_min, t_max) {
                Some(record) => {
                    if record.t.bits < hit_t.bits && record.t.bits > t_min.bits {
                        hit_t = record.t;
                        hit_record = Some(record);
                    }
                },
                None => (),
            }
            i = i + 1;
        }
        hit_record
    }

    /// The recursive radiance estimator; `bounces` caps the path length,
    /// and zero bounces yields exactly black.
    pub fn ray_color(&self, ray: Ray, t_min: Fx, t_max: Fx, bounces: usize, rng: &mut Rng) -> (c:
        Color)
        requires
            self.wf(),
        ensures
            (c, final(rng).state) == spec_ray_color(
                *self,
                ray,
                t_min,
                t_max,
                bounces as nat,
                old(rng).state,
            ),
        decreases bounces,
    {
        proof {
            reveal(spec_ray_color);
        }
        if bounces == 0 {
            return Vec3::zero();
        }
        match self.hit(ray, t_min, t_max) {
            Some(record) => {
                match record.material.scatter(ray, record, rng) {
                    Some((scattered, color1)) => {
                        let color2 = self.ray_color(scattered, t_min, t_max, bounces - 1, rng);
                        color1.mul_elem(color2)
                    },
                    None => record.material.emit(record.uv.0, record.uv.1, record.point),
                }
            },
            None => {
                let uv = uv_coords(ray.direction);
                let far = Vec3 {
                    x: Fx { bits: i64::MAX },
                    y: Fx { bits: i64::MAX },
                    z: Fx { bits: i64::MAX },
                };
                self.texture.color(uv.0, uv.1, far)
            },
        }
    }

    /// Render the crop rectangle of `options`: the returned image has the
    /// crop's dimensions and holds, at each position, exactly the pixel
    /// the functional model assigns to those absolute coordinates.
    pub fn render(&self, options: RenderOptions) -> (img: Image)
        requires
            self.wf(),
            options.crop_region.0.0 <= options.crop_region.0.1,
            options.crop_region.1.0 <= options.crop_region.1.1,
            (options.crop_region.0.1 - options.crop_region.0.0) * (options.crop_region.1.1
                - options.crop_region.1.0) <= usize::MAX,
        ensures
            img.wf(),
            img.spec_width() == options.crop_region.0.1 - options.crop_region.0.0,
            img.spec_height() == options.crop_region.1.1 - options.crop_region.1.0,
            forall|xi: usize, yi: usize|
                options.crop_region.0.0 <= xi < options.crop_region.0.1
                    && options.crop_region.1.0 <= yi < options.crop_region.1.1 ==> pixel_at(
                    img@,
                    img.spec_width() as int,
                    xi - options.crop_region.0.0,
                    yi - options.crop_region.1.0,
                ) == #[trigger] spec_pixel(*self, options, xi, yi),
    {
        let x_start: usize = options.crop_region.0.0;
        let x_end: usize = options.crop_region.0.1;
        let y_start: usize = options.crop_region.1.0;
        let y_end: usize = options.crop_region.1.1;
        let w: usize = x_end - x_start;
        let h: usize = y_end - y_start;

        let mut image = Image::new(w, h);

        let mut y = y_start;
        while y < y_end
            invariant
                y_start <= y <= y_end,
                w == x_end - x_start,
                h == y_end - y_start,
                x_start == options.crop_region.0.0,
                x_end == options.crop_region.0.1,
                y_start == options.crop_region.1.0,
                y_end == options.crop_region.1.1,
                self.wf(),
                image.wf(),
                image.spec_width() == w,
                image.spec_height() == h,
                image@.len() == w * h,
                forall|xi: usize, yi: usize|
                    x_start <= xi < x_end && y_start <= yi < y ==> pixel_at(
                        image@,
                        w as int,
                        xi - x_start,
                        yi - y_start,
                    ) == #[trigger] spec_pixel(*self, options, xi, yi),
            decreases y_end - y,
        {
            let mut x = x_start;
            while x < x_end
                invariant
                    x_start <= x <= x_end,
                    y_start <= y < y_end,
                    w == x_end - x_start,
                    h == y_end - y_start,
                    x_start == options.crop_region.0.0,
                    x_end == options.crop_region.0.1,
                    y_start == options.crop_region.1.0,
                    y_end == options.crop_region.1.1,
                    self.wf(),
                    image.wf(),
                    image.spec_width() == w,
                    image.spec_height() == h,
                    image@.len() == w * h,
                    forall|xi: usize, yi: usize|
                        (x_start <= xi < x_end && y_start <= yi < y) || (yi == y && x_start <= xi
                            < x) ==> pixel_at(image@, w as int, xi - x_start, yi - y_start)
                            == #[trigger] spec_pixel(*self, options, xi, yi),
                decreases x_end - x,
            {
                let px = self.render_pixel(options, x, y);
                let ghost prev = image@;
                image.set_pixel(x - x_start, y - y_start, px);
                proof {
                    assert forall|xi: usize, yi: usize|
                        (x_start <= xi < x_end && y_start <= yi < y) || (yi == y && x_start <= xi
                            < x + 1) implies pixel_at(image@, w as int, xi - x_start, yi - y_start)
                        == #[trigger] spec_pixel(*self, options, xi, yi) by {
                        lemma_row_major_index_in_range(
                            xi - x_start,
                            yi - y_start,
                            w as int,
                            h as int,
                        );
                        lemma_row_major_index_in_range(x - x_start, y - y_start, w as int, h as int);
                        if xi == x && yi == y {
                        } else {
                            lemma_row_major_injective(
                                xi - x_start,
                                yi - y_start,
                                x - x_start,
                                y - y_start,
                                w as int,
                            );
                            assert(pixel_at(prev, w as int, xi - x_start, yi - y_start)
                                == spec_pixel(*self, options, xi, yi));
                        }
                    }
                }
                x = x + 1;
            }
            y = y + 1;
        }
        image
    }

    /// Accumulate and average the samples of one pixel at absolute
    /// coordinates `(x, y)`.
    fn render_pixel(&self, options: RenderOptions, x: usize, y: usize) -> (px: Pixel)
        requires
            self.wf(),
        ensures
            px == spec_pixel(*self, options, x, y),
    {
        let mut rng = Rng::from_seed(pixel_seed(options.seed, x, y));
        let mut color_sum = Vec3::zero();
        let mut k: usize = 0;
        while k < options.samples
            invariant
                k <= options.samples,
                self.wf(),
                (color_sum, rng.state) == spec_sample_sum(
                    *self,
                    options,
                    x,
                    y,
                    k as nat,
                    spec_pixel_seed(options.seed, x, y),
                ),
            decreases options.samples - k,
        {
            let ghost s_in = rng.state;
            let jx = if options.jitter {
                random(&mut rng, Fx { bits: 0 }, Fx { bits: 65536 })
            } else {
                Fx { bits: 0 }
            };
            let jy = if options.jitter {
                random(&mut rng, Fx { bits: 0 }, Fx { bits: 65536 })
            } else {
                Fx { bits: 0 }
            };
            let frac_x = Fx::from_usize(x).add(jx).div(Fx::from_usize(options.width));
            let frac_y = Fx::from_usize(y).add(jy).div(Fx::from_usize(options.height));
            let ray = self.camera.ray(frac_x, frac_y, &mut rng);
            let color = self.ray_color(ray, options.clip_start, options.clip_end, options.bounces,
                &mut rng);
            color_sum = color_sum.add(color);
            proof {
                assert((color_sum, rng.state) == spec_sample_sum(
                    *self,
                    options,
                    x,
                    y,
                    (k + 1) as nat,
                    spec_pixel_seed(options.seed, x, y),
                ));
            }
            k = k + 1;
        }
        let avg = color_sum.div(Fx::from_usize(options.samples));
        proof {
            reveal(spec_pixel);
            reveal(spec_pixel_color);
        }
        Pixel::from_color(avg)
    }

    /// Render the crop rectangle tile by tile and composite the tiles:
    /// the result meets the same pixel-map contract as `render`, so the
    /// two paths agree pixel for pixel.  Each tile is an independent pure
    /// unit of work over the shared read-only scene; a host may run the
    /// tiles on parallel workers and composite with `Image::blit` to the
    /// identical image, in any completion order.
    pub fn threaded_render(&self, options: RenderOptions) -> (img: Image)
        requires
            self.wf(),
            options.block_size >= 1,
            options.crop_region.0.0 <= options.crop_region.0.1,
            options.crop_region.1.0 <= options.crop_region.1.1,
            (options.crop_region.0.1 - options.crop_region.0.0) * (options.crop_region.1.1
                - options.crop_region.1.0) <= usize::MAX,
        ensures
            img.wf(),
            img.spec_width() == options.crop_region.0.1 - options.crop_region.0.0,
            img.spec_height() == options.crop_region.1.1 - options.crop_region.1.0,
            forall|xi: usize, yi: usize|
                options.crop_region.0.0 <= xi < options.crop_region.0.1
                    && options.crop_region.1.0 <= yi < options.crop_region.1.1 ==> pixel_at(
                    img@,
                    img.spec_width() as int,
                    xi - options.crop_region.0.0,
                    yi - options.crop_region.1.0,
                ) == #[trigger] spec_pixel(*self, options, xi, yi),
    {
        let x_start: usize = options.crop_region.0.0;
        let x_end: usize = options.crop_region.0.1;
        let y_start: usize = options.crop_region.1.0;
        let y_end: usize = options.crop_region.1.1;
        let w: usize = x_end - x_start;
        let h: usize = y_end - y_start;

        let mut final_img = Image::new(w, h);

        let mut tx = x_start;
        while tx < x_end
            invariant
                x_start <= tx <= x_end,
                w == x_end - x_start,
                h == y_end - y_start,
                x_start == options.crop_region.0.0,
                x_end == options.crop_region.0.1,
                y_start == options.crop_region.1.0,
                y_end == options.crop_region.1.1,
                options.block_size >= 1,
                (x_end - x_start) * (y_end - y_start) <= usize::MAX,
                self.wf(),
                final_img.wf(),
                final_img.spec_width() == w,
                final_img.spec_height() == h,
                forall|xi: usize, yi: usize|
                    x_start <= xi < tx && y_start <= yi < y_end ==> pixel_at(
                        final_img@,
                        w as int,
                        xi - x_start,
                        yi - y_start,
                    ) == #[trigger] spec_pixel(*self, options, xi, yi),
            decreases x_end - tx,
        {
            let tile_x_end = if x_end - tx > options.block_size {
                tx + options.block_size
            } else {
                x_end
            };
            let mut ty = y_start;
            while ty < y_end
                invariant
                    y_start <= ty <= y_end,
                    x_start <= tx < tile_x_end <= x_end,
                    w == x_end - x_start,
                    h == y_end - y_start,
                    x_start == options.crop_region.0.0,
                    x_end == options.crop_region.0.1,
                    y_start == options.crop_region.1.0,
                    y_end == options.crop_region.1.1,
                    options.block_size >= 1,
                    (x_end - x_start) * (y_end - y_start) <= usize::MAX,
                    self.wf(),
                    final_img.wf(),
                    final_img.spec_width() == w,
                    final_img.spec_height() == h,
                    forall|xi: usize, yi: usize|
                        (x_start <= xi < tx && y_start <= yi < y_end) || (tx <= xi < tile_x_end
                            && y_start <= yi < ty) ==> pixel_at(
                            final_img@,
                            w as int,
                            xi - x_start,
                            yi - y_start,
                        ) == #[trigger] spec_pixel(*self, options, xi, yi),
                decreases y_end - ty,
            {
                let tile_y_end = if y_end - ty > options.block_size {
                    ty + options.block_size
                } else {
                    y_end
                };
                let tile_opts = RenderOptions {
                    width: options.width,
                    height: options.height,
                    crop_region: ((tx, tile_x_end), (ty, tile_y_end)),
                    samples: options.samples,
                    bounces: options.bounces,
                    clip_start: options.clip_start,
                    clip_end: options.clip_end,
                    block_size: options.block_size,
                    seed: options.seed,
                    jitter: options.jitter,
                };
                proof {
                    lemma_sub_rect_fits(
                        tile_x_end - tx,
                        tile_y_end - ty,
                        x_end - x_start,
                        y_end - y_start,
                    );
                }
                let tile = self.render(tile_opts);
                let ghost before = final_img@;
                final_img.blit(&tile, tx - x_start, ty - y_start);
                proof {
                    assert forall|xi: usize, yi: usize|
                        (x_start <= xi < tx && y_start <= yi < y_end) || (tx <= xi < tile_x_end
                            && y_start <= yi < tile_y_end) implies pixel_at(
                        final_img@,
                        w as int,
                        xi - x_start,
                        yi - y_start,
                    ) == #[trigger] spec_pixel(*self, options, xi, yi) by {
                        if tx <= xi < tile_x_end && ty <= yi < tile_y_end {
                            assert(pixel_at(
                                tile@,
                                tile.spec_width() as int,
                                xi - tx,
                                yi - ty,
                            ) == spec_pixel(*self, tile_opts, xi, yi));
                            lemma_pixel_crop_free(*self, tile_opts, options, xi, yi);
                        } else {
                            assert(pixel_at(before, w as int, xi - x_start, yi - y_start)
                                == spec_pixel(*self, options, xi, yi));
                        }
                    }
                }
                ty = tile_y_end;
            }
            tx = tile_x_end;
        }
        final_img
    }
}

/// A rectangle no larger than a fitting rectangle fits as well.
proof fn lemma_sub_rect_fits(a: int, b: int, c: int, d: int)
    by (nonlinear_arith)
    requires
        0 <= a <= c,
        0 <= b <= d,
        c * d <= usize::MAX,
    ensures
        a * b <= usize::MAX,
{
}

/// The single-sample law: with jitter off and exactly one sample, the
/// averaged pixel color is exactly the one ray's color — the camera ray
/// through the unjittered pixel fractions, traced with the pixel's own
/// seeded generator.
#[verifier::rlimit(100)]
pub proof fn lemma_single_sample_no_jitter(
    scene: Scene,
    o: RenderOptions,
    x: usize,
    y: usize,
)
    requires
        o.samples == 1,
        !o.jitter,
    ensures
        ({
            let s0 = spec_pixel_seed(o.seed, x, y);
            let frac_x = spec_div(usize_fx(x), usize_fx(o.width));
            let frac_y = spec_div(usize_fx(y), usize_fx(o.height));
            let (ray, s1) = spec_camera_ray(scene.camera, frac_x, frac_y, s0);
            spec_pixel_color(scene, o, x, y) == spec_ray_color(
                scene,
                ray,
                o.clip_start,
                o.clip_end,
                o.bounces as nat,
                s1,
            ).0
        }),
{
    reveal(spec_pixel_color);
    let s0 = spec_pixel_seed(o.seed, x, y);
    let frac_x = spec_div(usize_fx(x), usize_fx(o.width));
    let frac_y = spec_div(usize_fx(y), usize_fx(o.height));
    assert(spec_add(usize_fx(x), Fx { bits: 0 }) == usize_fx(x));
    assert(spec_add(usize_fx(y), Fx { bits: 0 }) == usize_fx(y));
    let (ray, s1) = spec_camera_ray(scene.camera, frac_x, frac_y, s0);
    let (c, _s2) = spec_ray_color(scene, ray, o.clip_start, o.clip_end, o.bounces as nat, s1);
    assert(spec_sample_sum(scene, o, x, y, 0, s0) == (spec_vzero(), s0));
    assert(spec_sample_sum(scene, o, x, y, 1, s0).0 == spec_vadd(spec_vzero(), c));
    lemma_vadd_zero_left(c);
    lemma_vdiv_one(spec_sample_sum(scene, o, x, y, 1, s0).0);
}

/// Adding the zero color on the left changes nothing.
proof fn lemma_vadd_zero_left(c: Color)
    ensures
        spec_vadd(spec_vzero(), c) == c,
{
}

/// Dividing a color by the scalar one changes nothing.
proof fn lemma_vdiv_one(c: Color)
    ensures
        spec_vdiv(c, Fx { bits: 65536 }) == c,
{
    lemma_div_one(c.x);
    lemma_div_one(c.y);
    lemma_div_one(c.z);
}

/// Dividing a scalar by one changes nothing.
proof fn lemma_div_one(a: Fx)
    ensures
        spec_div(a, Fx { bits: 65536 }) == a,
{
    assert(crate::fx::rtz_div(a.bits * 65536, 65536) == a.bits) by {
        if a.bits >= 0 {
            assert((a.bits * 65536) / 65536 == a.bits);
        } else {
            assert(((-(a.bits as int)) * 65536) / 65536 == -(a.bits as int));
        }
    }
}

} // verus!
