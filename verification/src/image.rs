//! The output raster: 8-bit RGB pixels in a row-major buffer.

use vstd::prelude::*;

use crate::fx::{spec_sqrt, Fx};
use crate::vec3::Color;

verus! {

/// One 8-bit RGB pixel.
#[derive(Debug, Clone, Copy, PartialEq, Eq, Structural)]
pub struct Pixel {
    pub r: u8,
    pub g: u8,
    pub b: u8,
}

/// The byte a linear channel maps to: `floor(sqrt(c) * 255.999)`, the
/// gamma-2.0 approximation, clamped into the byte range (negative input,
/// which a float pipeline would turn into an undefined byte, maps to 0).
pub open spec fn spec_channel_byte(c: Fx) -> u8 {
    if c.bits < 0 {
        0u8
    } else {
        let s = spec_sqrt(c).bits;
        let scaled = s * 255999 / 65536000;
        if scaled > 255 {
            255u8
        } else {
            scaled as u8
        }
    }
}

/// The tone-mapped pixel of a linear color.
pub open spec fn spec_from_color(c: Color) -> Pixel {
    Pixel { r: spec_channel_byte(c.x), g: spec_channel_byte(c.y), b: spec_channel_byte(c.z) }
}

fn channel_byte(c: Fx) -> (r: u8)
    ensures
        r == spec_channel_byte(c),
{
    if c.bits < 0 {
        0
    } else {
        let s = c.sqrt();
        let sb: u64 = s.bits as u64;
        let scaled: u64 = (sb * 255999) / 65536000;
        if scaled > 255 {
            255
        } else {
            scaled as u8
        }
    }
}

impl Pixel {
    /// Tone-map a linear color into one byte per channel.
    pub fn from_color(color: Color) -> (p: Pixel)
        ensures
            p == spec_from_color(color),
    {
        Pixel { r: channel_byte(color.x), g: channel_byte(color.y), b: channel_byte(color.z) }
    }
}

/// A rectangular pixel buffer, row-major, indexed from the top-left corner.
#[derive(Debug)]
pub struct Image {
    width: usize,
    height: usize,
    data: Vec<Pixel>,
}

impl View for Image {
    type V = Seq<Pixel>;

    /// The pixels in row-major order; the pixel at `(x, y)` sits at index
    /// `y * width + x`.
    closed spec fn view(&self) -> Seq<Pixel> {
        self.data@
    }
}

impl Image {
    /// The buffer's length matches its dimensions.
    pub closed spec fn wf(&self) -> bool {
        self.data@.len() == (self.width as int) * (self.height as int)
    }

    pub closed spec fn spec_width(&self) -> usize {
        self.width
    }

    pub closed spec fn spec_height(&self) -> usize {
        self.height
    }

    /// A black image of the given dimensions.
    pub fn new(width: usize, height: usize) -> (img: Image)
        requires
            width * height <= usize::MAX,
        ensures
            img.wf(),
            img.spec_width() == width,
            img.spec_height() == height,
            img@.len() == width * height,
            forall|i: int|
                0 <= i < img@.len() ==> img@[i] == (Pixel { r: 0u8, g: 0u8, b: 0u8 }),
    {
        let total: usize = width * height;
        let mut data: Vec<Pixel> = Vec::new();
        let mut i: usize = 0;
        while i < total
            invariant
                i <= total,
                data@.len() == i,
                forall|j: int|
                    0 <= j < i ==> data@[j] == (Pixel { r: 0u8, g: 0u8, b: 0u8 }),
            decreases total - i,
        {
            data.push(Pixel { r: 0, g: 0, b: 0 });
            i = i + 1;
        }
        Image { width, height, data }
    }

    pub fn width(&self) -> (w: usize)
        ensures
            w == self.spec_width(),
    {
        self.width
    }

    pub fn height(&self) -> (h: usize)
        ensures
            h == self.spec_height(),
    {
        self.height
    }

    /// The pixel at `(x, y)`.
    pub fn get_pixel(&self, x: usize, y: usize) -> (p: Pixel)
        requires
            self.wf(),
            x < self.spec_width(),
            y < self.spec_height(),
        ensures
            p == self@[y * self.spec_width() + x],
    {
        let n: usize = self.data.len();
        proof {
            lemma_row_major_index_in_range(
                x as int,
                y as int,
                self.width as int,
                self.height as int,
            );
            assert((y as int) * (self.width as int) + (x as int) < n as int);
        }
        self.data[y * self.width + x]
    }

    /// Overwrite the pixel at `(x, y)`, leaving every other pixel as it was.
    pub fn set_pixel(&mut self, x: usize, y: usize, pixel: Pixel)
        requires
            old(self).wf(),
            x < old(self).spec_width(),
            y < old(self).spec_height(),
        ensures
            final(self).wf(),
            final(self).spec_width() == old(self).spec_width(),
            final(self).spec_height() == old(self).spec_height(),
            final(self)@.len() == old(self)@.len(),
            final(self)@ == old(self)@.update(
                y * old(self).spec_width() + x,
                pixel,
            ),
    {
        let n: usize = self.data.len();
        proof {
            lemma_row_major_index_in_range(
                x as int,
                y as int,
                self.width as int,
                self.height as int,
            );
            assert((y as int) * (self.width as int) + (x as int) < n as int);
        }
        let idx: usize = y * self.width + x;
        self.data.set(idx, pixel);
    }
}

/// The pixel of a row-major buffer of width `w` at coordinates `(x, y)`.
pub open spec fn pixel_at(s: Seq<Pixel>, w: int, x: int, y: int) -> Pixel {
    s[y * w + x]
}

impl Image {
    /// Copy a tile into this image with its top-left corner at
    /// `(x_off, y_off)`; every pixel outside the tile's rectangle keeps its
    /// value.
    pub fn blit(&mut self, tile: &Image, x_off: usize, y_off: usize)
        requires
            old(self).wf(),
            tile.wf(),
            x_off + tile.spec_width() <= old(self).spec_width(),
            y_off + tile.spec_height() <= old(self).spec_height(),
        ensures
            final(self).wf(),
            final(self).spec_width() == old(self).spec_width(),
            final(self).spec_height() == old(self).spec_height(),
            forall|xi: int, yi: int|
                x_off <= xi < x_off + tile.spec_width() && y_off <= yi < y_off
                    + tile.spec_height() ==> #[trigger] pixel_at(
                    final(self)@,
                    old(self).spec_width() as int,
                    xi,
                    yi,
                ) == pixel_at(tile@, tile.spec_width() as int, xi - x_off, yi - y_off),
            forall|xi: int, yi: int|
                0 <= xi < old(self).spec_width() && 0 <= yi < old(self).spec_height() && !(x_off
                    <= xi < x_off + tile.spec_width() && y_off <= yi < y_off
                    + tile.spec_height()) ==> #[trigger] pixel_at(
                    final(self)@,
                    old(self).spec_width() as int,
                    xi,
                    yi,
                ) == pixel_at(old(self)@, old(self).spec_width() as int, xi, yi),
    {
        let tw: usize = tile.width();
        let th: usize = tile.height();
        let mut dy: usize = 0;
        while dy < th
            invariant
                dy <= th,
                tw == tile.spec_width(),
                th == tile.spec_height(),
                tile.wf(),
                self.wf(),
                self.spec_width() == old(self).spec_width(),
                self.spec_height() == old(self).spec_height(),
                x_off + tw <= self.spec_width(),
                y_off + th <= self.spec_height(),
                forall|xi: int, yi: int|
                    x_off <= xi < x_off + tw && y_off <= yi < y_off + dy ==> #[trigger] pixel_at(
                        self@,
                        self.spec_width() as int,
                        xi,
                        yi,
                    ) == pixel_at(tile@, tw as int, xi - x_off, yi - y_off),
                forall|xi: int, yi: int|
                    0 <= xi < self.spec_width() && 0 <= yi < self.spec_height() && !(x_off <= xi
                        < x_off + tw && y_off <= yi < y_off + dy) ==> #[trigger] pixel_at(
                        self@,
                        self.spec_width() as int,
                        xi,
                        yi,
                    ) == pixel_at(old(self)@, self.spec_width() as int, xi, yi),
            decreases th - dy,
        {
            let mut dx: usize = 0;
            while dx < tw
                invariant
                    dx <= tw,
                    dy < th,
                    tw == tile.spec_width(),
                    th == tile.spec_height(),
                    tile.wf(),
                    self.wf(),
                    self.spec_width() == old(self).spec_width(),
                    self.spec_height() == old(self).spec_height(),
                    x_off + tw <= self.spec_width(),
                    y_off + th <= self.spec_height(),
                    forall|xi: int, yi: int|
                        (x_off <= xi < x_off + tw && y_off <= yi < y_off + dy) || (yi == y_off
                            + dy && x_off <= xi < x_off + dx) ==> #[trigger] pixel_at(
                            self@,
                            self.spec_width() as int,
                            xi,
                            yi,
                        ) == pixel_at(tile@, tw as int, xi - x_off, yi - y_off),
                    forall|xi: int, yi: int|
                        0 <= xi < self.spec_width() && 0 <= yi < self.spec_height() && !(x_off
                            <= xi < x_off + tw && y_off <= yi < y_off + dy) && !(yi == y_off + dy
                            && x_off <= xi < x_off + dx) ==> #[trigger] pixel_at(
                            self@,
                            self.spec_width() as int,
                            xi,
                            yi,
                        ) == pixel_at(old(self)@, self.spec_width() as int, xi, yi),
                decreases tw - dx,
            {
                let ghost prev = self@;
                let p = tile.get_pixel(dx, dy);
                self.set_pixel(x_off + dx, y_off + dy, p);
                proof {
                    let w = self.spec_width() as int;
                    let h = self.spec_height() as int;
                    assert forall|xi: int, yi: int|
                        (x_off <= xi < x_off + tw && y_off <= yi < y_off + dy) || (yi == y_off
                            + dy && x_off <= xi < x_off + dx + 1) implies #[trigger] pixel_at(
                        self@,
                        w,
                        xi,
                        yi,
                    ) == pixel_at(tile@, tw as int, xi - x_off, yi - y_off) by {
                        lemma_row_major_index_in_range(xi, yi, w, h);
                        lemma_row_major_index_in_range(x_off + dx, y_off + dy, w, h);
                        assert(self@.len() == w * h);
                        assert(self@ == prev.update((y_off + dy) * w + (x_off + dx), p));
                        if xi == x_off + dx && yi == y_off + dy {
                            assert(pixel_at(self@, w, xi, yi) == p);
                        } else {
                            lemma_row_major_injective(xi, yi, x_off + dx, y_off + dy, w);
                            assert(prev.update((y_off + dy) * w + (x_off + dx), p)[yi * w + xi]
                                == prev[yi * w + xi]);
                            assert(pixel_at(self@, w, xi, yi) == pixel_at(prev, w, xi, yi));
                        }
                    }
                    assert forall|xi: int, yi: int|
                        0 <= xi < w && 0 <= yi < h && !(x_off <= xi < x_off + tw && y_off <= yi
                            < y_off + dy) && !(yi == y_off + dy && x_off <= xi < x_off + dx
                            + 1) implies #[trigger] pixel_at(self@, w, xi, yi) == pixel_at(
                        old(self)@,
                        w,
                        xi,
                        yi,
                    ) by {
                        lemma_row_major_index_in_range(xi, yi, w, h);
                        lemma_row_major_index_in_range(x_off + dx, y_off + dy, w, h);
                        assert(self@.len() == w * h);
                        assert(self@ == prev.update((y_off + dy) * w + (x_off + dx), p));
                        lemma_row_major_injective(xi, yi, x_off + dx, y_off + dy, w);
                        assert(prev.update((y_off + dy) * w + (x_off + dx), p)[yi * w + xi]
                            == prev[yi * w + xi]);
                        assert(pixel_at(self@, w, xi, yi) == pixel_at(prev, w, xi, yi));
                        assert(pixel_at(prev, w, xi, yi) == pixel_at(old(self)@, w, xi, yi));
                    }
                }
                dx = dx + 1;
            }
            dy = dy + 1;
        }
    }
}

/// Distinct pixel coordinates map to distinct row-major indices.
pub proof fn lemma_row_major_injective(x1: int, y1: int, x2: int, y2: int, w: int)
    by (nonlinear_arith)
    requires
        0 <= x1 < w,
        0 <= x2 < w,
        0 <= y1,
        0 <= y2,
        !(x1 == x2 && y1 == y2),
    ensures
        y1 * w + x1 != y2 * w + x2,
{
}

/// A row-major index stays inside the buffer.
pub proof fn lemma_row_major_index_in_range(x: int, y: int, w: int, h: int)
    by (nonlinear_arith)
    requires
        0 <= x < w,
        0 <= y < h,
    ensures
        0 <= y * w + x < w * h,
{
}

} // verus!
