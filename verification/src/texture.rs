//! Textures: pure color fields over surface coordinates and points.

use vstd::prelude::*;

use crate::fx::{spec_add, spec_div, spec_mul, spec_neg, spec_sub, Fx, PI_BITS};
use crate::vec3::{spec_unit, spec_vadd, spec_vscale, Color, Point, Vec3};

verus! {

/// A color clamped into `[0, 1]`.
pub open spec fn spec_clamp01(a: Fx) -> Fx {
    if a.bits < 0 {
        Fx { bits: 0 }
    } else if a.bits > 65536 {
        Fx { bits: 65536 }
    } else {
        a
    }
}

/// The checker cell a scaled coordinate falls into, counted from a far
/// negative origin so the index is never negative.  A cell is one period
/// of `sin` wide, so the parity of the index is the sign of the sine a
/// float pipeline would test.
pub open spec fn spec_cell_index(w: Fx) -> int {
    (w.bits + 205887 * 0x800000000000) / 205887
}

/// The normalized azimuth of the direction with abscissa `x` and ordinate
/// `y`: a piecewise-rational pseudo-angle that agrees with
/// `(atan2(y, x) + pi) / tau` at every quadrant boundary and is monotone and
/// continuous within each quadrant — the canonical convention this library
/// uses for both sphere and background mapping.
pub open spec fn spec_pseudo_angle(y: Fx, x: Fx) -> Fx {
    let quarter = Fx { bits: 16384 };
    if x.bits > 0 && y.bits >= 0 {
        spec_add(Fx { bits: 32768 }, spec_mul(spec_div(y, spec_add(x, y)), quarter))
    } else if x.bits <= 0 && y.bits > 0 {
        spec_add(Fx { bits: 49152 }, spec_mul(spec_div(spec_neg(x), spec_sub(y, x)), quarter))
    } else if x.bits < 0 && y.bits <= 0 {
        spec_mul(spec_div(spec_neg(y), spec_sub(spec_neg(x), y)), quarter)
    } else if x.bits >= 0 && y.bits < 0 {
        spec_add(Fx { bits: 16384 }, spec_mul(spec_div(x, spec_sub(x, y)), quarter))
    } else {
        Fx { bits: 32768 }
    }
}

/// The spherical surface coordinates of a point (or direction) relative to
/// the origin: azimuth from the pseudo-angle of `(-z, x)`, polar from the
/// linear `y * 0.5 + 0.5` convention, both clamped into `[0, 1]`.
pub open spec fn spec_uv_coords(p: Point) -> (Fx, Fx) {
    let unit = spec_unit(p);
    let u = spec_pseudo_angle(spec_neg(unit.z), unit.x);
    let v = spec_clamp01(spec_mul(spec_add(unit.y, Fx { bits: 65536 }), Fx { bits: 32768 }));
    (u, v)
}

/// A texture that is one color everywhere.
#[derive(Debug, Clone, Copy, PartialEq, Eq, Structural)]
pub struct Solid {
    pub color: Color,
}

/// A three-dimensional checker lattice: `color1` where the parities of the
/// three scaled coordinates' cells sum odd (where the product of their
/// sines is negative), else `color2`.
#[derive(Debug, Clone, Copy, PartialEq, Eq, Structural)]
pub struct Checkered {
    pub color1: Color,
    pub color2: Color,
    pub size: Fx,
}

/// The gradient from white to sky blue by the polar coordinate, used both
/// as an object texture and as the background of a scene.
#[derive(Debug, Clone, Copy, PartialEq, Eq, Structural)]
pub struct Sky;

/// A color field over `(u, v)` surface coordinates and a world point.
#[derive(Debug, Clone, Copy, PartialEq, Eq, Structural)]
pub enum Texture {
    Solid(Solid),
    Checkered(Checkered),
    Sky(Sky),
}

/// The checker lattice color at a point.
pub open spec fn spec_checkered_color(c: Checkered, p: Point) -> Color {
    let q = spec_cell_index(spec_mul(p.x, c.size)) + spec_cell_index(spec_mul(p.y, c.size))
        + spec_cell_index(spec_mul(p.z, c.size));
    if q % 2 == 1 {
        c.color1
    } else {
        c.color2
    }
}

/// The sky gradient at polar coordinate `v`: white at `v = 0` blending to
/// blue `(0.5, 0.7, 1)` at `v = 1`.
pub open spec fn spec_sky_color(v: Fx) -> Color {
    let white = Vec3 { x: Fx { bits: 65536 }, y: Fx { bits: 65536 }, z: Fx { bits: 65536 } };
    let blue = Vec3 { x: Fx { bits: 32768 }, y: Fx { bits: 45875 }, z: Fx { bits: 65536 } };
    spec_vadd(
        spec_vscale(white, spec_sub(Fx { bits: 65536 }, v)),
        spec_vscale(blue, v),
    )
}

/// The color a texture yields at `(u, v)` and point `p`.
pub open spec fn spec_texture_color(t: Texture, u: Fx, v: Fx, p: Point) -> Color {
    match t {
        Texture::Solid(s) => s.color,
        Texture::Checkered(c) => spec_checkered_color(c, p),
        Texture::Sky(_) => spec_sky_color(v),
    }
}

/// The checker cell of one scaled coordinate.
fn cell_index(w: Fx) -> (q: u128)
    ensures
        q as int == spec_cell_index(w),
{
    let shifted: u128 = ((w.bits as i128) + (PI_BITS as i128) * 0x800000000000i128) as u128;
    shifted / (PI_BITS as u128)
}

/// The normalized azimuth of the direction `(x, y)` in the plane.
fn pseudo_angle(y: Fx, x: Fx) -> (u: Fx)
    ensures
        u == spec_pseudo_angle(y, x),
        0 <= u.bits <= 65536,
{
    let quarter = Fx { bits: 16384 };
    if x.bits > 0 && y.bits >= 0 {
        let f = y.div(x.add(y));
        proof {
            lemma_unit_ratio(y, spec_add(x, y));
            lemma_quarter_scale(f);
        }
        Fx { bits: 32768 }.add(f.mul(quarter))
    } else if x.bits <= 0 && y.bits > 0 {
        let f = x.neg().div(y.sub(x));
        proof {
            lemma_unit_ratio(spec_neg(x), spec_sub(y, x));
            lemma_quarter_scale(f);
        }
        Fx { bits: 49152 }.add(f.mul(quarter))
    } else if x.bits < 0 && y.bits <= 0 {
        let f = y.neg().div(x.neg().sub(y));
        proof {
            lemma_unit_ratio(spec_neg(y), spec_sub(spec_neg(x), y));
            lemma_quarter_scale(f);
        }
        f.mul(quarter)
    } else if x.bits >= 0 && y.bits < 0 {
        let f = x.div(x.sub(y));
        proof {
            lemma_unit_ratio(x, spec_sub(x, y));
            lemma_quarter_scale(f);
        }
        Fx { bits: 16384 }.add(f.mul(quarter))
    } else {
        Fx { bits: 32768 }
    }
}

/// The spherical surface coordinates of a point relative to the origin,
/// each within `[0, 1]`.
pub fn uv_coords(p: Point) -> (uv: (Fx, Fx))
    ensures
        uv == spec_uv_coords(p),
        0 <= uv.0.bits <= 65536,
        0 <= uv.1.bits <= 65536,
{
    let unit = p.unit();
    let u = pseudo_angle(unit.z.neg(), unit.x);
    let raw = unit.y.add(Fx { bits: 65536 }).mul(Fx { bits: 32768 });
    let v = if raw.bits < 0 {
        Fx { bits: 0 }
    } else if raw.bits > 65536 {
        Fx { bits: 65536 }
    } else {
        raw
    };
    (u, v)
}

/// Scaling a value in `[0, 1]` by a quarter keeps it within `[0, 1/4]`.
proof fn lemma_quarter_scale(f: Fx)
    requires
        0 <= f.bits <= 65536,
    ensures
        0 <= spec_mul(f, Fx { bits: 16384 }).bits <= 16384,
{
    assert(0 <= (f.bits as int) * 16384 / 65536 <= 16384) by (nonlinear_arith)
        requires
            0 <= f.bits as int <= 65536,
    ;
}

/// The azimuth lands in the unit interval, whatever the direction.
proof fn lemma_pseudo_angle_in_unit(y: Fx, x: Fx)
    ensures
        0 <= spec_pseudo_angle(y, x).bits <= 65536,
{
    let quarter = Fx { bits: 16384 };
    if x.bits > 0 && y.bits >= 0 {
        lemma_unit_ratio(y, spec_add(x, y));
        lemma_quarter_scale(spec_div(y, spec_add(x, y)));
    } else if x.bits <= 0 && y.bits > 0 {
        lemma_unit_ratio(spec_neg(x), spec_sub(y, x));
        lemma_quarter_scale(spec_div(spec_neg(x), spec_sub(y, x)));
    } else if x.bits < 0 && y.bits <= 0 {
        lemma_unit_ratio(spec_neg(y), spec_sub(spec_neg(x), y));
        lemma_quarter_scale(spec_div(spec_neg(y), spec_sub(spec_neg(x), y)));
    } else if x.bits >= 0 && y.bits < 0 {
        lemma_unit_ratio(x, spec_sub(x, y));
        lemma_quarter_scale(spec_div(x, spec_sub(x, y)));
    }
}

/// The surface-coordinate invariant: both spherical coordinates of any
/// point land in the unit square.
pub proof fn lemma_uv_in_unit_square(p: Point)
    ensures
        0 <= spec_uv_coords(p).0.bits <= 65536,
        0 <= spec_uv_coords(p).1.bits <= 65536,
{
    let unit = spec_unit(p);
    lemma_pseudo_angle_in_unit(spec_neg(unit.z), unit.x);
}

/// A quotient of a numerator by a no-smaller denominator stays in `[0, 1]`.
proof fn lemma_unit_ratio(a: Fx, b: Fx)
    requires
        0 <= a.bits <= b.bits,
    ensures
        0 <= spec_div(a, b).bits <= 65536,
{
    if b.bits == 0 {
    } else {
        assert(0 <= (a.bits as int) * 65536 / (b.bits as int) <= 65536) by (nonlinear_arith)
            requires
                0 <= a.bits as int <= b.bits as int,
                b.bits as int > 0,
        ;
    }
}

impl Solid {
    pub fn new(color: Color) -> (r: Solid)
        ensures
            r == (Solid { color }),
    {
        Solid { color }
    }
}

impl Checkered {
    pub fn new(color1: Color, color2: Color, size: Fx) -> (r: Checkered)
        ensures
            r == (Checkered { color1, color2, size }),
    {
        Checkered { color1, color2, size }
    }
}

impl Texture {
    /// The color of this texture at `(u, v)` and point `p`.
    pub fn color(&self, u: Fx, v: Fx, p: Point) -> (c: Color)
        ensures
            c == spec_texture_color(*self, u, v, p),
    {
        match self {
            Texture::Solid(s) => s.color,
            Texture::Checkered(ch) => {
                let q1 = cell_index(p.x.mul(ch.size));
                let q2 = cell_index(p.y.mul(ch.size));
                let q3 = cell_index(p.z.mul(ch.size));
                if (q1 + q2 + q3) % 2 == 1 {
                    ch.color1
                } else {
                    ch.color2
                }
            },
            Texture::Sky(_) => {
                let white = Vec3 {
                    x: Fx { bits: 65536 },
                    y: Fx { bits: 65536 },
                    z: Fx { bits: 65536 },
                };
                let blue = Vec3 {
                    x: Fx { bits: 32768 },
                    y: Fx { bits: 45875 },
                    z: Fx { bits: 65536 },
                };
                white.mul(Fx { bits: 65536 }.sub(v)).add(blue.mul(v))
            },
        }
    }
}

} // verus!
