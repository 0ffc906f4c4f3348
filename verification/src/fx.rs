//! The fixed-point scalar all rendering arithmetic runs on.

use vstd::prelude::*;

verus! {

/// Number of raw units per 1.0; the grid step is `1 / FX_SCALE`.
pub const FX_SCALE: i64 = 65536;

/// Pi on the grid, rounded to the nearest step.
pub const PI_BITS: i64 = 205887;

/// A signed fixed-point scalar: the value carried is `bits / 65536`.
///
/// Sums saturate at the `i64` range and quotients round toward zero, and
/// each operation's result is pinned exactly by its contract, so everything
/// computed from these scalars is a function of its inputs.
#[derive(Debug, Clone, Copy, PartialEq, Eq, Structural)]
pub struct Fx {
    pub bits: i64,
}

/// Magnitude of an unbounded integer.
pub open spec fn iabs(x: int) -> int {
    if x >= 0 {
        x
    } else {
        -x
    }
}

/// Clamp an unbounded integer into the `i64` range.
pub open spec fn sat64(x: int) -> int {
    if x > i64::MAX as int {
        i64::MAX as int
    } else if x < i64::MIN as int {
        i64::MIN as int
    } else {
        x
    }
}

/// Quotient rounded toward zero, for a nonzero divisor.
pub open spec fn rtz_div(p: int, d: int) -> int {
    if (p >= 0) == (d >= 0) {
        iabs(p) / iabs(d)
    } else {
        -(iabs(p) / iabs(d))
    }
}

/// The scalar holding a clamped raw value.
pub open spec fn sat_fx(x: int) -> Fx {
    Fx { bits: sat64(x) as i64 }
}

pub open spec fn spec_add(a: Fx, b: Fx) -> Fx {
    sat_fx(a.bits + b.bits)
}

pub open spec fn spec_sub(a: Fx, b: Fx) -> Fx {
    sat_fx(a.bits - b.bits)
}

pub open spec fn spec_neg(a: Fx) -> Fx {
    sat_fx(-a.bits)
}

pub open spec fn spec_mul(a: Fx, b: Fx) -> Fx {
    sat_fx(rtz_div(a.bits * b.bits, FX_SCALE as int))
}

/// Division is total: a zero divisor saturates by the dividend's sign, the
/// deterministic stand-in for the infinities a float pipeline would produce.
pub open spec fn spec_div(a: Fx, b: Fx) -> Fx {
    if b.bits == 0 {
        if a.bits > 0 {
            Fx { bits: i64::MAX }
        } else if a.bits < 0 {
            Fx { bits: i64::MIN }
        } else {
            Fx { bits: 0 }
        }
    } else {
        sat_fx(rtz_div(a.bits * (FX_SCALE as int), b.bits as int))
    }
}

/// The scalar a count maps to, clamped at the top of the range.
pub open spec fn usize_fx(v: usize) -> Fx {
    sat_fx(v * 65536)
}

/// `r` is the integer square root of `n`.
pub open spec fn is_isqrt(n: int, r: int) -> bool {
    0 <= r && r * r <= n && n < (r + 1) * (r + 1)
}

/// The integer square root (meaningful for `n >= 0`).
pub open spec fn spec_isqrt(n: int) -> int {
    choose|r: int| is_isqrt(n, r)
}

/// Square root on the grid (meaningful for nonnegative input).
pub open spec fn spec_sqrt(a: Fx) -> Fx {
    Fx { bits: spec_isqrt(a.bits * (FX_SCALE as int)) as i64 }
}

pub open spec fn spec_min(a: Fx, b: Fx) -> Fx {
    if a.bits <= b.bits {
        a
    } else {
        b
    }
}

pub open spec fn spec_max(a: Fx, b: Fx) -> Fx {
    if a.bits >= b.bits {
        a
    } else {
        b
    }
}

pub open spec fn spec_abs(a: Fx) -> Fx {
    sat_fx(iabs(a.bits as int))
}

/// Sine by an alternating Taylor polynomial through the 11th power,
/// accurate on the grid for arguments within about a half turn of zero.
pub open spec fn spec_sin(x: Fx) -> Fx {
    let x2 = spec_mul(x, x);
    let x3 = spec_mul(x, x2);
    let x5 = spec_mul(x3, x2);
    let x7 = spec_mul(x5, x2);
    let x9 = spec_mul(x7, x2);
    let x11 = spec_mul(x9, x2);
    let t3 = spec_div(x3, Fx { bits: 393216 });
    let t5 = spec_div(x5, Fx { bits: 7864320 });
    let t7 = spec_div(x7, Fx { bits: 330301440 });
    let t9 = spec_div(x9, Fx { bits: 23781703680 });
    let t11 = spec_div(x11, Fx { bits: 2615997235200 });
    spec_sub(spec_add(spec_sub(spec_add(spec_sub(x, t3), t5), t7), t9), t11)
}

/// Cosine by an alternating Taylor polynomial through the 10th power.
pub open spec fn spec_cos(x: Fx) -> Fx {
    let x2 = spec_mul(x, x);
    let x4 = spec_mul(x2, x2);
    let x6 = spec_mul(x4, x2);
    let x8 = spec_mul(x6, x2);
    let x10 = spec_mul(x8, x2);
    let t2 = spec_div(x2, Fx { bits: 131072 });
    let t4 = spec_div(x4, Fx { bits: 1572864 });
    let t6 = spec_div(x6, Fx { bits: 47185920 });
    let t8 = spec_div(x8, Fx { bits: 2642411520 });
    let t10 = spec_div(x10, Fx { bits: 237817036800 });
    spec_sub(
        spec_add(spec_sub(spec_add(spec_sub(Fx { bits: 65536 }, t2), t4), t6), t8),
        t10,
    )
}

/// Tangent as the quotient of the two polynomials; meaningful for
/// arguments within a quarter turn of zero.
pub open spec fn spec_tan(x: Fx) -> Fx {
    spec_div(spec_sin(x), spec_cos(x))
}

proof fn lemma_mul_sign_mag(a: int, b: int, ma: int, mb: int)
    by (nonlinear_arith)
    requires
        a >= 0 ==> ma == a,
        a < 0 ==> ma == -a,
        b >= 0 ==> mb == b,
        b < 0 ==> mb == -b,
    ensures
        (a < 0) != (b < 0) ==> a * b == -(ma * mb),
        (a < 0) == (b < 0) ==> a * b == ma * mb,
        ma * mb >= 0,
{
}

/// Two integer square roots of the same number coincide.
proof fn lemma_isqrt_unique(n: int, r: int, c: int)
    by (nonlinear_arith)
    requires
        0 <= r,
        r * r <= n,
        n < (r + 1) * (r + 1),
        0 <= c,
        c * c <= n,
        n < (c + 1) * (c + 1),
    ensures
        r == c,
{
}

/// A witness fixes the value of `spec_isqrt`.
proof fn lemma_isqrt_is(n: int, r: int)
    requires
        is_isqrt(n, r),
    ensures
        spec_isqrt(n) == r,
{
    assert(exists|q: int| is_isqrt(n, q));
    let c = choose|q: int| is_isqrt(n, q);
    lemma_isqrt_unique(n, r, c);
}

/// The integer square root of zero is zero.
pub proof fn lemma_isqrt_zero()
    ensures
        spec_isqrt(0) == 0,
{
    assert(is_isqrt(0, 0));
    lemma_isqrt_is(0, 0);
}

/// Clamp a wide sum into the `i64` range.
fn clamp_i128(s: i128) -> (r: i64)
    ensures
        r as int == sat64(s as int),
{
    if s > i64::MAX as i128 {
        i64::MAX
    } else if s < i64::MIN as i128 {
        i64::MIN
    } else {
        s as i64
    }
}

/// Magnitude of a raw value, wide enough to never overflow.
fn mag(x: i64) -> (r: u128)
    ensures
        r as int == iabs(x as int),
{
    if x >= 0 {
        x as u128
    } else {
        (-(x as i128)) as u128
    }
}

/// Reattach a sign to a magnitude, clamping into the `i64` range.
fn from_mag(m: u128, neg: bool) -> (r: Fx)
    ensures
        r == sat_fx(
            if neg {
                -(m as int)
            } else {
                m as int
            },
        ),
{
    if neg {
        if m >= 0x8000_0000_0000_0000u128 {
            Fx { bits: i64::MIN }
        } else {
            Fx { bits: -(m as i64) }
        }
    } else {
        if m > i64::MAX as u128 {
            Fx { bits: i64::MAX }
        } else {
            Fx { bits: m as i64 }
        }
    }
}

/// Integer square root by bisection.
fn isqrt_u128(n: u128) -> (r: u128)
    requires
        n < 0x100000000000000000000u128,  // 2^80
    ensures
        is_isqrt(n as int, r as int),
{
    let mut lo: u128 = 0;
    let mut hi: u128 = 0x10000000000u128;  // 2^40
    assert(0x10000000000u128 * 0x10000000000u128 == 0x100000000000000000000u128)
        by (nonlinear_arith);
    while lo + 1 < hi
        invariant
            lo < hi,
            hi <= 0x10000000000u128,
            lo * lo <= n,
            n < hi * hi,
        decreases hi - lo,
    {
        let mid: u128 = lo + (hi - lo) / 2;
        assert(mid * mid <= 0x100000000000000000000u128) by (nonlinear_arith)
            requires
                mid <= 0x10000000000u128,
        ;
        if mid * mid <= n {
            lo = mid;
        } else {
            hi = mid;
        }
    }
    lo
}

impl Fx {
    /// The scalar with the given raw value.
    pub fn from_bits(bits: i64) -> (r: Fx)
        ensures
            r.bits == bits,
    {
        Fx { bits }
    }

    /// The scalar holding a small integer exactly.
    pub fn from_int(v: i32) -> (r: Fx)
        ensures
            r.bits == v * 65536,
    {
        Fx { bits: (v as i64) * 65536 }
    }

    pub fn zero() -> (r: Fx)
        ensures
            r.bits == 0,
    {
        Fx { bits: 0 }
    }

    /// The scalar holding a count, clamped at the top of the range.
    pub fn from_usize(v: usize) -> (r: Fx)
        ensures
            r == usize_fx(v),
    {
        from_mag((v as u128) * 65536, false)
    }

    pub fn one() -> (r: Fx)
        ensures
            r.bits == 65536,
    {
        Fx { bits: 65536 }
    }

    pub fn add(self, o: Fx) -> (r: Fx)
        ensures
            r == spec_add(self, o),
    {
        let s: i128 = (self.bits as i128) + (o.bits as i128);
        Fx { bits: clamp_i128(s) }
    }

    pub fn sub(self, o: Fx) -> (r: Fx)
        ensures
            r == spec_sub(self, o),
    {
        let s: i128 = (self.bits as i128) - (o.bits as i128);
        Fx { bits: clamp_i128(s) }
    }

    pub fn neg(self) -> (r: Fx)
        ensures
            r == spec_neg(self),
    {
        if self.bits == i64::MIN {
            Fx { bits: i64::MAX }
        } else {
            Fx { bits: -self.bits }
        }
    }

    pub fn mul(self, o: Fx) -> (r: Fx)
        ensures
            r == spec_mul(self, o),
    {
        let neg: bool = (self.bits < 0) != (o.bits < 0);
        let ma: u128 = mag(self.bits);
        let mb: u128 = mag(o.bits);
        assert((ma as int) * (mb as int) <= 0x40000000000000000000000000000000int)
            by (nonlinear_arith)
            requires
                ma <= 0x8000000000000000u128,
                mb <= 0x8000000000000000u128,
        ;
        let m: u128 = (ma * mb) / 65536;
        proof {
            lemma_mul_sign_mag(
                self.bits as int,
                o.bits as int,
                ma as int,
                mb as int,
            );
        }
        from_mag(m, neg)
    }

    pub fn div(self, o: Fx) -> (r: Fx)
        ensures
            r == spec_div(self, o),
    {
        if o.bits == 0 {
            if self.bits > 0 {
                Fx { bits: i64::MAX }
            } else if self.bits < 0 {
                Fx { bits: i64::MIN }
            } else {
                Fx { bits: 0 }
            }
        } else {
            let neg: bool = (self.bits < 0) != (o.bits < 0);
            let ma = mag(self.bits);
            let mb = mag(o.bits);
            let m: u128 = (ma * 65536) / mb;
            from_mag(m, neg)
        }
    }

    /// Square root on the grid; negative radicands are ruled out by callers.
    pub fn sqrt(self) -> (r: Fx)
        requires
            self.bits >= 0,
        ensures
            r == spec_sqrt(self),
            0 <= r.bits < 0x10000000000i64,
    {
        let n: u128 = (self.bits as u128) * 65536;
        let root: u128 = isqrt_u128(n);
        proof {
            assert(root < 0x10000000000u128) by (nonlinear_arith)
                requires
                    (root as int) * (root as int) <= n as int,
                    n < 0x100000000000000000000u128,
            ;
            lemma_isqrt_is(n as int, root as int);
        }
        Fx { bits: root as i64 }
    }

    pub fn abs(self) -> (r: Fx)
        ensures
            r == spec_abs(self),
    {
        if self.bits >= 0 {
            self
        } else {
            self.neg()
        }
    }

    pub fn min(self, o: Fx) -> (r: Fx)
        ensures
            r == spec_min(self, o),
    {
        if self.bits <= o.bits {
            self
        } else {
            o
        }
    }

    pub fn max(self, o: Fx) -> (r: Fx)
        ensures
            r == spec_max(self, o),
    {
        if self.bits >= o.bits {
            self
        } else {
            o
        }
    }

    /// Sine by the polynomial of `spec_sin`.
    pub fn sin(self) -> (r: Fx)
        ensures
            r == spec_sin(self),
    {
        let x2 = self.mul(self);
        let x3 = self.mul(x2);
        let x5 = x3.mul(x2);
        let x7 = x5.mul(x2);
        let x9 = x7.mul(x2);
        let x11 = x9.mul(x2);
        let t3 = x3.div(Fx { bits: 393216 });
        let t5 = x5.div(Fx { bits: 7864320 });
        let t7 = x7.div(Fx { bits: 330301440 });
        let t9 = x9.div(Fx { bits: 23781703680 });
        let t11 = x11.div(Fx { bits: 2615997235200 });
        self.sub(t3).add(t5).sub(t7).add(t9).sub(t11)
    }

    /// Cosine by the polynomial of `spec_cos`.
    pub fn cos(self) -> (r: Fx)
        ensures
            r == spec_cos(self),
    {
        let x2 = self.mul(self);
        let x4 = x2.mul(x2);
        let x6 = x4.mul(x2);
        let x8 = x6.mul(x2);
        let x10 = x8.mul(x2);
        let t2 = x2.div(Fx { bits: 131072 });
        let t4 = x4.div(Fx { bits: 1572864 });
        let t6 = x6.div(Fx { bits: 47185920 });
        let t8 = x8.div(Fx { bits: 2642411520 });
        let t10 = x10.div(Fx { bits: 237817036800 });
        Fx { bits: 65536 }.sub(t2).add(t4).sub(t6).add(t8).sub(t10)
    }

    /// Tangent as `sin / cos`.
    pub fn tan(self) -> (r: Fx)
        ensures
            r == spec_tan(self),
    {
        self.sin().div(self.cos())
    }
}

} // verus!
