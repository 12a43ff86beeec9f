//! Integer geometry primitives: points, rectangles, the rational zoom scale,
//! and the rounding arithmetic the editor commits geometry with.

use vstd::prelude::*;

verus! {

use vstd::arithmetic::div_mod::lemma_fundamental_div_mod;
use vstd::arithmetic::div_mod::lemma_fundamental_div_mod_converse;
use vstd::arithmetic::div_mod::lemma_div_is_ordered;
use vstd::arithmetic::div_mod::lemma_div_pos_is_pos;

/// Every coordinate the editor works with stays within this many pixels of
/// the origin, in screen space as well as in doll-local space.
pub const COORD_LIMIT: i64 = 0x100_0000_0000;

/// Zoom numerator and denominator are held within this factor.
pub const SCALE_LIMIT: i64 = 1024;

/// A coordinate within the editor's working range.
pub open spec fn fits(v: int) -> bool {
    -(COORD_LIMIT as int) <= v <= COORD_LIMIT as int
}

/// A coordinate that may have been scaled up by the zoom factor, or mixed
/// with such values; still far from the limits of `i64` arithmetic.
pub open spec fn fits_wide(v: int) -> bool {
    -0x40_0000_0000_0000 <= v <= 0x40_0000_0000_0000
}

pub open spec fn abs_i(v: int) -> int {
    if v < 0 {
        -v
    } else {
        v
    }
}

/// A 2D point or vector, in integer pixels.
#[derive(Clone, Copy, PartialEq, Eq, Structural, Debug)]
pub struct Point {
    pub x: i64,
    pub y: i64,
}

impl Point {
    pub open spec fn fits_spec(self) -> bool {
        fits(self.x as int) && fits(self.y as int)
    }

    pub open spec fn fits_wide_spec(self) -> bool {
        fits_wide(self.x as int) && fits_wide(self.y as int)
    }

    pub fn new(x: i64, y: i64) -> (p: Point)
        ensures
            p.x == x,
            p.y == y,
    {
        Point { x, y }
    }
}

/// An axis-aligned rectangle given by two corners.
#[derive(Clone, Copy, PartialEq, Eq, Structural, Debug)]
pub struct Rect {
    pub min: Point,
    pub max: Point,
}

impl Rect {
    pub open spec fn fits_spec(self) -> bool {
        self.min.fits_spec() && self.max.fits_spec()
    }

    pub open spec fn fits_wide_spec(self) -> bool {
        self.min.fits_wide_spec() && self.max.fits_wide_spec()
    }

    pub fn new(min: Point, max: Point) -> (r: Rect)
        ensures
            r.min == min,
            r.max == max,
    {
        Rect { min, max }
    }
}

/// The viewport zoom as an exact positive rational `num / den`.
#[derive(Clone, Copy, PartialEq, Eq, Structural, Debug)]
pub struct Scale {
    pub num: i64,
    pub den: i64,
}

impl Scale {
    pub open spec fn wf(self) -> bool {
        1 <= self.num <= SCALE_LIMIT && 1 <= self.den <= SCALE_LIMIT
    }

    pub fn new(num: i64, den: i64) -> (s: Scale)
        ensures
            s.num == num,
            s.den == den,
    {
        Scale { num, den }
    }
}

/// Division of `a` by `d`, rounded to the nearest integer with ties going
/// away from zero; the rounding the editor commits pixel coordinates with.
pub open spec fn round_div(a: int, d: int) -> int
    recommends
        d >= 1,
{
    if a >= 0 {
        (2 * a + d) / (2 * d)
    } else {
        -((2 * -a + d) / (2 * d))
    }
}

/// `v` scaled by the rational `num / den` and rounded to the nearest pixel.
pub open spec fn scale_spec(v: int, s: Scale) -> int {
    round_div(v * s.num, s.den as int)
}

/// `v` divided by the rational `num / den` and rounded to the nearest pixel.
pub open spec fn unscale_spec(v: int, s: Scale) -> int {
    round_div(v * s.den, s.num as int)
}

/// The midpoint of `a` and `b`, rounded toward negative infinity.
pub open spec fn mid(a: int, b: int) -> int {
    (a + b) / 2
}

/// Rounding to the nearest integer maps exact multiples to themselves.
pub proof fn lemma_round_div_exact(a: int, d: int)
    requires
        d >= 1,
    ensures
        round_div(a * d, d) == a,
{
    if a >= 0 {
        assert(a * d >= 0 && 2 * (a * d) + d == a * (2 * d) + d) by (nonlinear_arith)
            requires
                a >= 0 && d >= 1,
        ;
        lemma_fundamental_div_mod_converse(2 * (a * d) + d, 2 * d, a, d);
    } else {
        assert(a * d < 0 && 2 * (-(a * d)) + d == (-a) * (2 * d) + d) by (nonlinear_arith)
            requires
                a < 0 && d >= 1,
        ;
        lemma_fundamental_div_mod_converse(2 * (-(a * d)) + d, 2 * d, -a, d);
    }
}

/// The rounded quotient never exceeds the dividend in magnitude.
pub proof fn lemma_round_div_bound(a: int, d: int)
    requires
        d >= 1,
    ensures
        abs_i(round_div(a, d)) <= abs_i(a),
{
    let m = abs_i(a);
    assert(2 * m + d <= m * (2 * d) + d) by (nonlinear_arith)
        requires
            m >= 0 && d >= 1,
    ;
    lemma_fundamental_div_mod_converse(m * (2 * d) + d, 2 * d, m, d);
    lemma_div_is_ordered(2 * m + d, m * (2 * d) + d, 2 * d);
    lemma_div_pos_is_pos(2 * m + d, 2 * d);
}

/// A rounded quotient of a non-negative dividend is non-negative.
pub proof fn lemma_round_div_nonneg(a: int, d: int)
    requires
        d >= 1,
        a >= 0,
    ensures
        round_div(a, d) >= 0,
{
    lemma_div_pos_is_pos(2 * a + d, 2 * d);
}

/// Exact division of non-negative `i128` values; `/` on `u128` after casts.
fn div_u(a: i128, d: i128) -> (q: i128)
    requires
        a >= 0,
        d >= 1,
    ensures
        q == a as int / d as int,
{
    let ua = a as u128;
    let ud = d as u128;
    let uq = ua / ud;
    proof {
        assert(ua as int == a as int);
        assert(ud as int == d as int);
        lemma_div_pos_is_pos(a as int, d as int);
        lemma_div_is_ordered(a as int, a as int, d as int);
        assert(uq as int == a as int / d as int);
    }
    uq as i128
}

/// Division rounded to the nearest integer, ties away from zero.
pub fn round_div_i(a: i128, d: i128) -> (q: i128)
    requires
        1 <= d <= 0x1_0000_0000_0000_0000,
        -0x1000_0000_0000_0000_0000_0000_0000 <= a <= 0x1000_0000_0000_0000_0000_0000_0000,
    ensures
        q == round_div(a as int, d as int),
{
    if a >= 0 {
        div_u(2 * a + d, 2 * d)
    } else {
        let m = -a;
        let q = div_u(2 * m + d, 2 * d);
        -q
    }
}

/// The floor midpoint of two in-range coordinates.
pub fn midpoint(a: i64, b: i64) -> (m: i64)
    requires
        fits_wide(a as int),
        fits_wide(b as int),
    ensures
        m == mid(a as int, b as int),
        fits_wide(m as int),
{
    let s: i128 = a as i128 + b as i128;
    let m: i128 = if s >= 0 {
        div_u(s, 2)
    } else {
        let q = div_u(-s + 1, 2);
        proof {
            let n = -s as int;
            lemma_fundamental_div_mod((n + 1) as int, 2);
            lemma_fundamental_div_mod(s as int, 2);
        }
        -q
    };
    proof {
        lemma_div_is_ordered(s as int, 0x80_0000_0000_0000, 2);
        lemma_div_is_ordered(-0x80_0000_0000_0000, s as int, 2);
    }
    m as i64
}

/// Absolute value of an in-range coordinate.
pub fn abs64(v: i64) -> (r: i64)
    requires
        v > i64::MIN,
    ensures
        r == abs_i(v as int),
{
    if v < 0 {
        -v
    } else {
        v
    }
}

/// Scales `v` up by `s`, rounding to the nearest pixel.
pub fn scale_value(v: i64, s: Scale) -> (r: i64)
    requires
        s.wf(),
        fits(v as int),
    ensures
        r == scale_spec(v as int, s),
        -0x4_0000_0000_0000 <= r <= 0x4_0000_0000_0000,
        v >= 0 ==> r >= 0,
{
    proof {
        assert(-0x4_0000_0000_0000 <= (v as int) * (s.num as int) <= 0x4_0000_0000_0000
            && (v >= 0 ==> (v as int) * (s.num as int) >= 0)) by (nonlinear_arith)
            requires
                -0x100_0000_0000 <= v as int <= 0x100_0000_0000 && 1 <= s.num <= 1024,
        ;
        lemma_round_div_bound((v as int) * (s.num as int), s.den as int);
        if v >= 0 {
            lemma_round_div_nonneg((v as int) * (s.num as int), s.den as int);
        }
    }
    let prod: i128 = v as i128 * s.num as i128;
    let r = round_div_i(prod, s.den as i128);
    r as i64
}

/// Divides `v` by `s`, rounding to the nearest pixel.  The caller must know
/// that the result stays in the working range.
pub fn unscale_value(v: i64, s: Scale) -> (r: i64)
    requires
        s.wf(),
        -0x4000_0000_0000_0000 <= v <= 0x4000_0000_0000_0000,
        fits_wide(unscale_spec(v as int, s)),
    ensures
        r == unscale_spec(v as int, s),
{
    proof {
        assert(-0x1000_0000_0000_0000_0000_0000 <= (v as int) * (s.den as int)
            <= 0x1000_0000_0000_0000_0000_0000) by (nonlinear_arith)
            requires
                -0x4000_0000_0000_0000 <= v as int <= 0x4000_0000_0000_0000 && 1 <= s.den <= 1024,
        ;
    }
    let prod: i128 = v as i128 * s.den as i128;
    let r = round_div_i(prod, s.num as i128);
    r as i64
}


/// The rounded quotient is within half a divisor of the true quotient.
proof fn lemma_round_div_error(a: int, d: int)
    requires
        d >= 1,
    ensures
        -d <= 2 * (a - round_div(a, d) * d) <= d,
{
    if a >= 0 {
        let e = (2 * a + d) / (2 * d);
        lemma_fundamental_div_mod(2 * a + d, 2 * d);
        let r = (2 * a + d) % (2 * d);
        assert(2 * a + d == 2 * d * e + r);
        assert(2 * (a - e * d) == r - d) by (nonlinear_arith)
            requires
                2 * a + d == 2 * d * e + r,
        ;
    } else {
        let q = (2 * -a + d) / (2 * d);
        lemma_fundamental_div_mod(2 * -a + d, 2 * d);
        let r = (2 * -a + d) % (2 * d);
        assert(2 * -a + d == 2 * d * q + r);
        assert(2 * (a - (-q) * d) == d - r) by (nonlinear_arith)
            requires
                2 * -a + d == 2 * d * q + r,
        ;
    }
}

/// A value strictly within half a divisor of `v * d` rounds to `v`.
proof fn lemma_round_div_near(a: int, d: int, v: int)
    requires
        d >= 1,
        -d < 2 * (a - v * d),
        2 * (a - v * d) < d,
    ensures
        round_div(a, d) == v,
{
    if a >= 0 {
        assert(2 * a + d == v * (2 * d) + (2 * a + d - 2 * (v * d)) && 0 <= 2 * a + d - 2 * (v
            * d) < 2 * d) by (nonlinear_arith)
            requires
                d >= 1 && -d < 2 * (a - v * d) < d,
        ;
        lemma_fundamental_div_mod_converse(2 * a + d, 2 * d, v, 2 * a + d - 2 * (v * d));
    } else {
        assert(2 * -a + d == (-v) * (2 * d) + (2 * -a + d + 2 * (v * d)) && 0 <= 2 * -a + d + 2
            * (v * d) < 2 * d) by (nonlinear_arith)
            requires
                d >= 1 && -d < 2 * (a - v * d) < d,
        ;
        lemma_fundamental_div_mod_converse(2 * -a + d, 2 * d, -v, 2 * -a + d + 2 * (v * d));
    }
}

/// Committing an already committed coordinate changes nothing: at a zoom of
/// one or more, scaling a doll-local pixel up to the screen and rounding it
/// back returns the same pixel, so repeated commits cannot drift.
pub proof fn lemma_scale_round_trip(v: int, s: Scale)
    requires
        s.wf(),
        s.num >= s.den,
    ensures
        unscale_spec(scale_spec(v, s), s) == v,
{
    let e = round_div(v * s.num, s.den as int);
    if s.num == s.den {
        lemma_round_div_exact(v, s.num as int);
        assert(v * s.num == v * s.den) by (nonlinear_arith)
            requires
                s.num == s.den,
        ;
        lemma_round_div_exact(v, s.den as int);
        assert(e == v);
        lemma_round_div_exact(v, s.num as int);
        assert(unscale_spec(e, s) == round_div(v * s.den, s.num as int));
        assert(v * s.den == v * s.num) by (nonlinear_arith)
            requires
                s.num == s.den,
        ;
    } else {
        lemma_round_div_error(v * s.num, s.den as int);
        assert(-(s.num as int) < 2 * (e * s.den - v * s.num) < s.num as int) by (nonlinear_arith)
            requires
                -(s.den as int) <= 2 * ((v * s.num) - e * s.den) <= s.den as int && s.den
                    < s.num,
        ;
        lemma_round_div_near(e * s.den, s.num as int, v);
    }
}

} // verus!
