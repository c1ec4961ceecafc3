//! Saturating fixed-point scalars and 2-vectors.
//!
//! A scalar holds `SCALE` sub-units per world unit in an `i64`. Every
//! operation saturates to the symmetric range `[-i64::MAX, i64::MAX]`
//! (never `i64::MIN`), which keeps negation exact and makes every
//! operation an odd function of each argument. Division truncates toward
//! zero. Each executable operation is specified exactly by a spec-level
//! mirror (`sat_v`, `tdiv`, `fx_mul_v`, ...), so callers can compute with
//! the results symbolically.

use vstd::prelude::*;

verus! {

/// Number of fixed-point sub-units per world unit.
pub const SCALE: i64 = 10_000;

/// Largest representable scalar; saturation clamps here.
pub const FX_MAX: i64 = i64::MAX;

/// Smallest representable scalar; symmetric to `FX_MAX` so negation is exact.
pub const FX_MIN: i64 = -i64::MAX;

/// Clamp a mathematical integer into the representable range.
pub open spec fn sat_v(x: int) -> int {
    if x > FX_MAX as int {
        FX_MAX as int
    } else if x < FX_MIN as int {
        FX_MIN as int
    } else {
        x
    }
}

/// Magnitude of a mathematical integer.
pub open spec fn abs_v(x: int) -> int {
    if x < 0 {
        -x
    } else {
        x
    }
}

/// Division truncating toward zero, as the executable code computes it
/// (by dividing magnitudes and re-applying the sign).
pub open spec fn tdiv(a: int, b: int) -> int
    recommends
        b != 0,
{
    if (a < 0) == (b < 0) {
        abs_v(a) / abs_v(b)
    } else {
        -(abs_v(a) / abs_v(b))
    }
}

/// Saturating addition.
pub open spec fn fx_add_v(a: int, b: int) -> int {
    sat_v(a + b)
}

/// Saturating subtraction.
pub open spec fn fx_sub_v(a: int, b: int) -> int {
    sat_v(a - b)
}

/// Saturating fixed-point multiplication: `a * b / SCALE`, truncated.
pub open spec fn fx_mul_v(a: int, b: int) -> int {
    sat_v(tdiv(a * b, SCALE as int))
}

/// Saturating fixed-point division: `a * SCALE / b`, truncated.
pub open spec fn fx_div_v(a: int, b: int) -> int
    recommends
        b != 0,
{
    sat_v(tdiv(a * SCALE, b))
}

/// Saturating multiplication by a plain (unscaled) integer factor.
pub open spec fn fx_scale_v(a: int, k: int) -> int {
    sat_v(tdiv(a * k, 1))
}

/// Halving, truncated toward zero.
pub open spec fn fx_half_v(a: int) -> int {
    tdiv(a, 2)
}

/// The product of two `i64`-range values stays within `2^126` in magnitude.
proof fn lemma_i64_product_bounds(a: int, b: int)
    by (nonlinear_arith)
    requires
        -0x8000_0000_0000_0000 <= a <= 0x7fff_ffff_ffff_ffff,
        -0x8000_0000_0000_0000 <= b <= 0x7fff_ffff_ffff_ffff,
    ensures
        -0x4000_0000_0000_0000_0000_0000_0000_0000 <= a * b
            <= 0x4000_0000_0000_0000_0000_0000_0000_0000,
{
}

/// Clamp a signed magnitude into the representable range.
fn sat_mag(neg: bool, mag: u128) -> (r: i64)
    ensures
        r as int == sat_v(if neg { -(mag as int) } else { mag as int }),
{
    if neg {
        if mag >= i64::MAX as u128 {
            -i64::MAX
        } else {
            -(mag as i64)
        }
    } else {
        if mag >= i64::MAX as u128 {
            i64::MAX
        } else {
            mag as i64
        }
    }
}

/// Saturating addition of two scalars.
pub fn fx_add(a: i64, b: i64) -> (r: i64)
    ensures
        r as int == fx_add_v(a as int, b as int),
{
    let s: i128 = a as i128 + b as i128;
    if s < 0 {
        sat_mag(true, (-s) as u128)
    } else {
        sat_mag(false, s as u128)
    }
}

/// Saturating subtraction of two scalars.
pub fn fx_sub(a: i64, b: i64) -> (r: i64)
    ensures
        r as int == fx_sub_v(a as int, b as int),
{
    let s: i128 = a as i128 - b as i128;
    if s < 0 {
        sat_mag(true, (-s) as u128)
    } else {
        sat_mag(false, s as u128)
    }
}

/// Saturating fixed-point multiplication.
pub fn fx_mul(a: i64, b: i64) -> (r: i64)
    ensures
        r as int == fx_mul_v(a as int, b as int),
{
    proof {
        lemma_i64_product_bounds(a as int, b as int);
    }
    let p: i128 = (a as i128) * (b as i128);
    let neg: bool = p < 0;
    let mag: u128 = if p < 0 {
        (-p) as u128
    } else {
        p as u128
    };
    let q: u128 = mag / (SCALE as u128);
    sat_mag(neg, q)
}

/// Saturating fixed-point division. The divisor must be non-zero.
pub fn fx_div(a: i64, b: i64) -> (r: i64)
    requires
        b != 0,
    ensures
        r as int == fx_div_v(a as int, b as int),
{
    proof {
        lemma_i64_product_bounds(a as int, SCALE as int);
    }
    let n: i128 = (a as i128) * (SCALE as i128);
    let neg: bool = (n < 0) != (b < 0);
    let nm: u128 = if n < 0 {
        (-n) as u128
    } else {
        n as u128
    };
    let bm: u128 = if b < 0 {
        (-(b as i128)) as u128
    } else {
        b as u128
    };
    sat_mag(neg, nm / bm)
}

/// Saturating multiplication by a plain (unscaled) integer factor.
pub fn fx_scale(a: i64, k: i64) -> (r: i64)
    ensures
        r as int == fx_scale_v(a as int, k as int),
{
    proof {
        lemma_i64_product_bounds(a as int, k as int);
    }
    let p: i128 = (a as i128) * (k as i128);
    let neg: bool = p < 0;
    let mag: u128 = if p < 0 {
        (-p) as u128
    } else {
        p as u128
    };
    proof {
        assert(abs_v(p as int) / 1int == abs_v(p as int));
    }
    sat_mag(neg, mag)
}

/// Halving, truncated toward zero.
pub fn fx_half(a: i64) -> (r: i64)
    ensures
        r as int == fx_half_v(a as int),
{
    let neg: bool = a < 0;
    let mag: u128 = if a < 0 {
        (-(a as i128)) as u128
    } else {
        a as u128
    };
    sat_mag(neg, mag / 2)
}

/// Saturation is an odd function.
pub proof fn lemma_sat_odd(x: int)
    ensures
        sat_v(-x) == -sat_v(x),
{
}

/// Truncating division is odd in its dividend.
pub proof fn lemma_tdiv_odd(a: int, b: int)
    requires
        b != 0,
    ensures
        tdiv(-a, b) == -tdiv(a, b),
{
    assert(abs_v(-a) == abs_v(a));
}

/// Fixed-point multiplication is odd in its left argument.
pub proof fn lemma_fx_mul_odd_left(a: int, b: int)
    ensures
        fx_mul_v(-a, b) == -fx_mul_v(a, b),
{
    assert((-a) * b == -(a * b)) by (nonlinear_arith);
    lemma_tdiv_odd(a * b, SCALE as int);
    lemma_sat_odd(tdiv(a * b, SCALE as int));
}

/// Truncating division of non-negative values is non-negative.
pub proof fn lemma_tdiv_nonneg(a: int, b: int)
    requires
        a >= 0,
        b > 0,
    ensures
        tdiv(a, b) >= 0,
        tdiv(a, b) <= a,
{
    assert(abs_v(a) / abs_v(b) <= a) by {
        vstd::arithmetic::div_mod::lemma_div_is_ordered_by_denominator(a, 1, b);
        vstd::arithmetic::div_mod::lemma_div_basics(a);
    }
}

/// Fixed-point multiplication of non-negative values is non-negative.
pub proof fn lemma_fx_mul_nonneg(a: int, b: int)
    requires
        a >= 0,
        b >= 0,
    ensures
        fx_mul_v(a, b) >= 0,
{
    assert(a * b >= 0) by (nonlinear_arith)
        requires
            a >= 0,
            b >= 0,
    ;
    lemma_tdiv_nonneg(a * b, SCALE as int);
}

/// `0 <= a <= ah` and `0 <= b <= bh` bound the product by `ah * bh`.
pub proof fn lemma_mul_bounds(a: int, ah: int, b: int, bh: int)
    by (nonlinear_arith)
    requires
        0 <= a <= ah,
        0 <= b <= bh,
    ensures
        0 <= a * b <= ah * bh,
{
}

/// The product of two positive values is positive.
pub proof fn lemma_mul_pos(a: int, b: int)
    by (nonlinear_arith)
    requires
        1 <= a,
        1 <= b,
    ensures
        1 <= a * b,
{
}

/// The square of a `u64`-range value stays below `2^128`.
proof fn lemma_u64_square_bound(m: int)
    by (nonlinear_arith)
    requires
        0 <= m <= 0xffff_ffff_ffff_ffff,
    ensures
        0 <= m * m <= 0xffff_ffff_ffff_fffe_0000_0000_0000_0001,
{
}

/// Whether `r` is the floor of the square root of `x`.
pub open spec fn is_sqrt_floor(x: int, r: int) -> bool {
    r >= 0 && r * r <= x && x < (r + 1) * (r + 1)
}

/// Floor of the square root of `x`, as the unique non-negative `r` with
/// `r * r <= x < (r + 1) * (r + 1)`.
pub open spec fn sqrt_floor(x: int) -> int {
    choose|r: int| is_sqrt_floor(x, r)
}

/// A witness pins `sqrt_floor` down.
pub proof fn lemma_sqrt_floor_is(x: int, r: int)
    requires
        r >= 0,
        r * r <= x,
        x < (r + 1) * (r + 1),
    ensures
        sqrt_floor(x) == r,
{
    assert(is_sqrt_floor(x, r));
    let s = sqrt_floor(x);
    assert(is_sqrt_floor(x, s));
    if s < r {
        assert((s + 1) * (s + 1) <= r * r) by (nonlinear_arith)
            requires
                0 <= s < r,
        ;
    }
    if s > r {
        assert((r + 1) * (r + 1) <= s * s) by (nonlinear_arith)
            requires
                0 <= r < s,
        ;
    }
}

/// Integer square root, rounded down.
pub fn isqrt(x: u128) -> (r: u64)
    ensures
        (r as int) * (r as int) <= x as int,
        (x as int) < (r as int + 1) * (r as int + 1),
{
    let mut lo: u64 = 0;
    let mut hi: u64 = u64::MAX;
    proof {
        assert((hi as int + 1) * (hi as int + 1) > u128::MAX as int);
    }
    while lo < hi
        invariant
            lo <= hi,
            (lo as int) * (lo as int) <= x as int,
            (x as int) < (hi as int + 1) * (hi as int + 1),
        decreases hi - lo,
    {
        let step: u64 = (hi - lo) / 2 + 1;
        let mid: u64 = lo + step;
        proof {
            lemma_u64_square_bound(mid as int);
        }
        let sq: u128 = (mid as u128) * (mid as u128);
        if sq <= x {
            lo = mid;
        } else {
            hi = mid - 1;
        }
    }
    lo
}

/// A fixed-point 2-vector.
#[derive(Clone, Copy, PartialEq, Eq, Structural, Debug)]
pub struct Vec2 {
    pub x: i64,
    pub y: i64,
}

/// Whether both components lie in the saturating range (never `i64::MIN`),
/// as every operation of this module guarantees of its result.
pub open spec fn vec2_ok(v: Vec2) -> bool {
    v.x > i64::MIN && v.y > i64::MIN
}

/// Spec mirror of component-wise saturating addition.
pub open spec fn vadd_v(a: Vec2, b: Vec2) -> Vec2 {
    Vec2 { x: fx_add_v(a.x as int, b.x as int) as i64, y: fx_add_v(a.y as int, b.y as int) as i64 }
}

/// Spec mirror of component-wise saturating subtraction.
pub open spec fn vsub_v(a: Vec2, b: Vec2) -> Vec2 {
    Vec2 { x: fx_sub_v(a.x as int, b.x as int) as i64, y: fx_sub_v(a.y as int, b.y as int) as i64 }
}

/// Spec mirror of scaling by a fixed-point scalar.
pub open spec fn vscale_v(a: Vec2, s: int) -> Vec2 {
    Vec2 { x: fx_mul_v(a.x as int, s) as i64, y: fx_mul_v(a.y as int, s) as i64 }
}

/// Spec mirror of scaling by a plain (unscaled) integer factor.
pub open spec fn vscale_int_v(a: Vec2, k: int) -> Vec2 {
    Vec2 { x: fx_scale_v(a.x as int, k) as i64, y: fx_scale_v(a.y as int, k) as i64 }
}

/// Spec mirror of component-wise division by a fixed-point scalar.
pub open spec fn vdiv_v(a: Vec2, s: int) -> Vec2
    recommends
        s != 0,
{
    Vec2 { x: fx_div_v(a.x as int, s) as i64, y: fx_div_v(a.y as int, s) as i64 }
}

/// Spec mirror of component-wise negation.
pub open spec fn vneg_v(a: Vec2) -> Vec2 {
    Vec2 { x: fx_sub_v(0, a.x as int) as i64, y: fx_sub_v(0, a.y as int) as i64 }
}

/// Spec mirror of the distance between two points: the floor square root of
/// the sum of squared (saturated) component differences, saturated.
pub open spec fn dist_v(a: Vec2, b: Vec2) -> int {
    let dx = fx_sub_v(a.x as int, b.x as int);
    let dy = fx_sub_v(a.y as int, b.y as int);
    sat_v(sqrt_floor(dx * dx + dy * dy))
}

/// Distance is symmetric: swapping the endpoints negates both component
/// differences and leaves their squares, and so the root, unchanged.
pub proof fn lemma_dist_symmetric(a: Vec2, b: Vec2)
    ensures
        dist_v(a, b) == dist_v(b, a),
{
    let dx = fx_sub_v(a.x as int, b.x as int);
    let dy = fx_sub_v(a.y as int, b.y as int);
    lemma_sat_odd((a.x as int) - (b.x as int));
    lemma_sat_odd((a.y as int) - (b.y as int));
    assert(fx_sub_v(b.x as int, a.x as int) == -dx);
    assert(fx_sub_v(b.y as int, a.y as int) == -dy);
    assert((-dx) * (-dx) == dx * dx) by (nonlinear_arith);
    assert((-dy) * (-dy) == dy * dy) by (nonlinear_arith);
}

impl Vec2 {
    /// Build a vector from its components.
    pub fn new(x: i64, y: i64) -> (r: Vec2)
        ensures
            r == (Vec2 { x, y }),
    {
        Vec2 { x, y }
    }

    /// The zero vector.
    pub fn zero() -> (r: Vec2)
        ensures
            r == (Vec2 { x: 0i64, y: 0i64 }),
    {
        Vec2 { x: 0, y: 0 }
    }

    /// Component-wise saturating addition.
    pub fn add(self, o: Vec2) -> (r: Vec2)
        ensures
            r == vadd_v(self, o),
    {
        Vec2 { x: fx_add(self.x, o.x), y: fx_add(self.y, o.y) }
    }

    /// Component-wise saturating subtraction.
    pub fn sub(self, o: Vec2) -> (r: Vec2)
        ensures
            r == vsub_v(self, o),
    {
        Vec2 { x: fx_sub(self.x, o.x), y: fx_sub(self.y, o.y) }
    }

    /// Scale by a fixed-point scalar.
    pub fn scale(self, s: i64) -> (r: Vec2)
        ensures
            r == vscale_v(self, s as int),
    {
        Vec2 { x: fx_mul(self.x, s), y: fx_mul(self.y, s) }
    }

    /// Scale by a plain (unscaled) integer factor.
    pub fn scale_int(self, k: i64) -> (r: Vec2)
        ensures
            r == vscale_int_v(self, k as int),
    {
        Vec2 { x: fx_scale(self.x, k), y: fx_scale(self.y, k) }
    }

    /// Component-wise division by a fixed-point scalar.
    pub fn div_scalar(self, s: i64) -> (r: Vec2)
        requires
            s != 0,
        ensures
            r == vdiv_v(self, s as int),
    {
        Vec2 { x: fx_div(self.x, s), y: fx_div(self.y, s) }
    }

    /// Component-wise negation.
    pub fn neg(self) -> (r: Vec2)
        ensures
            r == vneg_v(self),
    {
        Vec2 { x: fx_sub(0, self.x), y: fx_sub(0, self.y) }
    }

    /// Euclidean distance to another point, rounded down.
    pub fn distance(self, o: Vec2) -> (r: i64)
        ensures
            r as int == dist_v(self, o),
            r >= 0,
    {
        let dx = fx_sub(self.x, o.x);
        let dy = fx_sub(self.y, o.y);
        proof {
            lemma_i64_product_bounds(dx as int, dx as int);
            lemma_i64_product_bounds(dy as int, dy as int);
            assert((dx as int) * (dx as int) >= 0) by (nonlinear_arith);
            assert((dy as int) * (dy as int) >= 0) by (nonlinear_arith);
        }
        let ddx: u128 = ((dx as i128) * (dx as i128)) as u128;
        let ddy: u128 = ((dy as i128) * (dy as i128)) as u128;
        let dd: u128 = ddx + ddy;
        let s: u64 = isqrt(dd);
        proof {
            lemma_sqrt_floor_is(dd as int, s as int);
        }
        if s >= i64::MAX as u64 {
            i64::MAX
        } else {
            s as i64
        }
    }
}

} // verus!
