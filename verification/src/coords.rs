//! Fixed-point screen-space and normalized-device-coordinate math.
//!
//! The rasterizer consumes positions in normalized device coordinates (NDC),
//! the [-1,1] x [1,-1] space. The library carries every coordinate as a
//! fixed-point integer with [`FX_ONE`] units to 1.0, so that conversion and
//! interpolation are exact, checkable arithmetic. A pixel position `p` on a
//! screen of size `s` maps to NDC as `(2*p.x/s.x - 1, 1 - 2*p.y/s.y)`.

use vstd::arithmetic::div_mod::{
    lemma_div_by_multiple, lemma_div_is_ordered, lemma_div_nonincreasing, lemma_div_of0,
};
use vstd::arithmetic::mul::{lemma_mul_inequality, lemma_mul_upper_bound};
use vstd::prelude::*;

verus! {

/// Fixed-point units in 1.0 of normalized device space.
pub const FX_ONE: i64 = 1_000_000;

/// A position or extent in whole pixels.
#[derive(Clone, Copy, Debug, PartialEq, Eq, Structural)]
pub struct PixelVec {
    pub x: u32,
    pub y: u32,
}

/// A point in normalized device coordinates, in fixed-point units.
#[derive(Clone, Copy, Debug, PartialEq, Eq, Structural)]
pub struct NdcVec {
    pub x: i64,
    pub y: i64,
}

/// The NDC x coordinate of pixel column `px` on a surface `size` pixels wide:
/// `2 * px / size - 1`, in fixed-point units.
pub open spec fn ndc_x_of(px: int, size: int) -> int {
    2 * px * (FX_ONE as int) / size - (FX_ONE as int)
}

/// The NDC y coordinate of pixel row `py` on a surface `size` pixels tall:
/// `1 - 2 * py / size`, in fixed-point units. Pixel rows grow downward while
/// NDC y grows upward, hence the flip.
pub open spec fn ndc_y_of(py: int, size: int) -> int {
    (FX_ONE as int) - 2 * py * (FX_ONE as int) / size
}

/// The blend of `a` toward `b` at time `t` of `d`: `a + (b - a) * (t / d)`,
/// with the magnitude of the step truncated to whole fixed-point units.
pub open spec fn interp_fx(a: int, b: int, t: int, d: int) -> int {
    if b >= a {
        a + (b - a) * t / d
    } else {
        a - (a - b) * t / d
    }
}

/// NDC x coordinate of a pixel column, exactly as [`ndc_x_of`] states.
pub fn ndc_x(px: u32, size: u32) -> (r: i64)
    requires
        size > 0,
    ensures
        r == ndc_x_of(px as int, size as int),
{
    proof {
        lemma_mul_upper_bound(2 * (px as int), 2 * (u32::MAX as int), FX_ONE as int, FX_ONE as int);
    }
    let num: u64 = 2 * (px as u64) * (FX_ONE as u64);
    let q: u64 = num / (size as u64);
    proof {
        lemma_div_nonincreasing(num as int, size as int);
    }
    (q as i64) - FX_ONE
}

/// NDC y coordinate of a pixel row, exactly as [`ndc_y_of`] states.
pub fn ndc_y(py: u32, size: u32) -> (r: i64)
    requires
        size > 0,
    ensures
        r == ndc_y_of(py as int, size as int),
{
    proof {
        lemma_mul_upper_bound(2 * (py as int), 2 * (u32::MAX as int), FX_ONE as int, FX_ONE as int);
    }
    let num: u64 = 2 * (py as u64) * (FX_ONE as u64);
    let q: u64 = num / (size as u64);
    proof {
        lemma_div_nonincreasing(num as int, size as int);
    }
    FX_ONE - (q as i64)
}

/// Map a pixel position to normalized device coordinates for the given
/// screen size.
pub fn to_screen_space(v: PixelVec, screen: PixelVec) -> (r: NdcVec)
    requires
        screen.x > 0,
        screen.y > 0,
    ensures
        r.x == ndc_x_of(v.x as int, screen.x as int),
        r.y == ndc_y_of(v.y as int, screen.y as int),
{
    NdcVec { x: ndc_x(v.x, screen.x), y: ndc_y(v.y, screen.y) }
}

/// The interpolated coordinate at time `t` of `d`, exactly as [`interp_fx`]
/// states, and always between the two endpoints.
pub fn lerp_fx(a: i64, b: i64, t: u32, d: u32) -> (r: i64)
    requires
        0 < d,
        t <= d,
        -FX_ONE <= a <= FX_ONE,
        -FX_ONE <= b <= FX_ONE,
    ensures
        r == interp_fx(a as int, b as int, t as int, d as int),
        b >= a ==> a <= r <= b,
        b < a ==> b <= r <= a,
{
    if b >= a {
        let delta: u64 = (b - a) as u64;
        proof {
            lemma_mul_upper_bound(delta as int, 2 * (FX_ONE as int), t as int, u32::MAX as int);
        }
        let num: u64 = delta * (t as u64);
        let q: u64 = num / (d as u64);
        proof {
            lemma_mul_inequality(t as int, d as int, delta as int);
            lemma_div_is_ordered(delta as int * t as int, delta as int * d as int, d as int);
            lemma_div_by_multiple(delta as int, d as int);
        }
        a + (q as i64)
    } else {
        let delta: u64 = (a - b) as u64;
        proof {
            lemma_mul_upper_bound(delta as int, 2 * (FX_ONE as int), t as int, u32::MAX as int);
        }
        let num: u64 = delta * (t as u64);
        let q: u64 = num / (d as u64);
        proof {
            lemma_mul_inequality(t as int, d as int, delta as int);
            lemma_div_is_ordered(delta as int * t as int, delta as int * d as int, d as int);
            lemma_div_by_multiple(delta as int, d as int);
        }
        a - (q as i64)
    }
}

/// A pixel column inside the surface maps into the NDC interval `[-1, 1]`.
pub proof fn lemma_ndc_x_range(px: int, size: int)
    requires
        0 < size,
        0 <= px <= size,
    ensures
        -(FX_ONE as int) <= ndc_x_of(px, size) <= FX_ONE as int,
{
    let fx = FX_ONE as int;
    lemma_div_is_ordered(0, 2 * px * fx, size);
    lemma_div_of0(size);
    lemma_mul_inequality(px, size, 2 * fx);
    assert(2 * px * fx == px * (2 * fx)) by (nonlinear_arith);
    assert(2 * fx * size == (2 * fx) * size) by (nonlinear_arith);
    lemma_div_is_ordered(2 * px * fx, (2 * fx) * size, size);
    lemma_div_by_multiple(2 * fx, size);
}

/// A pixel row inside the surface maps into the NDC interval `[-1, 1]`.
pub proof fn lemma_ndc_y_range(py: int, size: int)
    requires
        0 < size,
        0 <= py <= size,
    ensures
        -(FX_ONE as int) <= ndc_y_of(py, size) <= FX_ONE as int,
{
    lemma_ndc_x_range(py, size);
}

/// Law: at `t = 0` the blend sits exactly at its start point.
pub proof fn lemma_interp_at_start(a: int, b: int, d: int)
    requires
        0 < d,
    ensures
        interp_fx(a, b, 0, d) == a,
{
    lemma_div_of0(d);
    assert((b - a) * 0 == 0);
    assert((a - b) * 0 == 0);
}

/// Law: at `t = d` the blend reaches exactly its end point.
pub proof fn lemma_interp_at_end(a: int, b: int, d: int)
    requires
        0 < d,
    ensures
        interp_fx(a, b, d, d) == b,
{
    if b >= a {
        lemma_div_by_multiple(b - a, d);
    } else {
        lemma_div_by_multiple(a - b, d);
    }
}

/// Law: the blend is monotonically parameterized. As `t` grows the
/// interpolated value moves from the start point toward the end point and
/// never doubles back.
pub proof fn lemma_interp_monotone(a: int, b: int, t1: int, t2: int, d: int)
    requires
        0 < d,
        0 <= t1 <= t2 <= d,
    ensures
        b >= a ==> interp_fx(a, b, t1, d) <= interp_fx(a, b, t2, d),
        b < a ==> interp_fx(a, b, t2, d) <= interp_fx(a, b, t1, d),
{
    if b >= a {
        lemma_mul_inequality(t1, t2, b - a);
        lemma_div_is_ordered((b - a) * t1, (b - a) * t2, d);
    } else {
        lemma_mul_inequality(t1, t2, a - b);
        lemma_div_is_ordered((a - b) * t1, (a - b) * t2, d);
    }
}

/// Law: for every `t` in `[0, d]` the blend lies between its two endpoints.
pub proof fn lemma_interp_bounded(a: int, b: int, t: int, d: int)
    requires
        0 < d,
        0 <= t <= d,
    ensures
        b >= a ==> a <= interp_fx(a, b, t, d) <= b,
        b < a ==> b <= interp_fx(a, b, t, d) <= a,
{
    lemma_interp_at_start(a, b, d);
    lemma_interp_at_end(a, b, d);
    lemma_interp_monotone(a, b, 0, t, d);
    lemma_interp_monotone(a, b, t, d, d);
}

} // verus!
