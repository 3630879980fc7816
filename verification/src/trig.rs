//! Fixed-point trigonometry: sine and cosine by range reduction and a
//! truncated power series, arctangent by a quarter-circle polynomial, and
//! arcsine derived from both. Each executable function returns exactly the
//! value of its spec-level counterpart, so callers reason about a single
//! closed-form definition.

use vstd::prelude::*;

use crate::fixed::{
    fx_abs, fx_add, fx_clamp, fx_div, fx_idiv, fx_mul, fx_sqrt, fx_sub, fxa, fxclamp, fxd, fxm,
    fxs, iabs, lemma_qdiv_remainder, q_div, sqrt_val, FX_MAX, SCALE,
};

verus! {

/// One half turn, in fixed-point radians.
pub const PI: i64 = 3_141_593;
/// One full turn, in fixed-point radians.
pub const TWO_PI: i64 = 6_283_185;
/// A quarter turn, in fixed-point radians.
pub const HALF_PI: i64 = 1_570_796;
/// An eighth of a turn, in fixed-point radians.
pub const QUARTER_PI: i64 = 785_398;
/// Correction coefficient of the arctangent polynomial (0.273).
pub const ATAN_K: i64 = 273_000;

/// The angle folded into [-PI, PI] by whole turns.
pub open spec fn angle_norm(a: int) -> int {
    let r0 = a - q_div(a, TWO_PI as int) * (TWO_PI as int);
    if r0 > PI as int {
        r0 - TWO_PI as int
    } else if r0 < -(PI as int) {
        r0 + TWO_PI as int
    } else {
        r0
    }
}

/// Truncated sine series x - x^3/6 + x^5/120 - x^7/5040, for |x| near or
/// below a quarter turn.
pub open spec fn sin_poly(x: int) -> int {
    let x2 = fxm(x, x);
    let x3 = fxm(x2, x);
    let x5 = fxm(x3, x2);
    let x7 = fxm(x5, x2);
    fxs(fxa(fxs(x, q_div(x3, 6)), q_div(x5, 120)), q_div(x7, 5040))
}

/// Truncated cosine series 1 - x^2/2 + x^4/24 - x^6/720.
pub open spec fn cos_poly(x: int) -> int {
    let x2 = fxm(x, x);
    let x4 = fxm(x2, x2);
    let x6 = fxm(x4, x2);
    fxs(fxa(fxs(SCALE as int, q_div(x2, 2)), q_div(x4, 24)), q_div(x6, 720))
}

/// Fixed-point sine: fold into [-PI, PI], reflect into the central quarter
/// turns, evaluate the series, clamp into [-1, 1].
pub open spec fn sin_val(a: int) -> int {
    let r = angle_norm(a);
    let f = if r > HALF_PI as int {
        PI as int - r
    } else if r < -(HALF_PI as int) {
        -(PI as int) - r
    } else {
        r
    };
    fxclamp(sin_poly(f), -(SCALE as int), SCALE as int)
}

/// Fixed-point cosine, by the same folding with the even series.
pub open spec fn cos_val(a: int) -> int {
    let r = angle_norm(a);
    let c = if r > HALF_PI as int {
        -cos_poly(PI as int - r)
    } else if r < -(HALF_PI as int) {
        -cos_poly(PI as int + r)
    } else {
        cos_poly(r)
    };
    fxclamp(c, -(SCALE as int), SCALE as int)
}

/// Arctangent for a ratio already within [-1, 1]:
/// (PI/4) z + 0.273 z (1 - |z|).
pub open spec fn atan_poly(z: int) -> int {
    fxa(fxm(QUARTER_PI as int, z), fxm(fxm(ATAN_K as int, z), fxs(SCALE as int, iabs(z))))
}

/// Two-argument arctangent over fixed-point coordinates; 0 at the origin.
pub open spec fn atan2_val(y: int, x: int) -> int {
    if y == 0 && x == 0 {
        0
    } else if iabs(y) <= iabs(x) {
        let base = atan_poly(fxd(y, x));
        if x > 0 {
            base
        } else if y >= 0 {
            fxa(base, PI as int)
        } else {
            fxs(base, PI as int)
        }
    } else {
        let base = atan_poly(fxd(x, y));
        if y > 0 {
            fxs(HALF_PI as int, base)
        } else {
            fxs(-(HALF_PI as int), base)
        }
    }
}

/// Arcsine of a fixed-point ratio, clamped into [-1, 1] first:
/// atan2(z, sqrt(1 - z^2)).
pub open spec fn asin_val(z0: int) -> int {
    let z = fxclamp(z0, -(SCALE as int), SCALE as int);
    atan2_val(z, sqrt_val(fxs(SCALE as int, fxm(z, z))))
}

/// Fold an angle into [-PI, PI] by subtracting whole turns.
pub fn angle_reduce(a: i64) -> (r: i64)
    ensures
        r as int == angle_norm(a as int),
        -(PI as int) <= r as int <= PI as int,
{
    let k: i64 = fx_idiv(a, TWO_PI);
    proof {
        lemma_qdiv_remainder(a as int, TWO_PI as int);
        assert((k as int) * (TWO_PI as int) < i128::MAX && (k as int) * (TWO_PI as int)
            > i128::MIN) by (nonlinear_arith)
            requires
                i64::MIN <= k as int <= i64::MAX,
        ;
    }
    let r0w: i128 = a as i128 - (k as i128) * (TWO_PI as i128);
    let r0: i64 = r0w as i64;
    if r0 > PI {
        r0 - TWO_PI
    } else if r0 < -PI {
        r0 + TWO_PI
    } else {
        r0
    }
}

fn sin_poly_exec(x: i64) -> (r: i64)
    ensures
        r as int == sin_poly(x as int),
{
    let x2 = fx_mul(x, x);
    let x3 = fx_mul(x2, x);
    let x5 = fx_mul(x3, x2);
    let x7 = fx_mul(x5, x2);
    fx_sub(fx_add(fx_sub(x, fx_idiv(x3, 6)), fx_idiv(x5, 120)), fx_idiv(x7, 5040))
}

fn cos_poly_exec(x: i64) -> (r: i64)
    ensures
        r as int == cos_poly(x as int),
{
    let x2 = fx_mul(x, x);
    let x4 = fx_mul(x2, x2);
    let x6 = fx_mul(x4, x2);
    fx_sub(fx_add(fx_sub(SCALE, fx_idiv(x2, 2)), fx_idiv(x4, 24)), fx_idiv(x6, 720))
}

pub fn fx_sin(a: i64) -> (r: i64)
    ensures
        r as int == sin_val(a as int),
{
    let red = angle_reduce(a);
    let f = if red > HALF_PI {
        PI - red
    } else if red < -HALF_PI {
        -PI - red
    } else {
        red
    };
    fx_clamp(sin_poly_exec(f), -SCALE, SCALE)
}

pub fn fx_cos(a: i64) -> (r: i64)
    ensures
        r as int == cos_val(a as int),
{
    let red = angle_reduce(a);
    let c = if red > HALF_PI {
        -cos_poly_exec(PI - red)
    } else if red < -HALF_PI {
        -cos_poly_exec(PI + red)
    } else {
        cos_poly_exec(red)
    };
    fx_clamp(c, -SCALE, SCALE)
}

fn atan_poly_exec(z: i64) -> (r: i64)
    requires
        -FX_MAX <= z <= FX_MAX,
    ensures
        r as int == atan_poly(z as int),
{
    let a = fx_abs(z);
    fx_add(fx_mul(QUARTER_PI, z), fx_mul(fx_mul(ATAN_K, z), fx_sub(SCALE, a)))
}

pub fn fx_atan2(y: i64, x: i64) -> (r: i64)
    ensures
        r as int == atan2_val(y as int, x as int),
{
    if y == 0 && x == 0 {
        return 0;
    }
    let ay: i128 = if y < 0 {
        -(y as i128)
    } else {
        y as i128
    };
    let ax: i128 = if x < 0 {
        -(x as i128)
    } else {
        x as i128
    };
    if ay <= ax {
        let base = atan_poly_exec(fx_div(y, x));
        if x > 0 {
            base
        } else if y >= 0 {
            fx_add(base, PI)
        } else {
            fx_sub(base, PI)
        }
    } else {
        let base = atan_poly_exec(fx_div(x, y));
        if y > 0 {
            fx_sub(HALF_PI, base)
        } else {
            fx_sub(-HALF_PI, base)
        }
    }
}

pub fn fx_asin(z0: i64) -> (r: i64)
    ensures
        r as int == asin_val(z0 as int),
{
    let z = fx_clamp(z0, -SCALE, SCALE);
    let c = fx_sqrt(fx_sub(SCALE, fx_mul(z, z)));
    fx_atan2(z, c)
}

} // verus!
