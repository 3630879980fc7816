//! Fixed-point scalar arithmetic.
//!
//! A scalar is an `i64` counting millionths of a unit (`SCALE` raw steps make
//! one unit). Every operation saturates at `FX_MAX`, so every operation is
//! total and its result is pinned exactly by a spec-level counterpart:
//! `fx_add` returns `fxa`, `fx_mul` returns `fxm`, and so on. Division is
//! truncating (rounds toward zero) and yields 0 on a zero divisor, which the
//! geometry code uses for degenerate configurations.

use vstd::prelude::*;

verus! {

/// Raw steps per unit: scalars hold millionths.
pub const SCALE: i64 = 1_000_000;
/// Half a unit; also the default scale component of a new transform.
pub const HALF: i64 = 500_000;
/// Every arithmetic result saturates into [-FX_MAX, FX_MAX].
pub const FX_MAX: i64 = 1_000_000_000_000_000;
/// Threshold under which a ray direction component counts as parallel.
pub const EPS: i64 = 100;

pub open spec fn sat(x: int) -> int {
    if x > FX_MAX as int {
        FX_MAX as int
    } else if x < -(FX_MAX as int) {
        -(FX_MAX as int)
    } else {
        x
    }
}

pub open spec fn iabs(x: int) -> int {
    if x < 0 {
        -x
    } else {
        x
    }
}

/// Truncating integer division (rounds toward zero), 0 on a zero divisor.
pub open spec fn q_div(a: int, b: int) -> int {
    if b == 0 {
        0
    } else if a == 0 {
        0
    } else if a > 0 && b > 0 {
        a / b
    } else if a < 0 && b < 0 {
        (a * -1) / (b * -1)
    } else if a < 0 {
        ((a * -1) / b) * -1
    } else {
        (a / (b * -1)) * -1
    }
}

/// Saturating sum.
pub open spec fn fxa(a: int, b: int) -> int {
    sat(a + b)
}

/// Saturating difference.
pub open spec fn fxs(a: int, b: int) -> int {
    sat(a - b)
}

/// Saturating fixed-point product: (a * b) / SCALE, truncated.
pub open spec fn fxm(a: int, b: int) -> int {
    sat(q_div(a * b, SCALE as int))
}

/// Saturating fixed-point quotient: (a * SCALE) / b, truncated; 0 when b == 0.
pub open spec fn fxd(a: int, b: int) -> int {
    sat(q_div(a * (SCALE as int), b))
}

pub open spec fn fxclamp(x: int, lo: int, hi: int) -> int {
    if x < lo {
        lo
    } else if x > hi {
        hi
    } else {
        x
    }
}

pub open spec fn imin(a: int, b: int) -> int {
    if a < b {
        a
    } else {
        b
    }
}

pub open spec fn imax(a: int, b: int) -> int {
    if a < b {
        b
    } else {
        a
    }
}

fn sat_i128(x: i128) -> (r: i64)
    ensures
        r as int == sat(x as int),
{
    if x > FX_MAX as i128 {
        FX_MAX
    } else if x < -(FX_MAX as i128) {
        -FX_MAX
    } else {
        x as i64
    }
}

/// Truncating division on i128, 0 on a zero divisor.
fn div_i128(a: i128, b: i128) -> (r: i128)
    requires
        a != i128::MIN,
    ensures
        r as int == q_div(a as int, b as int),
{
    proof {
        if b != 0 {
            lemma_qdiv_abs_le(a as int, b as int);
        }
    }
    match a.checked_div(b) {
        Some(q) => q,
        None => 0,
    }
}

pub fn fx_add(a: i64, b: i64) -> (r: i64)
    ensures
        r as int == fxa(a as int, b as int),
{
    sat_i128(a as i128 + b as i128)
}

pub fn fx_sub(a: i64, b: i64) -> (r: i64)
    ensures
        r as int == fxs(a as int, b as int),
{
    sat_i128(a as i128 - b as i128)
}

pub fn fx_mul(a: i64, b: i64) -> (r: i64)
    ensures
        r as int == fxm(a as int, b as int),
{
    proof {
        let ai = a as int;
        let bi = b as int;
        assert(ai * bi < i128::MAX && ai * bi > i128::MIN) by (nonlinear_arith)
            requires
                i64::MIN <= ai <= i64::MAX,
                i64::MIN <= bi <= i64::MAX,
        ;
    }
    let p: i128 = a as i128 * b as i128;
    sat_i128(div_i128(p, SCALE as i128))
}

pub fn fx_div(a: i64, b: i64) -> (r: i64)
    ensures
        r as int == fxd(a as int, b as int),
{
    proof {
        let ai = a as int;
        assert(ai * (SCALE as int) < i128::MAX && ai * (SCALE as int) > i128::MIN)
            by (nonlinear_arith)
            requires
                i64::MIN <= ai <= i64::MAX,
        ;
    }
    let n: i128 = a as i128 * SCALE as i128;
    sat_i128(div_i128(n, b as i128))
}

pub fn fx_clamp(x: i64, lo: i64, hi: i64) -> (r: i64)
    requires
        lo <= hi,
    ensures
        r as int == fxclamp(x as int, lo as int, hi as int),
{
    if x < lo {
        lo
    } else if x > hi {
        hi
    } else {
        x
    }
}

pub fn fx_abs(a: i64) -> (r: i64)
    requires
        a != i64::MIN,
    ensures
        r as int == iabs(a as int),
{
    if a < 0 {
        -a
    } else {
        a
    }
}

/// Truncating division by a positive plain integer (not fixed-point scaled).
pub fn fx_idiv(a: i64, b: i64) -> (r: i64)
    requires
        b > 0,
    ensures
        r as int == q_div(a as int, b as int),
{
    let q = div_i128(a as i128, b as i128);
    proof {
        lemma_qdiv_abs_le(a as int, b as int);
    }
    q as i64
}

/// Holds when r is the integer square root of n.
pub open spec fn is_isqrt(n: int, r: int) -> bool {
    0 <= r && r * r <= n && n < (r + 1) * (r + 1)
}

/// Fixed-point square root: the integer square root of a * SCALE, so that
/// the result is again in fixed-point units; 0 for a non-positive argument.
pub open spec fn sqrt_val(a: int) -> int {
    if a <= 0 {
        0
    } else {
        choose|r: int| #[trigger] is_isqrt(a * (SCALE as int), r)
    }
}

pub proof fn lemma_isqrt_unique(n: int, r1: int, r2: int)
    requires
        is_isqrt(n, r1),
        is_isqrt(n, r2),
    ensures
        r1 == r2,
{
    if r1 < r2 {
        assert((r1 + 1) * (r1 + 1) <= r2 * r2) by (nonlinear_arith)
            requires
                0 <= r1,
                r1 < r2,
        ;
    }
    if r2 < r1 {
        assert((r2 + 1) * (r2 + 1) <= r1 * r1) by (nonlinear_arith)
            requires
                0 <= r2,
                r2 < r1,
        ;
    }
}

pub fn fx_sqrt(a: i64) -> (r: i64)
    ensures
        r as int == sqrt_val(a as int),
        r >= 0,
{
    if a <= 0 {
        return 0;
    }
    proof {
        assert((a as int) * (SCALE as int) < (3_100_000_000_000 as int) * 3_100_000_000_000)
            by (nonlinear_arith)
            requires
                0 < a as int <= i64::MAX,
        ;
    }
    let n: u128 = (a as u128) * (SCALE as u128);
    let mut lo: u64 = 0;
    let mut hi: u64 = 3_100_000_000_000;
    proof {
        assert((hi as int) * (hi as int) == (3_100_000_000_000 as int) * 3_100_000_000_000)
            by (nonlinear_arith)
            requires
                hi == 3_100_000_000_000u64,
        ;
    }
    while lo + 1 < hi
        invariant
            lo < hi <= 3_100_000_000_000,
            (lo as int) * (lo as int) <= n as int,
            (n as int) < (hi as int) * (hi as int),
        decreases hi - lo,
    {
        let mid: u64 = lo + (hi - lo) / 2;
        proof {
            assert((mid as int) * (mid as int) < u128::MAX as int) by (nonlinear_arith)
                requires
                    0 <= mid as int <= 3_100_000_000_000,
            ;
        }
        if (mid as u128) * (mid as u128) <= n {
            lo = mid;
        } else {
            hi = mid;
        }
    }
    proof {
        assert(hi == lo + 1);
        assert(is_isqrt(n as int, lo as int));
        assert(n as int == (a as int) * (SCALE as int));
        assert(exists|r: int| #[trigger] is_isqrt((a as int) * (SCALE as int), r));
        let c = choose|r: int| #[trigger] is_isqrt((a as int) * (SCALE as int), r);
        lemma_isqrt_unique((a as int) * (SCALE as int), c, lo as int);
    }
    lo as i64
}

/// Multiplying then dividing by the same positive number is exact.
pub proof fn lemma_qdiv_exact(a: int, b: int)
    requires
        b > 0,
    ensures
        q_div(a * b, b) == a,
{
    if a == 0 {
        assert(a * b == 0) by (nonlinear_arith)
            requires
                a == 0,
        ;
    } else if a > 0 {
        assert(a * b > 0) by (nonlinear_arith)
            requires
                a > 0,
                b > 0,
        ;
        assert((a * b) / b == a) by {
            vstd::arithmetic::div_mod::lemma_div_multiples_vanish(a, b);
            assert(a * b == b * a) by (nonlinear_arith);
        }
    } else {
        assert(a * b < 0) by (nonlinear_arith)
            requires
                a < 0,
                b > 0,
        ;
        assert((a * b) * -1 == (-a) * b) by (nonlinear_arith);
        assert(((-a) * b) / b == -a) by {
            vstd::arithmetic::div_mod::lemma_div_multiples_vanish(-a, b);
            assert((-a) * b == b * (-a)) by (nonlinear_arith);
        }
    }
}

/// Negating numerator and divisor leaves a truncating quotient unchanged.
pub proof fn lemma_qdiv_neg_neg(a: int, b: int)
    requires
        a >= 0,
        b > 0,
    ensures
        q_div(-a, -b) == q_div(a, b),
{
    if a != 0 {
        assert((-a) * -1 == a);
        assert((-b) * -1 == b);
    }
}

/// A fixed-point product with one is exact.
pub proof fn lemma_fxm_unit(a: int)
    requires
        iabs(a) <= FX_MAX as int,
    ensures
        fxm(a, SCALE as int) == a,
        fxm(SCALE as int, a) == a,
{
    lemma_qdiv_exact(a, SCALE as int);
    assert((SCALE as int) * a == a * (SCALE as int)) by (nonlinear_arith);
}

/// A fixed-point product with two is exact while the result stays in
/// range.
pub proof fn lemma_fxm_double(a: int)
    requires
        2 * iabs(a) <= FX_MAX as int,
    ensures
        fxm(a, 2 * (SCALE as int)) == 2 * a,
        fxm(2 * (SCALE as int), a) == 2 * a,
{
    lemma_qdiv_exact(2 * a, SCALE as int);
    assert(a * (2 * (SCALE as int)) == (2 * a) * (SCALE as int)) by (nonlinear_arith);
    assert((2 * (SCALE as int)) * a == (2 * a) * (SCALE as int)) by (nonlinear_arith);
}

/// A fixed-point product with zero is zero.
pub proof fn lemma_fxm_zero(a: int)
    ensures
        fxm(a, 0) == 0,
        fxm(0, a) == 0,
{
    assert(a * 0 == 0) by (nonlinear_arith);
    assert(0 * a == 0) by (nonlinear_arith);
}

/// The remainder a - q_div(a, b) * b lies strictly within (-b, b) and has
/// the sign of a.
pub proof fn lemma_qdiv_remainder(a: int, b: int)
    requires
        b > 0,
    ensures
        iabs(a - q_div(a, b) * b) < b,
        a >= 0 ==> a - q_div(a, b) * b >= 0,
        a <= 0 ==> a - q_div(a, b) * b <= 0,
{
    if a == 0 {
        assert(q_div(a, b) * b == 0) by (nonlinear_arith)
            requires
                q_div(a, b) == 0,
        ;
    } else if a > 0 {
        let q = a / b;
        vstd::arithmetic::div_mod::lemma_fundamental_div_mod(a, b);
        vstd::arithmetic::div_mod::lemma_mod_bound(a, b);
        assert(b * q == q * b) by (nonlinear_arith);
        assert(a - q * b == a % b);
    } else {
        let n = -a;
        let q = n / b;
        vstd::arithmetic::div_mod::lemma_fundamental_div_mod(n, b);
        vstd::arithmetic::div_mod::lemma_mod_bound(n, b);
        assert(b * q == q * b) by (nonlinear_arith);
        assert(n - q * b == n % b);
        assert(q_div(a, b) == q * -1);
        assert((q * -1) * b == -(q * b)) by (nonlinear_arith);
        assert(a - q_div(a, b) * b == -(n % b));
    }
}

/// |q_div(a, b)| <= |a| whenever |b| >= 1.
pub proof fn lemma_qdiv_abs_le(a: int, b: int)
    requires
        b != 0,
    ensures
        iabs(q_div(a, b)) <= iabs(a),
{
    let ua = iabs(a);
    let ub = iabs(b);
    if a != 0 {
        assert(ua / ub <= ua) by {
            let q = ua / ub;
            let m = ua % ub;
            vstd::arithmetic::div_mod::lemma_fundamental_div_mod(ua, ub);
            assert(ua == ub * q + m);
            assert(q >= 0) by {
                vstd::arithmetic::div_mod::lemma_div_pos_is_pos(ua, ub);
            }
            assert(ub * q >= q) by (nonlinear_arith)
                requires
                    ub >= 1,
                    q >= 0,
            ;
        }
        assert(q_div(a, b) == ua / ub || q_div(a, b) == (ua / ub) * -1);
    }
}

} // verus!
