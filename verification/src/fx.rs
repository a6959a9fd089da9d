//! Fixed-point scalars: `i64` values carrying `SCALE` units per 1.0.
//!
//! Every operation saturates at `FX_MAX` / `FX_MIN` instead of overflowing,
//! and division by zero yields 0; the operations are total, and each one is
//! specified exactly by a spec function over mathematical integers.

use vstd::prelude::*;

verus! {

/// Number of raw units per 1.0 (two to the 24th power).
pub const SCALE: i64 = 16777216;

/// One half, in raw units.
pub const HALF: i64 = 8388608;

/// Largest representable raw value.
pub const FX_MAX: i64 = 9223372036854775807;

/// Smallest representable raw value; symmetric to `FX_MAX` so that negation
/// is always exact.
pub const FX_MIN: i64 = -9223372036854775807;

/// Distance treated as "no hit": 30000.0 in raw units.
pub const INFINITY: i64 = 30000 * SCALE;

/// Clamps a mathematical integer into the representable band.
pub open spec fn sat(x: int) -> int {
    if x > FX_MAX {
        FX_MAX as int
    } else if x < FX_MIN {
        FX_MIN as int
    } else {
        x
    }
}

/// Integer division truncated toward zero (the rounding of Rust's `/`),
/// total: division by zero yields 0.
pub open spec fn tdiv(a: int, b: int) -> int {
    if b == 0 {
        0
    } else if a >= 0 && b > 0 {
        a / b
    } else if a < 0 && b > 0 {
        -((-a) / b)
    } else if a >= 0 && b < 0 {
        -(a / (-b))
    } else {
        (-a) / (-b)
    }
}

/// Saturating fixed-point addition.
pub open spec fn fxadd(a: int, b: int) -> int {
    sat(a + b)
}

/// Saturating fixed-point subtraction.
pub open spec fn fxsub(a: int, b: int) -> int {
    sat(a - b)
}

/// Fixed-point negation (exact, because the band is symmetric).
pub open spec fn fxneg(a: int) -> int {
    sat(-a)
}

/// Saturating fixed-point multiplication: the double-width product scaled
/// back down, truncated toward zero.
pub open spec fn fxmul(a: int, b: int) -> int {
    sat(tdiv(a * b, SCALE as int))
}

/// Saturating fixed-point division; division by zero yields 0.
pub open spec fn fxdiv(a: int, b: int) -> int {
    if b == 0 {
        0
    } else {
        sat(tdiv(a * SCALE, b))
    }
}

/// Mathematical absolute value, without clamping.
pub open spec fn iabs(a: int) -> int {
    if a < 0 {
        -a
    } else {
        a
    }
}

/// Saturating absolute value.
pub open spec fn fxabs(a: int) -> int {
    if a < 0 {
        sat(-a)
    } else {
        sat(a)
    }
}

/// `r` is the integer square root of `n`.
pub open spec fn is_isqrt(n: int, r: int) -> bool {
    0 <= r && r * r <= n && n < (r + 1) * (r + 1)
}

/// The integer square root (meaningful for `n >= 0`, see `lemma_isqrt_exists`).
pub open spec fn isqrt(n: int) -> int {
    choose|r: int| is_isqrt(n, r)
}

/// Fixed-point square root: the integer square root of the value brought up
/// to squared units. Negative input yields 0.
pub open spec fn fxsqrt(a: int) -> int {
    if a < 0 {
        0
    } else {
        isqrt(a * SCALE)
    }
}

/// Fixed-point exponentiation by a non-negative integer, as a left-to-right
/// product chain starting at 1.0.
pub open spec fn fxpow(x: int, n: nat) -> int
    decreases n,
{
    if n == 0 {
        SCALE as int
    } else {
        fxmul(fxpow(x, (n - 1) as nat), x)
    }
}

/// Fixed-point exponentiation by a signed integer: the reciprocal for
/// negative exponents.
pub open spec fn fxpowi(x: int, p: int) -> int {
    if p >= 0 {
        fxpow(x, p as nat)
    } else {
        fxdiv(SCALE as int, fxpow(x, (-p) as nat))
    }
}

/// Clamps a double-width intermediate into the representable band.
fn sat64(x: i128) -> (r: i64)
    ensures
        r as int == sat(x as int),
{
    if x > FX_MAX as i128 {
        FX_MAX
    } else if x < FX_MIN as i128 {
        FX_MIN
    } else {
        x as i64
    }
}

/// Double-width division truncated toward zero.
fn tdiv128(a: i128, b: i128) -> (r: i64)
    requires
        a > i128::MIN,
        b > i128::MIN,
        b != 0,
    ensures
        r as int == sat(tdiv(a as int, b as int)),
{
    let ua: u128 = if a >= 0 {
        a as u128
    } else {
        (-a) as u128
    };
    let ub: u128 = if b >= 0 {
        b as u128
    } else {
        (-b) as u128
    };
    let q: u128 = ua / ub;
    assert(q <= ua);
    if (a >= 0) == (b >= 0) {
        sat64(q as i128)
    } else {
        sat64(-(q as i128))
    }
}

/// Saturating fixed-point addition.
pub fn fx_add(a: i64, b: i64) -> (r: i64)
    ensures
        r as int == fxadd(a as int, b as int),
{
    sat64(a as i128 + b as i128)
}

/// Saturating fixed-point subtraction.
pub fn fx_sub(a: i64, b: i64) -> (r: i64)
    ensures
        r as int == fxsub(a as int, b as int),
{
    sat64(a as i128 - b as i128)
}

/// Fixed-point negation.
pub fn fx_neg(a: i64) -> (r: i64)
    ensures
        r as int == fxneg(a as int),
{
    sat64(-(a as i128))
}

/// Saturating fixed-point multiplication.
pub fn fx_mul(a: i64, b: i64) -> (r: i64)
    ensures
        r as int == fxmul(a as int, b as int),
{
    assert(i128::MIN < (a as i128) * (b as i128) && (a as i128) * (b as i128) < i128::MAX)
        by (nonlinear_arith)
        requires
            i64::MIN <= a <= i64::MAX,
            i64::MIN <= b <= i64::MAX,
    ;
    let p: i128 = (a as i128) * (b as i128);
    tdiv128(p, SCALE as i128)
}

/// Saturating fixed-point division; division by zero yields 0.
pub fn fx_div(a: i64, b: i64) -> (r: i64)
    ensures
        r as int == fxdiv(a as int, b as int),
{
    if b == 0 {
        0
    } else {
        let n: i128 = (a as i128) * 16777216;
        tdiv128(n, b as i128)
    }
}

/// Absolute value.
pub fn fx_abs(a: i64) -> (r: i64)
    ensures
        r as int == fxabs(a as int),
{
    if a < 0 {
        fx_neg(a)
    } else {
        a
    }
}

/// The integer square root exists for every non-negative argument, and
/// `isqrt` denotes it.
pub proof fn lemma_isqrt_exists(n: int)
    requires
        n >= 0,
    ensures
        is_isqrt(n, isqrt(n)),
    decreases n,
{
    if n == 0 {
        assert(is_isqrt(0, 0));
    } else {
        lemma_isqrt_exists(n - 1);
        let r = isqrt(n - 1);
        if n < (r + 1) * (r + 1) {
            assert(is_isqrt(n, r));
        } else {
            assert(n == (r + 1) * (r + 1));
            assert((r + 1) * (r + 1) < (r + 2) * (r + 2)) by (nonlinear_arith)
                requires
                    r >= 0,
            ;
            assert(is_isqrt(n, r + 1));
        }
    }
}

/// The integer square root is unique.
pub proof fn lemma_isqrt_unique(n: int, r: int)
    requires
        n >= 0,
        is_isqrt(n, r),
    ensures
        r == isqrt(n),
{
    lemma_isqrt_exists(n);
    let w = isqrt(n);
    assert(r <= w) by (nonlinear_arith)
        requires
            is_isqrt(n, r),
            is_isqrt(n, w),
    ;
    assert(w <= r) by (nonlinear_arith)
        requires
            is_isqrt(n, r),
            is_isqrt(n, w),
    ;
}

/// What the fixed-point square root returns: the exact integer square root
/// of the value brought up to squared units.
pub proof fn lemma_fxsqrt_bounds(a: int)
    requires
        a >= 0,
    ensures
        is_isqrt(a * SCALE, fxsqrt(a)),
{
    lemma_isqrt_exists(a * SCALE);
}

/// Saturating fixed-point square root.
pub fn fx_sqrt(a: i64) -> (r: i64)
    ensures
        r as int == fxsqrt(a as int),
{
    if a < 0 {
        return 0;
    }
    let n: u128 = (a as u128) * 16777216;
    let mut lo: u128 = 0;
    let mut hi: u128 = 17592186044416;
    assert(n < hi * hi) by (nonlinear_arith)
        requires
            hi == 17592186044416,
            n <= (i64::MAX as u128) * 16777216,
    ;
    while lo + 1 < hi
        invariant
            lo < hi,
            hi <= 17592186044416,
            lo * lo <= n,
            n < hi * hi,
        decreases hi - lo,
    {
        let mid: u128 = lo + (hi - lo) / 2;
        assert(mid * mid < u128::MAX) by (nonlinear_arith)
            requires
                mid < 17592186044416,
        ;
        if mid * mid <= n {
            lo = mid;
        } else {
            hi = mid;
        }
    }
    assert(is_isqrt(n as int, lo as int));
    proof {
        lemma_isqrt_unique(n as int, lo as int);
    }
    lo as i64
}

/// Saturating fixed-point power with a signed exponent.
pub fn fx_powi(x: i64, p: i32) -> (r: i64)
    ensures
        r as int == fxpowi(x as int, p as int),
{
    let n: u64 = if p >= 0 {
        p as u64
    } else {
        (-(p as i64)) as u64
    };
    let mut acc: i64 = SCALE;
    let mut i: u64 = 0;
    while i < n
        invariant
            i <= n,
            acc as int == fxpow(x as int, i as nat),
        decreases n - i,
    {
        acc = fx_mul(acc, x);
        i = i + 1;
    }
    if p >= 0 {
        acc
    } else {
        fx_div(SCALE, acc)
    }
}

/// Double-width division truncated toward zero and clamped into the band;
/// division by zero yields 0.
pub fn wide_div(a: i128, b: i128) -> (r: i64)
    requires
        a > i128::MIN,
        b > i128::MIN,
    ensures
        r as int == sat(tdiv(a as int, b as int)),
{
    if b == 0 {
        0
    } else {
        tdiv128(a, b)
    }
}

/// An integer count brought up to fixed-point units.
pub fn fx_from_u32(v: u32) -> (r: i64)
    ensures
        r as int == v as int * SCALE,
{
    (v as i64) * SCALE
}

/// A wide integer count brought up to fixed-point units, saturating.
pub fn fx_from_u64(v: u64) -> (r: i64)
    ensures
        r as int == sat(v as int * SCALE),
{
    sat64((v as i128) * 16777216)
}

/// The square of a moderate value scales down exactly: `fxmul(a, a)` is the
/// Euclidean quotient of the square by `SCALE`, sandwiching the square
/// within one scale unit.
pub proof fn lemma_fxmul_square_bounds(a: int)
    requires
        -1099511627776 <= a <= 1099511627776,
    ensures
        fxmul(a, a) == (a * a) / (SCALE as int),
        SCALE * fxmul(a, a) <= a * a < SCALE * fxmul(a, a) + SCALE,
        0 <= fxmul(a, a) <= 72057594037927936,
{
    assert(0 <= a * a <= 1099511627776 * 1099511627776) by (nonlinear_arith)
        requires
            -1099511627776 <= a <= 1099511627776,
    ;
    vstd::arithmetic::div_mod::lemma_fundamental_div_mod(a * a, SCALE as int);
    vstd::arithmetic::div_mod::lemma_div_pos_is_pos(a * a, SCALE as int);
    vstd::arithmetic::div_mod::lemma_div_is_ordered(
        a * a,
        1099511627776int * 1099511627776,
        SCALE as int,
    );
}

/// Truncated division by a positive divisor, squared: the scaled-back
/// quotient's square never exceeds the numerator's, and misses it by less
/// than one divisor-sized step.
pub proof fn lemma_tdiv_square_bounds(w: int, l: int)
    requires
        l > 0,
    ensures
        (l * tdiv(w, l)) * (l * tdiv(w, l)) <= w * w,
        w * w < (l * tdiv(w, l)) * (l * tdiv(w, l)) + 2 * l * iabs(w) + l * l,
        iabs(tdiv(w, l)) * l <= iabs(w),
{
    let u = if w >= 0 {
        w
    } else {
        -w
    };
    let m = u / l;
    vstd::arithmetic::div_mod::lemma_fundamental_div_mod(u, l);
    vstd::arithmetic::div_mod::lemma_div_pos_is_pos(u, l);
    assert(l * m <= u < l * m + l);
    let q = tdiv(w, l);
    assert(q == m || q == -m);
    assert((l * q) * (l * q) == (l * m) * (l * m)) by (nonlinear_arith)
        requires
            q == m || q == -m,
    ;
    assert((l * m) * (l * m) <= u * u) by (nonlinear_arith)
        requires
            0 <= l * m <= u,
    ;
    assert(u * u == w * w) by (nonlinear_arith)
        requires
            u == w || u == -w,
    ;
    assert(u * u < (l * m) * (l * m) + 2 * l * u + l * l) by (nonlinear_arith)
        requires
            0 <= l * m <= u,
            u < l * m + l,
            l > 0,
    ;
    assert(m * l <= u);
}

/// A square is never negative.
pub proof fn lemma_fxmul_square_nonneg(a: int)
    ensures
        fxmul(a, a) >= 0,
{
    assert(a * a >= 0) by (nonlinear_arith);
    vstd::arithmetic::div_mod::lemma_div_pos_is_pos(a * a, SCALE as int);
}

/// Multiplication of non-negative factors is monotone in both factors and
/// stays non-negative.
pub proof fn lemma_fxmul_monotone(a1: int, k1: int, a2: int, k2: int)
    requires
        0 <= a2 <= a1,
        0 <= k2 <= k1,
    ensures
        0 <= fxmul(a2, k2) <= fxmul(a1, k1),
{
    assert(0 <= a2 * k2 <= a1 * k1) by (nonlinear_arith)
        requires
            0 <= a2 <= a1,
            0 <= k2 <= k1,
    ;
    vstd::arithmetic::div_mod::lemma_div_is_ordered(a2 * k2, a1 * k1, SCALE as int);
    vstd::arithmetic::div_mod::lemma_div_pos_is_pos(a2 * k2, SCALE as int);
}

} // verus!
