//! Saturating signed fixed-point scalars.
//!
//! A scalar is an `i64` holding a real quantity times [`FIX_ONE`] (one
//! millionth steps).  Every operation clamps its result into
//! `[-FIX_LIMIT, FIX_LIMIT]`, so the arithmetic is total: no operation
//! overflows and none needs a precondition beyond a nonzero divisor.

use vstd::prelude::*;

verus! {

/// The fixed-point representation of the real number one.
pub const FIX_ONE: i64 = 1_000_000;

/// Largest magnitude a scalar may hold (one million units).
pub const FIX_LIMIT: i64 = 1_000_000_000_000;

/// Bounds of the truncating quotient from bounds of the dividend.
pub proof fn lemma_div_trunc_bound(n: int, d: int, b: int)
    requires d > 0, 0 <= b, -b <= n <= b
    ensures -(b / d) <= div_trunc(n, d) <= b / d
{
    if n >= 0 {
        vstd::arithmetic::div_mod::lemma_div_pos_is_pos(n, d);
        vstd::arithmetic::div_mod::lemma_div_is_ordered(n, b, d);
    } else {
        vstd::arithmetic::div_mod::lemma_div_pos_is_pos(-n, d);
        vstd::arithmetic::div_mod::lemma_div_is_ordered(-n, b, d);
    }
}

/// The truncating quotient keeps the sign of the dividend and shrinks it.
pub proof fn lemma_div_trunc_sign(n: int, d: int)
    requires d > 0
    ensures
        n >= 0 ==> 0 <= div_trunc(n, d) <= n,
        n < 0 ==> n <= div_trunc(n, d) <= 0,
{
    if n >= 0 {
        vstd::arithmetic::div_mod::lemma_div_pos_is_pos(n, d);
        vstd::arithmetic::div_mod::lemma_div_basics_5(n, d);
    } else {
        vstd::arithmetic::div_mod::lemma_div_pos_is_pos(-n, d);
        vstd::arithmetic::div_mod::lemma_div_basics_5(-n, d);
    }
}

/// Whether a scalar lies inside the representable range.
pub open spec fn fix_in_range(a: int) -> bool {
    -FIX_LIMIT <= a <= FIX_LIMIT
}

/// `r` is the integer square root of `n`.
pub open spec fn is_isqrt(r: int, n: int) -> bool {
    0 <= r && r * r <= n < (r + 1) * (r + 1)
}

/// The integer square root as a function, by unary recursion.
pub open spec fn spec_isqrt(n: int) -> int
    decreases n
{
    if n <= 0 {
        0
    } else {
        let p = spec_isqrt(n - 1);
        if (p + 1) * (p + 1) <= n { p + 1 } else { p }
    }
}

/// `spec_isqrt` satisfies the square-root characterization.
pub proof fn lemma_spec_isqrt(n: int)
    requires 0 <= n
    ensures is_isqrt(spec_isqrt(n), n)
    decreases n
{
    if n == 0 {
    } else {
        lemma_spec_isqrt(n - 1);
        let p = spec_isqrt(n - 1);
        if (p + 1) * (p + 1) <= n {
            assert((p + 1 + 1) * (p + 1 + 1) > (p + 1) * (p + 1)) by (nonlinear_arith)
                requires p >= 0,
            ;
        }
    }
}

/// Any root meeting the characterization is `spec_isqrt`.
pub proof fn lemma_isqrt_value(r: int, n: int)
    requires 0 <= n, is_isqrt(r, n)
    ensures r == spec_isqrt(n)
{
    lemma_spec_isqrt(n);
    lemma_isqrt_unique(r, spec_isqrt(n), n);
}

/// A quotient is bounded by any multiple of the divisor above the dividend.
pub proof fn lemma_div_le(n: int, d: int, c: int)
    requires 0 <= n, 0 < d, 0 <= c, n <= c * d
    ensures 0 <= n / d <= c
{
    vstd::arithmetic::div_mod::lemma_div_pos_is_pos(n, d);
    if n / d > c {
        vstd::arithmetic::div_mod::lemma_fundamental_div_mod(n, d);
        assert(d * (n / d) >= d * (c + 1)) by (nonlinear_arith)
            requires n / d >= c + 1, d > 0,
        ;
        assert(d * (c + 1) > c * d) by (nonlinear_arith)
            requires d > 0,
        ;
    }
}

/// The integer square root is unique: any two roots of `n` are equal.
pub proof fn lemma_isqrt_unique(r1: int, r2: int, n: int)
    requires is_isqrt(r1, n), is_isqrt(r2, n)
    ensures r1 == r2
{
    if r1 < r2 {
        assert((r1 + 1) * (r1 + 1) <= r2 * r2) by (nonlinear_arith)
            requires 0 <= r1, 0 <= r2, r1 < r2,
        ;
    }
    if r2 < r1 {
        assert((r2 + 1) * (r2 + 1) <= r1 * r1) by (nonlinear_arith)
            requires 0 <= r1, 0 <= r2, r2 < r1,
        ;
    }
}

/// Linear interpolation `a + (b - a) * t`, in saturating fixed point.
pub open spec fn spec_lerp(a: int, b: int, t: int) -> int {
    spec_add(a, spec_mul(spec_sub(b, a), t))
}

pub fn fix_lerp(a: i64, b: i64, t: i64) -> (r: i64)
    ensures r == spec_lerp(a as int, b as int, t as int)
{
    fix_add(a, fix_mul(fix_sub(b, a), t))
}

/// Clamp of a mathematical integer into the representable range.
pub open spec fn spec_clamp(v: int) -> int {
    if v < -FIX_LIMIT { -FIX_LIMIT as int } else if v > FIX_LIMIT { FIX_LIMIT as int } else { v }
}

/// Quotient rounded toward zero, for a positive divisor.
pub open spec fn div_trunc(n: int, d: int) -> int
    recommends d > 0
{
    if n >= 0 { n / d } else { -((-n) / d) }
}

/// Saturating fixed-point addition.
pub open spec fn spec_add(a: int, b: int) -> int {
    spec_clamp(a + b)
}

/// Saturating fixed-point subtraction.
pub open spec fn spec_sub(a: int, b: int) -> int {
    spec_clamp(a - b)
}

/// Saturating fixed-point product: `a * b` rescaled, rounded toward zero.
pub open spec fn spec_mul(a: int, b: int) -> int {
    spec_clamp(div_trunc(a * b, FIX_ONE as int))
}

/// Saturating fixed-point quotient: `a / b` rescaled, rounded toward zero.
pub open spec fn spec_div(a: int, b: int) -> int
    recommends b != 0
{
    if b >= 0 {
        spec_clamp(div_trunc(a * FIX_ONE, b))
    } else {
        spec_clamp(div_trunc(-(a * FIX_ONE), -b))
    }
}

pub fn fix_add(a: i64, b: i64) -> (r: i64)
    ensures r == spec_add(a as int, b as int)
{
    let wide: i128 = a as i128 + b as i128;
    clamp_wide(wide)
}

pub fn fix_sub(a: i64, b: i64) -> (r: i64)
    ensures r == spec_sub(a as int, b as int)
{
    let wide: i128 = a as i128 - b as i128;
    clamp_wide(wide)
}

pub fn fix_mul(a: i64, b: i64) -> (r: i64)
    ensures r == spec_mul(a as int, b as int)
{
    proof {
        assert(-(0x8000_0000_0000_0000i128 * 0x8000_0000_0000_0000i128) <= (a as i128) * (
        b as i128) <= 0x8000_0000_0000_0000i128 * 0x8000_0000_0000_0000i128) by (nonlinear_arith)
            requires
                -0x8000_0000_0000_0000i128 <= a as i128 <= 0x7fff_ffff_ffff_ffffi128,
                -0x8000_0000_0000_0000i128 <= b as i128 <= 0x7fff_ffff_ffff_ffffi128,
        ;
    }
    let wide: i128 = (a as i128) * (b as i128);
    let q: i128 = wide / (FIX_ONE as i128);
    assert(q == div_trunc(a as int * b as int, FIX_ONE as int));
    clamp_wide(q)
}

pub fn fix_div(a: i64, b: i64) -> (r: i64)
    requires b != 0
    ensures r == spec_div(a as int, b as int)
{
    proof {
        assert(-(0x8000_0000_0000_0000i128 * 0x10_0000i128) <= (a as i128) * (FIX_ONE as i128)
            <= 0x8000_0000_0000_0000i128 * 0x10_0000i128) by (nonlinear_arith)
            requires
                -0x8000_0000_0000_0000i128 <= a as i128 <= 0x7fff_ffff_ffff_ffffi128,
                0 <= FIX_ONE as i128 <= 0x10_0000i128,
        ;
    }
    let (num, den): (i128, i128) = if b < 0 {
        (-(a as i128 * FIX_ONE as i128), -(b as i128))
    } else {
        (a as i128 * FIX_ONE as i128, b as i128)
    };
    let q: i128 = num / den;
    assert(q == div_trunc(num as int, den as int));
    clamp_wide(q)
}

/// The fixed-point quotient keeps the sign of the real quotient, and a
/// dividend no larger than the divisor gives a quotient within one.
pub proof fn lemma_spec_div_props(a: int, b: int)
    requires b != 0
    ensures
        (a >= 0 && b > 0) || (a <= 0 && b < 0) ==> spec_div(a, b) >= 0,
        (a <= 0 && b > 0) || (a >= 0 && b < 0) ==> spec_div(a, b) <= 0,
        -b <= a <= b || b <= a <= -b ==> -FIX_ONE <= spec_div(a, b) <= FIX_ONE,
{
    let s = FIX_ONE as int;
    if b > 0 {
        lemma_div_trunc_sign(a * s, b);
        if a >= 0 {
            assert(a * s >= 0) by (nonlinear_arith) requires a >= 0, s > 0;
        } else {
            assert(a * s <= 0) by (nonlinear_arith) requires a <= 0, s > 0;
        }
        if -b <= a <= b {
            if a >= 0 {
                assert(a * s <= s * b) by (nonlinear_arith) requires a <= b, s > 0;
                lemma_div_le(a * s, b, s);
            } else {
                assert(-(a * s) <= s * b) by (nonlinear_arith) requires -a <= b, s > 0;
                lemma_div_le(-(a * s), b, s);
            }
        }
    } else {
        lemma_div_trunc_sign(-(a * s), -b);
        if a >= 0 {
            assert(a * s >= 0) by (nonlinear_arith) requires a >= 0, s > 0;
        } else {
            assert(a * s <= 0) by (nonlinear_arith) requires a <= 0, s > 0;
        }
        if b <= a <= -b {
            if a >= 0 {
                assert(a * s <= s * (-b)) by (nonlinear_arith) requires a <= -b, s > 0;
                lemma_div_le(a * s, -b, s);
            } else {
                assert(-(a * s) <= s * (-b)) by (nonlinear_arith) requires -a <= -b, s > 0;
                lemma_div_le(-(a * s), -b, s);
            }
        }
    }
}

/// Saturating negation.
pub open spec fn spec_neg(a: int) -> int {
    spec_clamp(-a)
}

pub fn fix_neg(a: i64) -> (r: i64)
    ensures r == spec_neg(a as int)
{
    clamp_wide(-(a as i128))
}

/// Magnitude, clamped like every other result.
pub open spec fn spec_abs(a: int) -> int {
    spec_clamp(if a < 0 { -a } else { a })
}

pub fn fix_abs(a: i64) -> (r: i64)
    ensures r == spec_abs(a as int)
{
    if a < 0 { clamp_wide(-(a as i128)) } else { clamp_wide(a as i128) }
}

pub fn fix_clamp(v: i64, lo: i64, hi: i64) -> (r: i64)
    requires lo <= hi
    ensures
        r == if v < lo { lo as int } else if v > hi { hi as int } else { v as int },
        lo <= r <= hi,
{
    if v < lo { lo } else if v > hi { hi } else { v }
}

pub fn fix_max(a: i64, b: i64) -> (r: i64)
    ensures r == if a >= b { a as int } else { b as int }
{
    if a >= b { a } else { b }
}

pub fn fix_min(a: i64, b: i64) -> (r: i64)
    ensures r == if a <= b { a as int } else { b as int }
{
    if a <= b { a } else { b }
}

/// A square within symmetric bounds is bounded by the bound's square.
pub proof fn lemma_square_bound(a: int, m: int)
    by (nonlinear_arith)
    requires -m <= a <= m, 0 <= m
    ensures 0 <= a * a <= m * m
{
}

/// A square root of a sum of up to three squares of scalars within
/// `[-m, m]` is at most `2 m`.
pub proof fn lemma_isqrt_le_double(r: int, n: int, m: int)
    requires is_isqrt(r, n), 0 <= n <= 3 * (m * m), 0 <= m
    ensures r <= 2 * m
{
    if r > 2 * m {
        assert(r * r >= (2 * m + 1) * (2 * m + 1)) by (nonlinear_arith)
            requires r > 2 * m, 0 <= m,
        ;
        assert((2 * m + 1) * (2 * m + 1) > 3 * (m * m)) by (nonlinear_arith)
            requires 0 <= m,
        ;
    }
}

/// Integer square root by bisection.
pub fn isqrt(n: u128) -> (r: u128)
    requires n < 0x4000_0000_0000_0000_0000_0000_0000_0000u128
    ensures
        r * r <= n,
        n < (r + 1) * (r + 1),
        r < 0x8000_0000_0000_0000u128,
        r == spec_isqrt(n as int),
{
    if n == 0 {
        proof { lemma_isqrt_value(0, 0); }
        return 0;
    }
    let mut lo: u128 = 0;
    let mut hi: u128 = 0x8000_0000_0000_0000u128;
    proof {
        assert(hi * hi > n) by (nonlinear_arith)
            requires
                hi == 0x8000_0000_0000_0000u128,
                n < 0x4000_0000_0000_0000_0000_0000_0000_0000u128,
        ;
    }
    while lo + 1 < hi
        invariant
            lo < hi <= 0x8000_0000_0000_0000u128,
            lo * lo <= n,
            hi * hi > n,
        decreases hi - lo
    {
        let mid: u128 = lo + (hi - lo) / 2;
        if mid <= n / mid {
            proof {
                assert(mid * mid <= n) by (nonlinear_arith)
                    requires mid <= n / mid, mid > 0, n / mid <= n,
                ;
            }
            lo = mid;
        } else {
            proof {
                assert(mid * mid > n) by (nonlinear_arith)
                    requires mid > n / mid, mid > 0,
                ;
            }
            hi = mid;
        }
    }
    proof { lemma_isqrt_value(lo as int, n as int); }
    lo
}

fn clamp_wide(v: i128) -> (r: i64)
    ensures r == spec_clamp(v as int)
{
    if v < -FIX_LIMIT as i128 {
        -FIX_LIMIT
    } else if v > FIX_LIMIT as i128 {
        FIX_LIMIT
    } else {
        v as i64
    }
}

} // verus!
