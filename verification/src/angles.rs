//! Fixed-point angles and the trigonometry the controller needs.
//!
//! Angles are `i64` scalars holding radians times [`FIX_ONE`].  The sine and
//! cosine below reduce their argument to a quarter wave and evaluate a
//! truncated Taylor polynomial; the arc tangent uses a quadratic
//! approximation.  Each function's contract states the computed value
//! exactly, and the lemmas give the sign and range facts the controller's
//! invariants rest on.

use vstd::prelude::*;

use crate::fixed::{
    FIX_LIMIT, FIX_ONE, div_trunc, fix_abs, fix_add, fix_div, fix_mul, fix_sub, isqrt,
    lemma_div_trunc_bound, lemma_div_trunc_sign, lemma_isqrt_le_double, lemma_spec_div_props,
    lemma_square_bound, spec_abs, spec_add, spec_div, spec_isqrt, spec_mul, spec_sub,
};
use crate::vectors::Vec3Fix;

verus! {

/// Pi in fixed-point radians.
pub const PI_FIX: i64 = 3_141_593;

/// Half pi in fixed-point radians.
pub const HALF_PI_FIX: i64 = 1_570_796;

/// Quarter pi in fixed-point radians.
pub const QUARTER_PI_FIX: i64 = 785_398;

/// Two pi in fixed-point radians.
pub const TAU_FIX: i64 = 6_283_185;

/// Correction coefficient of the arc-tangent approximation.
pub const ATAN_K: i64 = 273_000;

/// An angle reduced into `[-PI_FIX, PI_FIX]`, congruent to `x` modulo a turn.
pub open spec fn spec_reduce(x: int) -> int {
    let m = x % (TAU_FIX as int);
    if m > PI_FIX { m - TAU_FIX } else { m }
}

fn reduce_angle(x: i128) -> (m: i64)
    ensures m == spec_reduce(x as int), -PI_FIX <= m <= PI_FIX
{
    let t: i128 = x % (TAU_FIX as i128);
    let e: i128 = if t < 0 { t + TAU_FIX as i128 } else { t };
    assert(e == x as int % (TAU_FIX as int));
    let m: i128 = if e > PI_FIX as i128 { e - TAU_FIX as i128 } else { e };
    m as i64
}

/// The quarter-wave Taylor polynomial of the sine, clamped to `[-1, 1]`.
#[verifier::opaque]
pub open spec fn spec_sin_quarter(t: int) -> int {
    let s = FIX_ONE as int;
    let t2 = div_trunc(t * t, s);
    let t3 = div_trunc(t2 * t, s);
    let t5 = div_trunc(t3 * t2, s);
    let t7 = div_trunc(t5 * t2, s);
    let raw = t - div_trunc(t3, 6) + div_trunc(t5, 120) - div_trunc(t7, 5040);
    if raw < -s { -s } else if raw > s { s } else { raw }
}

/// Sine of a reduced angle: fold into the first quarter, then the polynomial.
pub open spec fn spec_sin_folded(m: int) -> int {
    if m > HALF_PI_FIX {
        spec_sin_quarter(PI_FIX - m)
    } else if m < -HALF_PI_FIX {
        spec_sin_quarter(-PI_FIX - m)
    } else {
        spec_sin_quarter(m)
    }
}

/// Sine of any fixed-point angle.
pub open spec fn spec_sin(x: int) -> int {
    spec_sin_folded(spec_reduce(x))
}

/// Cosine of any fixed-point angle, as the sine shifted by a quarter turn.
pub open spec fn spec_cos(x: int) -> int {
    spec_sin_folded(spec_reduce(x + HALF_PI_FIX))
}

fn sin_folded(m: i64) -> (r: i64)
    requires -PI_FIX <= m <= PI_FIX
    ensures r == spec_sin_folded(m as int), -FIX_ONE <= r <= FIX_ONE
{
    proof { reveal(spec_sin_quarter); }
    let t: i64 = if m > HALF_PI_FIX {
        PI_FIX - m
    } else if m < -HALF_PI_FIX {
        -PI_FIX - m
    } else {
        m
    };
    let s128: i128 = FIX_ONE as i128;
    proof {
        assert(0 <= (t as i128) * (t as i128) <= 1_570_797i128 * 1_570_797i128) by (
        nonlinear_arith)
            requires -1_570_797 <= t as i128 <= 1_570_797,
        ;
    }
    let p2: i128 = (t as i128) * (t as i128);
    let t2: i128 = p2 / s128;
    proof {
        assert(t2 == div_trunc(p2 as int, FIX_ONE as int));
        lemma_div_trunc_bound(p2 as int, FIX_ONE as int, (1_570_797int) * 1_570_797);
        assert(-(2_467_404i128 * 1_570_797i128) <= t2 * (t as i128) <= 2_467_404i128
            * 1_570_797i128) by (nonlinear_arith)
            requires
                -2_467_404 <= t2 <= 2_467_404,
                -1_570_797 <= t as i128 <= 1_570_797,
        ;
    }
    let p3: i128 = t2 * (t as i128);
    let t3: i128 = p3 / s128;
    proof {
        assert(t3 == div_trunc(p3 as int, FIX_ONE as int));
        lemma_div_trunc_bound(p3 as int, FIX_ONE as int, (2_467_404int) * 1_570_797);
        assert(-(3_876_000i128 * 2_467_404i128) <= t3 * t2 <= 3_876_000i128 * 2_467_404i128) by (
        nonlinear_arith)
            requires
                -3_876_000 <= t3 <= 3_876_000,
                -2_467_404 <= t2 <= 2_467_404,
        ;
    }
    let p5: i128 = t3 * t2;
    let t5: i128 = p5 / s128;
    proof {
        assert(t5 == div_trunc(p5 as int, FIX_ONE as int));
        lemma_div_trunc_bound(p5 as int, FIX_ONE as int, (3_876_000int) * 2_467_404);
        assert(-(9_564_000i128 * 2_467_404i128) <= t5 * t2 <= 9_564_000i128 * 2_467_404i128) by (
        nonlinear_arith)
            requires
                -9_564_000 <= t5 <= 9_564_000,
                -2_467_404 <= t2 <= 2_467_404,
        ;
    }
    let p7: i128 = t5 * t2;
    let t7: i128 = p7 / s128;
    proof {
        assert(t7 == div_trunc(p7 as int, FIX_ONE as int));
        lemma_div_trunc_bound(p7 as int, FIX_ONE as int, (9_564_000int) * 2_467_404);
        lemma_div_trunc_bound(t3 as int, 6, 3_876_000);
        lemma_div_trunc_bound(t5 as int, 120, 9_564_000);
        lemma_div_trunc_bound(t7 as int, 5040, 23_599_000);
    }
    let d3: i128 = t3 / 6;
    let d5: i128 = t5 / 120;
    let d7: i128 = t7 / 5040;
    proof {
        assert(d3 == div_trunc(t3 as int, 6));
        assert(d5 == div_trunc(t5 as int, 120));
        assert(d7 == div_trunc(t7 as int, 5040));
    }
    let raw: i128 = (t as i128) - d3 + d5 - d7;
    let r: i128 = if raw < -s128 { -s128 } else if raw > s128 { s128 } else { raw };
    r as i64
}

/// Sine, exact per [`spec_sin`], always within `[-1, 1]`.
pub fn sin_fix(x: i64) -> (r: i64)
    ensures r == spec_sin(x as int), -FIX_ONE <= r <= FIX_ONE
{
    sin_folded(reduce_angle(x as i128))
}

/// Cosine, exact per [`spec_cos`], always within `[-1, 1]`.
pub fn cos_fix(x: i64) -> (r: i64)
    ensures r == spec_cos(x as int), -FIX_ONE <= r <= FIX_ONE
{
    sin_folded(reduce_angle(x as i128 + HALF_PI_FIX as i128))
}

/// Largest magnitude the arc-tangent approximation can reach on `[-1, 1]`.
pub const ATAN_MAX: i64 = 860_000;

/// Quadratic approximation of the arc tangent of `t` in `[-1, 1]`.
pub open spec fn spec_atan(t: int) -> int {
    spec_add(
        spec_mul(QUARTER_PI_FIX as int, t),
        spec_mul(ATAN_K as int, spec_mul(t, spec_sub(FIX_ONE as int, spec_abs(t)))),
    )
}

/// The approximation keeps the sign of its argument and stays short of a
/// right angle.
pub proof fn lemma_atan_props(t: int)
    requires -FIX_ONE <= t <= FIX_ONE
    ensures
        0 <= t ==> 0 <= spec_atan(t) <= ATAN_MAX,
        t <= 0 ==> -ATAN_MAX <= spec_atan(t) <= 0,
{
    let s = FIX_ONE as int;
    let w = spec_sub(s, spec_abs(t));
    lemma_div_trunc_bound(QUARTER_PI_FIX as int * t, s, (785_398int) * 1_000_000);
    lemma_div_trunc_sign(QUARTER_PI_FIX as int * t, s);
    if t >= 0 {
        assert(0 <= t * w && 4 * (t * w) <= s * s) by (nonlinear_arith)
            requires 0 <= t <= s, w == s - t, s == 1_000_000,
        ;
        lemma_div_trunc_bound(t * w, s, (250_000int) * 1_000_000);
        lemma_div_trunc_sign(t * w, s);
        let u = spec_mul(t, w);
        lemma_div_trunc_bound(ATAN_K as int * u, s, (273_000int) * 250_000);
        lemma_div_trunc_sign(ATAN_K as int * u, s);
    } else {
        assert(t * w <= 0 && 4 * (-(t * w)) <= s * s) by (nonlinear_arith)
            requires -s <= t <= 0, w == s + t, s == 1_000_000,
        ;
        lemma_div_trunc_bound(t * w, s, (250_000int) * 1_000_000);
        lemma_div_trunc_sign(t * w, s);
        let u = spec_mul(t, w);
        lemma_div_trunc_bound(ATAN_K as int * u, s, (273_000int) * 250_000);
        lemma_div_trunc_sign(ATAN_K as int * u, s);
    }
}

/// Arc tangent of `t` in `[-1, 1]`, exact per [`spec_atan`].
pub fn atan_fix(t: i64) -> (r: i64)
    requires -FIX_ONE <= t <= FIX_ONE
    ensures
        r == spec_atan(t as int),
        0 <= t ==> 0 <= r <= ATAN_MAX,
        t <= 0 ==> -ATAN_MAX <= r <= 0,
{
    proof { lemma_atan_props(t as int); }
    let a1: i64 = fix_mul(QUARTER_PI_FIX, t);
    let w: i64 = fix_sub(FIX_ONE, fix_abs(t));
    let a2: i64 = fix_mul(ATAN_K, fix_mul(t, w));
    fix_add(a1, a2)
}

/// The angle of the point `(x, y)`, measured from the positive `x` axis,
/// in `[-PI_FIX, PI_FIX]`; zero when both components are zero.
pub open spec fn spec_atan2(y: int, x: int) -> int {
    let ay = if y < 0 { -y } else { y };
    let ax = if x < 0 { -x } else { x };
    if x == 0 && y == 0 {
        0
    } else if ay <= ax {
        let b = spec_atan(spec_div(y, x));
        if x > 0 { b } else if y >= 0 { b + PI_FIX } else { b - PI_FIX }
    } else {
        let b = spec_atan(spec_div(x, y));
        if y > 0 { HALF_PI_FIX - b } else { -HALF_PI_FIX - b }
    }
}

/// Arc tangent of `y / x` with quadrant correction, exact per
/// [`spec_atan2`].  A non-negative `y` lands in the upper half turn, and a
/// non-negative `x` within a right angle of the `x` axis.
pub fn atan2_fix(y: i64, x: i64) -> (r: i64)
    requires
        -2 * FIX_LIMIT <= y <= 2 * FIX_LIMIT,
        -2 * FIX_LIMIT <= x <= 2 * FIX_LIMIT,
    ensures
        r == spec_atan2(y as int, x as int),
        -PI_FIX <= r <= PI_FIX,
        y >= 0 ==> 0 <= r <= PI_FIX,
        y < 0 ==> -PI_FIX <= r <= 0,
        x >= 0 ==> -HALF_PI_FIX <= r <= HALF_PI_FIX,
{
    if x == 0 && y == 0 {
        return 0;
    }
    let ay: i64 = if y < 0 { -y } else { y };
    let ax: i64 = if x < 0 { -x } else { x };
    if ay <= ax {
        proof { lemma_spec_div_props(y as int, x as int); }
        let t: i64 = fix_div(y, x);
        let b: i64 = atan_fix(t);
        if x > 0 {
            b
        } else if y >= 0 {
            b + PI_FIX
        } else {
            b - PI_FIX
        }
    } else {
        proof { lemma_spec_div_props(x as int, y as int); }
        let t: i64 = fix_div(x, y);
        let b: i64 = atan_fix(t);
        if y > 0 {
            HALF_PI_FIX - b
        } else {
            -HALF_PI_FIX - b
        }
    }
}

/// A yaw wrapped into `[0, TAU_FIX)`.
pub open spec fn spec_wrap_yaw(y: int) -> int {
    y % (TAU_FIX as int)
}

/// A pitch clamped into `[-HALF_PI_FIX, HALF_PI_FIX]`.
pub open spec fn spec_clamp_pitch(p: int) -> int {
    if p < -HALF_PI_FIX {
        -HALF_PI_FIX as int
    } else if p > HALF_PI_FIX {
        HALF_PI_FIX as int
    } else {
        p
    }
}

/// Yaw of the direction `(x, _, z)`: its angle in the horizontal plane.
pub open spec fn spec_yaw_xz(x: int, z: int) -> int {
    spec_wrap_yaw(spec_atan2(x, z))
}

/// Pitch of the direction `(x, y, z)`: its elevation above the horizontal
/// plane.
pub open spec fn spec_pitch_xyz(x: int, y: int, z: int) -> int {
    spec_atan2(y, spec_isqrt(x * x + z * z))
}

/// Yaw of a direction vector.
pub open spec fn spec_yaw_of(v: Vec3Fix) -> int {
    spec_yaw_xz(v.x as int, v.z as int)
}

/// Pitch of a direction vector.
pub open spec fn spec_pitch_of(v: Vec3Fix) -> int {
    spec_pitch_xyz(v.x as int, v.y as int, v.z as int)
}

fn wrap_yaw(y: i128) -> (r: i64)
    ensures r == spec_wrap_yaw(y as int), 0 <= r < TAU_FIX
{
    let t: i128 = y % (TAU_FIX as i128);
    let e: i128 = if t < 0 { t + TAU_FIX as i128 } else { t };
    assert(e == y as int % (TAU_FIX as int));
    e as i64
}

fn clamp_pitch(p: i128) -> (r: i64)
    ensures r == spec_clamp_pitch(p as int), -HALF_PI_FIX <= r <= HALF_PI_FIX
{
    if p < -HALF_PI_FIX as i128 {
        -HALF_PI_FIX
    } else if p > HALF_PI_FIX as i128 {
        HALF_PI_FIX
    } else {
        p as i64
    }
}

/// The viewing direction as a yaw about the vertical axis and a pitch above
/// the horizontal plane.  The yaw stays wrapped into `[0, TAU_FIX)` and the
/// pitch clamped into `[-HALF_PI_FIX, HALF_PI_FIX]`.
#[derive(Clone, Copy, Debug, PartialEq, Eq, Structural)]
pub struct LookAngles {
    pub yaw: i64,
    pub pitch: i64,
}

impl LookAngles {
    /// The ranges every constructor establishes and every method keeps.
    pub open spec fn wf(self) -> bool {
        0 <= self.yaw < TAU_FIX && -HALF_PI_FIX <= self.pitch <= HALF_PI_FIX
    }

    /// The angles of a direction vector, pitch first folded into range.
    pub fn from_vector(v: Vec3Fix) -> (r: Self)
        requires v.in_range()
        ensures
            r.yaw == spec_yaw_of(v),
            r.pitch == spec_pitch_of(v),
            v.y >= 0 ==> r.pitch >= 0,
            r.wf(),
    {
        proof {
            lemma_square_bound(v.x as int, FIX_LIMIT as int);
            lemma_square_bound(v.z as int, FIX_LIMIT as int);
        }
        let xx: u128 = ((v.x as i128) * (v.x as i128)) as u128;
        let zz: u128 = ((v.z as i128) * (v.z as i128)) as u128;
        let h128: u128 = isqrt(xx + zz);
        proof {
            lemma_isqrt_le_double(h128 as int, v.x * v.x + v.z * v.z, FIX_LIMIT as int);
        }
        let h: i64 = h128 as i64;
        let yaw: i64 = wrap_yaw(atan2_fix(v.x, v.z) as i128);
        let pitch: i64 = atan2_fix(v.y, h);
        LookAngles { yaw, pitch }
    }

    /// The unit direction vector these angles describe.
    #[verifier::rlimit(60)]
    pub fn unit_vector(&self) -> (r: Vec3Fix)
        requires self.wf()
        ensures
            r.x == spec_mul(spec_cos(self.pitch as int), spec_sin(self.yaw as int)),
            r.y == spec_sin(self.pitch as int),
            r.z == spec_mul(spec_cos(self.pitch as int), spec_cos(self.yaw as int)),
            -FIX_ONE <= r.x <= FIX_ONE,
            -FIX_ONE <= r.y <= FIX_ONE,
            -FIX_ONE <= r.z <= FIX_ONE,
            r.in_range(),
            self.pitch >= 0 ==> r.y >= 0,
    {
        let cp: i64 = cos_fix(self.pitch);
        let sp: i64 = sin_fix(self.pitch);
        let sy: i64 = sin_fix(self.yaw);
        let cy: i64 = cos_fix(self.yaw);
        proof {
            lemma_unit_component(cp as int, sy as int);
            lemma_unit_component(cp as int, cy as int);
            if self.pitch >= 0 {
                lemma_sin_nonneg_on_upper(self.pitch as int);
            }
        }
        Vec3Fix { x: fix_mul(cp, sy), y: sp, z: fix_mul(cp, cy) }
    }

    pub fn get_yaw(&self) -> (r: i64)
        ensures r == self.yaw
    {
        self.yaw
    }

    pub fn get_pitch(&self) -> (r: i64)
        ensures r == self.pitch
    {
        self.pitch
    }

    pub fn set_yaw(&mut self, yaw: i64)
        ensures
            final(self).yaw == spec_wrap_yaw(yaw as int),
            final(self).pitch == old(self).pitch,
            0 <= final(self).yaw < TAU_FIX,
    {
        self.yaw = wrap_yaw(yaw as i128);
    }

    pub fn set_pitch(&mut self, pitch: i64)
        ensures
            final(self).pitch == spec_clamp_pitch(pitch as int),
            final(self).yaw == old(self).yaw,
            -HALF_PI_FIX <= final(self).pitch <= HALF_PI_FIX,
    {
        self.pitch = clamp_pitch(pitch as i128);
    }

    pub fn add_yaw(&mut self, delta: i64)
        ensures
            final(self).yaw == spec_wrap_yaw(old(self).yaw + delta),
            final(self).pitch == old(self).pitch,
            0 <= final(self).yaw < TAU_FIX,
    {
        self.yaw = wrap_yaw(self.yaw as i128 + delta as i128);
    }

    pub fn add_pitch(&mut self, delta: i64)
        ensures
            final(self).pitch == spec_clamp_pitch(old(self).pitch + delta),
            final(self).yaw == old(self).yaw,
            -HALF_PI_FIX <= final(self).pitch <= HALF_PI_FIX,
    {
        self.pitch = clamp_pitch(self.pitch as i128 + delta as i128);
    }
}

/// A product of two factors within `[-1, 1]` stays within `[-1, 1]`.
proof fn lemma_unit_component(a: int, b: int)
    requires -FIX_ONE <= a <= FIX_ONE, -FIX_ONE <= b <= FIX_ONE
    ensures -FIX_ONE <= spec_mul(a, b) <= FIX_ONE
{
    assert(-((1_000_000int) * 1_000_000) <= a * b <= (1_000_000int) * 1_000_000) by (
    nonlinear_arith)
        requires -1_000_000 <= a <= 1_000_000, -1_000_000 <= b <= 1_000_000,
    ;
    lemma_div_trunc_bound(a * b, FIX_ONE as int, (1_000_000int) * 1_000_000);
}

/// The sine is non-negative on the closed upper half turn.
pub proof fn lemma_sin_nonneg_on_upper(x: int)
    requires 0 <= x <= PI_FIX
    ensures spec_sin(x) >= 0
{
    vstd::arithmetic::div_mod::lemma_small_mod(x as nat, TAU_FIX as nat);
    assert(spec_reduce(x) == x);
    let t = if x > HALF_PI_FIX { PI_FIX - x } else { x };
    assert(0 <= t <= HALF_PI_FIX + 1);
    lemma_sin_quarter_nonneg(t);
}

/// The quarter-wave polynomial is non-negative just past the quarter turn.
proof fn lemma_sin_quarter_nonneg(t: int)
    requires 0 <= t <= HALF_PI_FIX + 1
    ensures spec_sin_quarter(t) >= 0
{
    reveal(spec_sin_quarter);
    let s = FIX_ONE as int;
    let t2 = div_trunc(t * t, s);
    let t3 = div_trunc(t2 * t, s);
    let t5 = div_trunc(t3 * t2, s);
    let t7 = div_trunc(t5 * t2, s);
    assert(0 <= t * t <= (1_570_797int) * 1_570_797) by (nonlinear_arith)
        requires 0 <= t <= 1_570_797,
    ;
    lemma_div_trunc_sign(t * t, s);
    lemma_div_trunc_bound(t * t, s, (1_570_797int) * 1_570_797);
    assert(0 <= t2 * t <= (2_467_404int) * 1_570_797) by (nonlinear_arith)
        requires 0 <= t2 <= 2_467_404, 0 <= t <= 1_570_797,
    ;
    lemma_div_trunc_sign(t2 * t, s);
    lemma_div_trunc_bound(t2 * t, s, (2_467_404int) * 1_570_797);
    assert(0 <= t3 * t2 <= (3_876_000int) * 2_467_404) by (nonlinear_arith)
        requires 0 <= t3 <= 3_876_000, 0 <= t2 <= 2_467_404,
    ;
    lemma_div_trunc_sign(t3 * t2, s);
    lemma_div_trunc_bound(t3 * t2, s, (3_876_000int) * 2_467_404);
    assert(0 <= t5 * t2 <= (9_564_000int) * 2_467_404) by (nonlinear_arith)
        requires 0 <= t5 <= 9_564_000, 0 <= t2 <= 2_467_404,
    ;
    lemma_div_trunc_sign(t5 * t2, s);
    lemma_div_trunc_bound(t5 * t2, s, (9_564_000int) * 2_467_404);
    lemma_div_trunc_sign(t3, 6);
    lemma_div_trunc_sign(t5, 120);
    lemma_div_trunc_sign(t7, 5040);
    lemma_sin_tail_small(t, t2, t3);
    assert(t5 * t2 <= s * (3 * t5)) by (nonlinear_arith)
        requires 0 <= t5, 0 <= t2 <= 2_467_404, s == 1_000_000,
    ;
    vstd::arithmetic::div_mod::lemma_div_is_ordered(t5 * t2, s * (3 * t5), s);
    vstd::arithmetic::div_mod::lemma_div_multiples_vanish(3 * t5, s);
    assert(t7 <= 3 * t5);
    vstd::arithmetic::div_mod::lemma_div_is_ordered(t7, 3 * t5, 5040);
    vstd::arithmetic::div_mod::lemma_div_denominator(3 * t5, 3, 1680);
    vstd::arithmetic::div_mod::lemma_div_multiples_vanish(t5, 3);
    assert((3 * t5) / 5040 == t5 / 1680);
    vstd::arithmetic::div_mod::lemma_div_is_ordered_by_denominator(t5, 120, 1680);
    assert(div_trunc(t7, 5040) <= div_trunc(t5, 120));
}

/// On the quarter wave the cubic term removed from the sine stays below the
/// linear term, so the polynomial keeps its sign.
proof fn lemma_sin_tail_small(t: int, t2: int, t3: int)
    requires
        0 <= t <= 1_570_797,
        t2 == div_trunc(t * t, 1_000_000),
        t3 == div_trunc(t2 * t, 1_000_000),
    ensures div_trunc(t3, 6) <= t
{
    let s = 1_000_000int;
    assert(t * t <= 2_400_000 * t) by (nonlinear_arith)
        requires 0 <= t <= 1_570_797,
    ;
    lemma_div_trunc_sign(t * t, s);
    vstd::arithmetic::div_mod::lemma_div_is_ordered(t * t, 2_400_000 * t, s);
    assert((2_400_000 * t) / s == 2 * t + (400_000 * t) / s) by {
        vstd::arithmetic::div_mod::lemma_hoist_over_denominator(400_000 * t, 2 * t, 1_000_000nat);
    }
    lemma_div_trunc_sign(400_000 * t, s);
    vstd::arithmetic::div_mod::lemma_div_is_ordered(400_000 * t, s * t, s);
    vstd::arithmetic::div_mod::lemma_div_multiples_vanish(t, s);
    assert(t2 <= 3 * t);
    assert(t2 * t <= (3 * t) * t) by (nonlinear_arith)
        requires 0 <= t, t2 <= 3 * t,
    ;
    assert((3 * t) * t <= 3_000_000 * t + 2_400_000 * t) by (nonlinear_arith)
        requires 0 <= t <= 1_570_797,
    ;
    lemma_div_trunc_sign(t2 * t, s);
    vstd::arithmetic::div_mod::lemma_div_is_ordered(t2 * t, 5_400_000 * t, s);
    assert((5_400_000 * t) / s == 5 * t + (400_000 * t) / s) by {
        vstd::arithmetic::div_mod::lemma_hoist_over_denominator(400_000 * t, 5 * t, 1_000_000nat);
    }
    assert(t3 <= 6 * t);
    lemma_div_trunc_sign(t3, 6);
    vstd::arithmetic::div_mod::lemma_div_is_ordered(t3, 6 * t, 6);
    vstd::arithmetic::div_mod::lemma_div_multiples_vanish(t, 6);
}

} // verus!
