//! The camera pose and its exponential-lag smoother.

use vstd::prelude::*;

use crate::fixed::{
    FIX_LIMIT, FIX_ONE, fix_add, fix_div, fix_in_range, fix_mul, fix_sub, is_isqrt,
    lemma_div_trunc_bound, lemma_div_trunc_sign, spec_add, spec_div, spec_isqrt, spec_lerp,
    spec_mul, spec_sub,
};
use crate::vectors::Vec3Fix;

verus! {

/// An eye and the target it looks at, with the camera's up direction.
///
/// The pose is meaningful only while `eye != target`; the controller treats
/// an equal pair as a configuration defect and leaves such a pose alone.
#[derive(Clone, Copy, Debug, PartialEq, Eq, Structural)]
pub struct LookTransform {
    pub eye: Vec3Fix,
    pub target: Vec3Fix,
    pub up: Vec3Fix,
}

impl Default for LookTransform {
    /// An eye on the diagonal five units out, looking at the origin.
    fn default() -> (r: Self)
        ensures
            r.eye.x == 5 * FIX_ONE, r.eye.y == 5 * FIX_ONE, r.eye.z == 5 * FIX_ONE,
            r.target.x == 0, r.target.y == 0, r.target.z == 0,
            r.up.x == 0, r.up.y == FIX_ONE, r.up.z == 0,
            r.in_range(),
    {
        LookTransform {
            eye: Vec3Fix { x: 5 * FIX_ONE, y: 5 * FIX_ONE, z: 5 * FIX_ONE },
            target: Vec3Fix { x: 0, y: 0, z: 0 },
            up: Vec3Fix { x: 0, y: FIX_ONE, z: 0 },
        }
    }
}

impl LookTransform {
    pub open spec fn in_range(self) -> bool {
        self.eye.in_range() && self.target.in_range() && self.up.in_range()
    }

    /// Distance between target and eye.
    pub open spec fn spec_radius(self) -> int {
        spec_isqrt(self.target.diff_norm_sq(self.eye))
    }

    pub fn new(eye: Vec3Fix, target: Vec3Fix, up: Vec3Fix) -> (r: Self)
        ensures r.eye == eye, r.target == target, r.up == up
    {
        Self { eye, target, up }
    }

    pub fn radius(&self) -> (r: i64)
        ensures
            r == self.spec_radius(),
            is_isqrt(r as int, self.target.diff_norm_sq(self.eye)),
            0 <= r <= 2 * FIX_LIMIT,
    {
        self.target.distance(self.eye)
    }

    /// The unit direction from eye to target, or `None` when the two
    /// coincide (after saturation) and no direction exists.
    pub fn look_direction(&self) -> (r: Option<Vec3Fix>)
        ensures
            match r {
                Some(d) => {
                    &&& self.spec_radius() > 0
                    &&& d.x == spec_div(
                        spec_sub(self.target.x as int, self.eye.x as int), self.spec_radius())
                    &&& d.y == spec_div(
                        spec_sub(self.target.y as int, self.eye.y as int), self.spec_radius())
                    &&& d.z == spec_div(
                        spec_sub(self.target.z as int, self.eye.z as int), self.spec_radius())
                },
                None => self.spec_radius() == 0,
            },
    {
        let d = self.target.sub(self.eye);
        let len = d.length();
        if len == 0 {
            None
        } else {
            Some(Vec3Fix { x: fix_div(d.x, len), y: fix_div(d.y, len), z: fix_div(d.z, len) })
        }
    }

    /// Componentwise interpolation of two poses.
    pub fn lerp(&self, other: &Self, scalar: i64) -> (r: Self)
        ensures
            r.eye.x == spec_lerp(self.eye.x as int, other.eye.x as int, scalar as int),
            r.eye.y == spec_lerp(self.eye.y as int, other.eye.y as int, scalar as int),
            r.eye.z == spec_lerp(self.eye.z as int, other.eye.z as int, scalar as int),
            r.target.x == spec_lerp(self.target.x as int, other.target.x as int, scalar as int),
            r.target.y == spec_lerp(self.target.y as int, other.target.y as int, scalar as int),
            r.target.z == spec_lerp(self.target.z as int, other.target.z as int, scalar as int),
            r.up.x == spec_lerp(self.up.x as int, other.up.x as int, scalar as int),
            r.up.y == spec_lerp(self.up.y as int, other.up.y as int, scalar as int),
            r.up.z == spec_lerp(self.up.z as int, other.up.z as int, scalar as int),
    {
        Self {
            eye: self.eye.lerp(other.eye, scalar),
            target: self.target.lerp(other.target, scalar),
            up: self.up.lerp(other.up, scalar),
        }
    }
}

/// Interpolates a pose between two endpoints, for driving the camera from a
/// host-side animation.
#[derive(Clone, Copy, Debug, PartialEq, Eq, Structural)]
pub struct LookTransformLens {
    pub start: LookTransform,
    pub end: LookTransform,
}

impl LookTransformLens {
    /// The pose at `ratio` of the way from `start` to `end`.
    pub fn lerp(&self, ratio: i64) -> (r: LookTransform)
        ensures
            r.eye.x == spec_lerp(self.start.eye.x as int, self.end.eye.x as int, ratio as int),
            r.target.x == spec_lerp(
                self.start.target.x as int, self.end.target.x as int, ratio as int),
            r.up.x == spec_lerp(self.start.up.x as int, self.end.up.x as int, ratio as int),
    {
        self.start.lerp(&self.end, ratio)
    }
}

/// One exponential-lag step of a scalar: `raw + w * (prev - raw)`.
pub open spec fn spec_lag(prev: int, raw: int, w: int) -> int {
    spec_add(raw, spec_mul(spec_sub(prev, raw), w))
}

/// Repeated lag steps from `start` toward a constant `raw`.
pub open spec fn spec_lag_iter(start: int, raw: int, w: int, n: nat) -> int
    decreases n
{
    if n == 0 {
        start
    } else {
        spec_lag_iter(spec_lag(start, raw, w), raw, w, (n - 1) as nat)
    }
}

/// One lag step moves the value strictly closer to `raw` and never past it,
/// and a value already at `raw` stays there exactly.
pub proof fn lemma_lag_contracts(prev: int, raw: int, w: int)
    requires
        fix_in_range(prev), fix_in_range(raw),
        0 <= w < FIX_ONE,
    ensures
        prev == raw ==> spec_lag(prev, raw, w) == raw,
        prev > raw ==> raw <= spec_lag(prev, raw, w) < prev,
        prev < raw ==> prev < spec_lag(prev, raw, w) <= raw,
        fix_in_range(spec_lag(prev, raw, w)),
{
    let s = FIX_ONE as int;
    let d = prev - raw;
    let dc = spec_sub(prev, raw);
    if d == 0 {
        lemma_div_trunc_sign(dc * w, s);
    } else if d > 0 {
        assert(1 <= dc <= d);
        assert(0 <= dc * w && dc * w <= dc * (s - 1)) by (nonlinear_arith)
            requires 0 < dc, 0 <= w <= s - 1,
        ;
        lemma_div_trunc_sign(dc * w, s);
        assert(dc * (s - 1) == dc * s - dc) by (nonlinear_arith);
        lemma_div_trunc_bound(dc * w, s, dc * s - dc);
        assert((dc * s - dc) / s <= dc - 1) by {
            assert(dc * s - dc <= (dc - 1) * s + (s - 1)) by (nonlinear_arith)
                requires dc > 0, s > 0,
            ;
            vstd::arithmetic::div_mod::lemma_div_is_ordered(
                dc * s - dc, (dc - 1) * s + (s - 1), s);
            assert(((dc - 1) * s + (s - 1)) / s == dc - 1) by {
                vstd::arithmetic::div_mod::lemma_div_multiples_vanish_fancy(
                    dc - 1, s - 1, s);
                assert(s * (dc - 1) == (dc - 1) * s) by (nonlinear_arith);
            }
        }
    } else {
        assert(d <= dc <= -1);
        assert(dc * w <= 0 && dc * w >= dc * (s - 1)) by (nonlinear_arith)
            requires dc < 0, 0 <= w <= s - 1,
        ;
        lemma_div_trunc_sign(dc * w, s);
        assert(dc * (s - 1) == dc * s - dc) by (nonlinear_arith);
        lemma_div_trunc_bound(dc * w, s, -(dc * s - dc));
        assert((-(dc * s - dc)) / s <= -dc - 1) by {
            assert(-(dc * s - dc) <= (-dc - 1) * s + (s - 1)) by (nonlinear_arith)
                requires dc < 0, s > 0,
            ;
            vstd::arithmetic::div_mod::lemma_div_is_ordered(
                -(dc * s - dc), (-dc - 1) * s + (s - 1), s);
            assert(((-dc - 1) * s + (s - 1)) / s == -dc - 1) by {
                vstd::arithmetic::div_mod::lemma_div_multiples_vanish_fancy(
                    -dc - 1, s - 1, s);
                assert(s * (-dc - 1) == (-dc - 1) * s) by (nonlinear_arith);
            }
        }
    }
}

/// Smoothing a constant input converges: after at least `|start - raw|`
/// steps the lagged value equals `raw` exactly, for any weight below one.
pub proof fn lemma_lag_converges(start: int, raw: int, w: int, n: nat)
    requires
        fix_in_range(start), fix_in_range(raw),
        0 <= w < FIX_ONE,
        n >= (if start >= raw { start - raw } else { raw - start }),
    ensures spec_lag_iter(start, raw, w, n) == raw
    decreases n
{
    if start == raw {
        lemma_lag_fixed(raw, w, n);
    } else {
        lemma_lag_contracts(start, raw, w);
        lemma_lag_converges(spec_lag(start, raw, w), raw, w, (n - 1) as nat);
    }
}

/// Smoother convergence, over whole poses: smoothing a constant pose
/// repeatedly brings every eye and target component to it exactly, once
/// the step count reaches the largest componentwise gap.
pub proof fn lemma_smoother_convergence(start: LookTransform, raw: LookTransform, w: int, n: nat)
    requires
        start.in_range(), raw.in_range(),
        0 <= w < FIX_ONE,
        n >= 4 * FIX_LIMIT,
    ensures
        spec_lag_iter(start.eye.x as int, raw.eye.x as int, w, n) == raw.eye.x,
        spec_lag_iter(start.eye.y as int, raw.eye.y as int, w, n) == raw.eye.y,
        spec_lag_iter(start.eye.z as int, raw.eye.z as int, w, n) == raw.eye.z,
        spec_lag_iter(start.target.x as int, raw.target.x as int, w, n) == raw.target.x,
        spec_lag_iter(start.target.y as int, raw.target.y as int, w, n) == raw.target.y,
        spec_lag_iter(start.target.z as int, raw.target.z as int, w, n) == raw.target.z,
{
    lemma_lag_converges(start.eye.x as int, raw.eye.x as int, w, n);
    lemma_lag_converges(start.eye.y as int, raw.eye.y as int, w, n);
    lemma_lag_converges(start.eye.z as int, raw.eye.z as int, w, n);
    lemma_lag_converges(start.target.x as int, raw.target.x as int, w, n);
    lemma_lag_converges(start.target.y as int, raw.target.y as int, w, n);
    lemma_lag_converges(start.target.z as int, raw.target.z as int, w, n);
}

/// A value equal to `raw` is a fixed point of the lag step.
proof fn lemma_lag_fixed(raw: int, w: int, n: nat)
    requires fix_in_range(raw), 0 <= w < FIX_ONE
    ensures spec_lag_iter(raw, raw, w, n) == raw
    decreases n
{
    if n > 0 {
        lemma_lag_contracts(raw, raw, w);
        lemma_lag_fixed(raw, w, (n - 1) as nat);
    }
}

/// Exponential-lag filter over a stream of poses.
///
/// While it holds a previous output, each call moves that output toward the
/// new pose by `1 - lag_weight`; the up direction is passed through
/// unfiltered.  The first call seeds the filter and returns its input
/// unchanged.
#[derive(Clone, Copy, Debug, PartialEq, Eq, Structural)]
pub struct Smoother {
    /// How much of the previous output survives a step; must stay below one.
    pub lag_weight: i64,
    /// The last smoothed pose, if any frame has been smoothed yet.
    pub lerp_tfm: Option<LookTransform>,
    pub enabled: bool,
}

impl Smoother {
    /// The weight is a proper fraction and any held pose is representable.
    pub open spec fn wf(self) -> bool {
        &&& 0 <= self.lag_weight < FIX_ONE
        &&& match self.lerp_tfm {
            Some(t) => t.in_range(),
            None => true,
        }
    }

    pub fn new(lag_weight: i64) -> (r: Self)
        requires 0 <= lag_weight < FIX_ONE
        ensures
            r.lag_weight == lag_weight,
            r.lerp_tfm is None,
            r.enabled,
            r.wf(),
    {
        Smoother { lag_weight, lerp_tfm: None, enabled: true }
    }

    /// One smoothing step.  With no prior state the result is exactly
    /// `new_tfm`; otherwise every eye and target component lags behind by
    /// `lag_weight`, and the up direction comes from `new_tfm` alone.
    pub fn smooth_transform(&mut self, new_tfm: &LookTransform) -> (r: LookTransform)
        requires
            old(self).wf(),
            new_tfm.in_range(),
        ensures
            old(self).lerp_tfm is None ==> r == *new_tfm,
            match old(self).lerp_tfm {
                Some(prev) => {
                    &&& r.eye.x == spec_lag(prev.eye.x as int, new_tfm.eye.x as int,
                        old(self).lag_weight as int)
                    &&& r.eye.y == spec_lag(prev.eye.y as int, new_tfm.eye.y as int,
                        old(self).lag_weight as int)
                    &&& r.eye.z == spec_lag(prev.eye.z as int, new_tfm.eye.z as int,
                        old(self).lag_weight as int)
                    &&& r.target.x == spec_lag(prev.target.x as int, new_tfm.target.x as int,
                        old(self).lag_weight as int)
                    &&& r.target.y == spec_lag(prev.target.y as int, new_tfm.target.y as int,
                        old(self).lag_weight as int)
                    &&& r.target.z == spec_lag(prev.target.z as int, new_tfm.target.z as int,
                        old(self).lag_weight as int)
                    &&& r.up == new_tfm.up
                },
                None => r == *new_tfm,
            },
            final(self).lerp_tfm == Some(r),
            final(self).lag_weight == old(self).lag_weight,
            final(self).enabled == old(self).enabled,
            final(self).wf(),
            r.in_range(),
    {
        let prev = match self.lerp_tfm {
            Some(t) => t,
            None => *new_tfm,
        };
        proof {
            lemma_lag_all(prev, *new_tfm, self.lag_weight as int);
        }
        let w = self.lag_weight;
        let out = LookTransform {
            eye: lag_vec(prev.eye, new_tfm.eye, w),
            target: lag_vec(prev.target, new_tfm.target, w),
            up: new_tfm.up,
        };
        self.lerp_tfm = Some(out);
        out
    }

    /// Forget the held pose, so the next call re-seeds from its input.
    pub fn reset(&mut self)
        ensures
            final(self).lerp_tfm is None,
            final(self).lag_weight == old(self).lag_weight,
            final(self).enabled == old(self).enabled,
    {
        self.lerp_tfm = None;
    }
}

/// Componentwise lag step of a vector.
fn lag_vec(prev: Vec3Fix, raw: Vec3Fix, w: i64) -> (r: Vec3Fix)
    ensures
        r.x == spec_lag(prev.x as int, raw.x as int, w as int),
        r.y == spec_lag(prev.y as int, raw.y as int, w as int),
        r.z == spec_lag(prev.z as int, raw.z as int, w as int),
{
    Vec3Fix {
        x: fix_add(raw.x, fix_mul(fix_sub(prev.x, raw.x), w)),
        y: fix_add(raw.y, fix_mul(fix_sub(prev.y, raw.y), w)),
        z: fix_add(raw.z, fix_mul(fix_sub(prev.z, raw.z), w)),
    }
}

/// A lag step of equal poses is the identity, and in-range inputs give
/// in-range outputs.
proof fn lemma_lag_all(prev: LookTransform, raw: LookTransform, w: int)
    requires prev.in_range(), raw.in_range(), 0 <= w < FIX_ONE
    ensures
        prev == raw ==> {
            &&& spec_lag(prev.eye.x as int, raw.eye.x as int, w) == raw.eye.x
            &&& spec_lag(prev.eye.y as int, raw.eye.y as int, w) == raw.eye.y
            &&& spec_lag(prev.eye.z as int, raw.eye.z as int, w) == raw.eye.z
            &&& spec_lag(prev.target.x as int, raw.target.x as int, w) == raw.target.x
            &&& spec_lag(prev.target.y as int, raw.target.y as int, w) == raw.target.y
            &&& spec_lag(prev.target.z as int, raw.target.z as int, w) == raw.target.z
        },
        fix_in_range(spec_lag(prev.eye.x as int, raw.eye.x as int, w)),
        fix_in_range(spec_lag(prev.eye.y as int, raw.eye.y as int, w)),
        fix_in_range(spec_lag(prev.eye.z as int, raw.eye.z as int, w)),
        fix_in_range(spec_lag(prev.target.x as int, raw.target.x as int, w)),
        fix_in_range(spec_lag(prev.target.y as int, raw.target.y as int, w)),
        fix_in_range(spec_lag(prev.target.z as int, raw.target.z as int, w)),
{
    lemma_lag_contracts(prev.eye.x as int, raw.eye.x as int, w);
    lemma_lag_contracts(prev.eye.y as int, raw.eye.y as int, w);
    lemma_lag_contracts(prev.eye.z as int, raw.eye.z as int, w);
    lemma_lag_contracts(prev.target.x as int, raw.target.x as int, w);
    lemma_lag_contracts(prev.target.y as int, raw.target.y as int, w);
    lemma_lag_contracts(prev.target.z as int, raw.target.z as int, w);
}

} // verus!
