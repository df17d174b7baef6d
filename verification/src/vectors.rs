//! Two- and three-component fixed-point vectors.

use vstd::prelude::*;

use crate::fixed::{
    FIX_LIMIT, fix_add, fix_in_range, fix_lerp, fix_mul, fix_sub, is_isqrt, isqrt,
    lemma_isqrt_le_double, lemma_square_bound, spec_add, spec_isqrt, spec_lerp, spec_mul,
    spec_sub,
};

verus! {

/// A point or displacement on the screen plane, in fixed-point units.
#[derive(Clone, Copy, Debug, PartialEq, Eq, Structural)]
pub struct Vec2Fix {
    pub x: i64,
    pub y: i64,
}

/// A point or displacement in world space, in fixed-point units.
#[derive(Clone, Copy, Debug, PartialEq, Eq, Structural)]
pub struct Vec3Fix {
    pub x: i64,
    pub y: i64,
    pub z: i64,
}

impl Vec2Fix {
    pub open spec fn in_range(self) -> bool {
        fix_in_range(self.x as int) && fix_in_range(self.y as int)
    }

    pub fn new(x: i64, y: i64) -> (r: Self)
        ensures r.x == x, r.y == y
    {
        Vec2Fix { x, y }
    }

    pub fn zero() -> (r: Self)
        ensures r.x == 0, r.y == 0
    {
        Vec2Fix { x: 0, y: 0 }
    }

    pub fn add(self, o: Self) -> (r: Self)
        ensures
            r.x == spec_add(self.x as int, o.x as int),
            r.y == spec_add(self.y as int, o.y as int),
            r.in_range(),
    {
        Vec2Fix { x: fix_add(self.x, o.x), y: fix_add(self.y, o.y) }
    }

    pub fn sub(self, o: Self) -> (r: Self)
        ensures
            r.x == spec_sub(self.x as int, o.x as int),
            r.y == spec_sub(self.y as int, o.y as int),
            r.in_range(),
    {
        Vec2Fix { x: fix_sub(self.x, o.x), y: fix_sub(self.y, o.y) }
    }

    pub fn scaled(self, s: i64) -> (r: Self)
        ensures
            r.x == spec_mul(self.x as int, s as int),
            r.y == spec_mul(self.y as int, s as int),
            r.in_range(),
    {
        Vec2Fix { x: fix_mul(self.x, s), y: fix_mul(self.y, s) }
    }

    /// Sum of componentwise products, accumulated with saturation.
    pub fn dot(self, o: Self) -> (r: i64)
        ensures
            r == spec_add(
                spec_mul(self.x as int, o.x as int),
                spec_mul(self.y as int, o.y as int),
            ),
    {
        fix_add(fix_mul(self.x, o.x), fix_mul(self.y, o.y))
    }

    /// Squared length as a wide unscaled integer.
    pub open spec fn norm_sq(self) -> int {
        self.x * self.x + self.y * self.y
    }

    /// Euclidean length, rounded down to the nearest representable scalar.
    pub fn length(self) -> (r: i64)
        requires self.in_range()
        ensures
            r == spec_isqrt(self.norm_sq()),
            is_isqrt(r as int, self.norm_sq()),
            0 <= r <= 2 * FIX_LIMIT,
    {
        proof {
            lemma_square_bound(self.x as int, FIX_LIMIT as int);
            lemma_square_bound(self.y as int, FIX_LIMIT as int);
        }
        let xx: u128 = ((self.x as i128) * (self.x as i128)) as u128;
        let yy: u128 = ((self.y as i128) * (self.y as i128)) as u128;
        let r: u128 = isqrt(xx + yy);
        proof {
            lemma_isqrt_le_double(r as int, self.norm_sq(), FIX_LIMIT as int);
        }
        r as i64
    }

    /// Squared length of the difference `self - o`.
    pub open spec fn diff_norm_sq(self, o: Self) -> int {
        let dx = spec_sub(self.x as int, o.x as int);
        let dy = spec_sub(self.y as int, o.y as int);
        dx * dx + dy * dy
    }

    /// Distance between two points.
    pub fn distance(self, o: Self) -> (r: i64)
        ensures
            r == spec_isqrt(self.diff_norm_sq(o)),
            is_isqrt(r as int, self.diff_norm_sq(o)),
            0 <= r <= 2 * FIX_LIMIT,
    {
        self.sub(o).length()
    }

    pub fn lerp(self, o: Self, t: i64) -> (r: Self)
        ensures
            r.x == spec_lerp(self.x as int, o.x as int, t as int),
            r.y == spec_lerp(self.y as int, o.y as int, t as int),
    {
        Vec2Fix { x: fix_lerp(self.x, o.x, t), y: fix_lerp(self.y, o.y, t) }
    }
}

impl Vec3Fix {
    pub open spec fn in_range(self) -> bool {
        fix_in_range(self.x as int) && fix_in_range(self.y as int) && fix_in_range(self.z as int)
    }

    pub fn new(x: i64, y: i64, z: i64) -> (r: Self)
        ensures r.x == x, r.y == y, r.z == z
    {
        Vec3Fix { x, y, z }
    }

    pub fn zero() -> (r: Self)
        ensures r.x == 0, r.y == 0, r.z == 0
    {
        Vec3Fix { x: 0, y: 0, z: 0 }
    }

    pub fn add(self, o: Self) -> (r: Self)
        ensures
            r.x == spec_add(self.x as int, o.x as int),
            r.y == spec_add(self.y as int, o.y as int),
            r.z == spec_add(self.z as int, o.z as int),
            r.in_range(),
    {
        Vec3Fix { x: fix_add(self.x, o.x), y: fix_add(self.y, o.y), z: fix_add(self.z, o.z) }
    }

    pub fn sub(self, o: Self) -> (r: Self)
        ensures
            r.x == spec_sub(self.x as int, o.x as int),
            r.y == spec_sub(self.y as int, o.y as int),
            r.z == spec_sub(self.z as int, o.z as int),
            r.in_range(),
    {
        Vec3Fix { x: fix_sub(self.x, o.x), y: fix_sub(self.y, o.y), z: fix_sub(self.z, o.z) }
    }

    pub fn scaled(self, s: i64) -> (r: Self)
        ensures
            r.x == spec_mul(self.x as int, s as int),
            r.y == spec_mul(self.y as int, s as int),
            r.z == spec_mul(self.z as int, s as int),
            r.in_range(),
    {
        Vec3Fix { x: fix_mul(self.x, s), y: fix_mul(self.y, s), z: fix_mul(self.z, s) }
    }

    /// Squared length as a wide unscaled integer.
    pub open spec fn norm_sq(self) -> int {
        self.x * self.x + self.y * self.y + self.z * self.z
    }

    /// Euclidean length, rounded down to the nearest representable scalar.
    pub fn length(self) -> (r: i64)
        requires self.in_range()
        ensures
            r == spec_isqrt(self.norm_sq()),
            is_isqrt(r as int, self.norm_sq()),
            0 <= r <= 2 * FIX_LIMIT,
    {
        proof {
            lemma_square_bound(self.x as int, FIX_LIMIT as int);
            lemma_square_bound(self.y as int, FIX_LIMIT as int);
            lemma_square_bound(self.z as int, FIX_LIMIT as int);
        }
        let xx: u128 = ((self.x as i128) * (self.x as i128)) as u128;
        let yy: u128 = ((self.y as i128) * (self.y as i128)) as u128;
        let zz: u128 = ((self.z as i128) * (self.z as i128)) as u128;
        let r: u128 = isqrt(xx + yy + zz);
        proof {
            lemma_isqrt_le_double(r as int, self.norm_sq(), FIX_LIMIT as int);
        }
        r as i64
    }

    /// Squared length of the difference `self - o`.
    pub open spec fn diff_norm_sq(self, o: Self) -> int {
        let dx = spec_sub(self.x as int, o.x as int);
        let dy = spec_sub(self.y as int, o.y as int);
        let dz = spec_sub(self.z as int, o.z as int);
        dx * dx + dy * dy + dz * dz
    }

    /// Distance between two points.
    pub fn distance(self, o: Self) -> (r: i64)
        ensures
            r == spec_isqrt(self.diff_norm_sq(o)),
            is_isqrt(r as int, self.diff_norm_sq(o)),
            0 <= r <= 2 * FIX_LIMIT,
    {
        self.sub(o).length()
    }

    pub fn lerp(self, o: Self, t: i64) -> (r: Self)
        ensures
            r.x == spec_lerp(self.x as int, o.x as int, t as int),
            r.y == spec_lerp(self.y as int, o.y as int, t as int),
            r.z == spec_lerp(self.z as int, o.z as int, t as int),
    {
        Vec3Fix {
            x: fix_lerp(self.x, o.x, t),
            y: fix_lerp(self.y, o.y, t),
            z: fix_lerp(self.z, o.z, t),
        }
    }
}

} // verus!
