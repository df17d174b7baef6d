//! World-space rays and their intersection with the horizontal grab plane.

use vstd::prelude::*;

use crate::fixed::{fix_div, fix_sub, spec_add, spec_div, spec_mul, spec_sub};
use crate::vectors::Vec3Fix;

verus! {

/// A ray cast from the camera through a screen point.
#[derive(Clone, Copy, Debug, PartialEq, Eq, Structural)]
pub struct RayFix {
    pub origin: Vec3Fix,
    pub direction: Vec3Fix,
}

/// What the host could resolve for a pointer this frame.
#[derive(Clone, Copy, Debug, PartialEq, Eq, Structural)]
pub enum PointerRay {
    /// No pointer position exists (the cursor is outside the window).
    NoCursor,
    /// A pointer position exists but no world ray could be built for it.
    Unavailable,
    /// The ray through the pointer.
    Ray(RayFix),
}

/// The signed parameter at which `ray` meets the horizontal plane at
/// `height`, scaled by the direction's length.
pub open spec fn spec_plane_distance(ray: RayFix, height: int) -> int {
    spec_div(spec_sub(height, ray.origin.y as int), ray.direction.y as int)
}

/// Where a ray meets the horizontal plane at `height`: the point along the
/// ray at the plane distance, or `None` when the ray runs parallel to the
/// plane or the plane lies behind the ray.
pub fn intersect_horizontal_plane(ray: &RayFix, height: i64) -> (r: Option<Vec3Fix>)
    ensures
        match r {
            Some(p) => {
                let t = spec_plane_distance(*ray, height as int);
                &&& ray.direction.y != 0
                &&& t > 0
                &&& p.x == spec_add(ray.origin.x as int, spec_mul(ray.direction.x as int, t))
                &&& p.y == spec_add(ray.origin.y as int, spec_mul(ray.direction.y as int, t))
                &&& p.z == spec_add(ray.origin.z as int, spec_mul(ray.direction.z as int, t))
                &&& p.in_range()
            },
            None => ray.direction.y == 0 || spec_plane_distance(*ray, height as int) <= 0,
        },
{
    if ray.direction.y == 0 {
        return None;
    }
    let t = fix_div(fix_sub(height, ray.origin.y), ray.direction.y);
    if t > 0 {
        Some(ray.origin.add(ray.direction.scaled(t)))
    } else {
        None
    }
}

} // verus!
