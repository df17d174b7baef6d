//! The projection switcher: a two-state machine between perspective and
//! orthographic projection that saves the camera pose on the way out of
//! perspective and restores it exactly on the way back.

use vstd::prelude::*;

use crate::fixed::{
    FIX_ONE, div_trunc, fix_abs, fix_add, fix_div, lemma_div_trunc_sign, spec_abs, spec_add,
    spec_div, spec_sub,
};
use crate::look_transform::LookTransform;
use crate::vectors::Vec3Fix;

verus! {

/// Parameters of a perspective projection.
#[derive(Clone, Copy, Debug, PartialEq, Eq, Structural)]
pub struct PerspectiveParams {
    /// Vertical field of view, in fixed-point radians.
    pub fov_y: i64,
    pub aspect_ratio: i64,
    pub near: i64,
    pub far: i64,
}

impl Default for PerspectiveParams {
    /// A quarter-turn field of view with a square aspect ratio.
    fn default() -> (r: Self)
        ensures r == spec_default_perspective()
    {
        PerspectiveParams {
            fov_y: 785_398,
            aspect_ratio: FIX_ONE,
            near: 100_000,
            far: 1_000 * FIX_ONE,
        }
    }
}

/// The perspective parameters a fresh camera starts from.
pub open spec fn spec_default_perspective() -> PerspectiveParams {
    PerspectiveParams { fov_y: 785_398, aspect_ratio: 1_000_000, near: 100_000, far: 1_000_000_000 }
}

/// Parameters of an orthographic projection.
#[derive(Clone, Copy, Debug, PartialEq, Eq, Structural)]
pub struct OrthographicParams {
    pub scale: i64,
    pub far: i64,
    /// The world-space height the viewport shows, tied to the eye height at
    /// switch time.
    pub fixed_vertical: i64,
}

/// The camera's projection.
#[derive(Clone, Copy, Debug, PartialEq, Eq, Structural)]
pub enum Projection {
    Perspective(PerspectiveParams),
    Orthographic(OrthographicParams),
}

/// Why a projection transition was refused.
#[derive(Clone, Copy, Debug, PartialEq, Eq, Structural)]
pub enum ProjectionError {
    /// Orthographic entry was requested while not in perspective.
    NotInPerspective,
}

/// The pose and parameters saved on entering orthographic projection,
/// consumed on re-entering perspective.
#[derive(Clone, Copy, Debug)]
pub struct SavedCamera {
    pub saved: Option<(PerspectiveParams, LookTransform)>,
}

impl Default for SavedCamera {
    fn default() -> (r: Self)
        ensures r.saved is None
    {
        SavedCamera { saved: None }
    }
}

/// What entering orthographic leaves behind for the return trip.
pub open spec fn spec_save_on_enter_ortho(pp: PerspectiveParams, pose: LookTransform)
    -> SavedCamera {
    SavedCamera { saved: Some((pp, pose)) }
}

/// What re-entering perspective restores: the saved pair if one exists,
/// else fresh default parameters with the current pose kept.
pub open spec fn spec_restore_on_enter_persp(sv: SavedCamera, current: LookTransform)
    -> (PerspectiveParams, LookTransform) {
    match sv.saved {
        Some(pair) => pair,
        None => (spec_default_perspective(), current),
    }
}

/// Projection round trip: entering orthographic and then perspective again
/// restores exactly the pose and parameters that were saved, whatever pose
/// the camera had meanwhile.
pub proof fn lemma_projection_round_trip(
    pp: PerspectiveParams,
    pose: LookTransform,
    meanwhile: LookTransform,
)
    ensures
        spec_restore_on_enter_persp(spec_save_on_enter_ortho(pp, pose), meanwhile) == (pp, pose),
{
}

/// React to an external switch into perspective projection.  A camera
/// already in perspective is left alone; otherwise the saved parameters and
/// pose are restored (or defaults, if nothing was saved) and the saved slot
/// is cleared.
pub fn enter_perspective(
    transform: &mut LookTransform,
    projection: &mut Projection,
    saved: &mut SavedCamera,
)
    ensures
        *old(projection) is Perspective ==> {
            &&& *final(transform) == *old(transform)
            &&& *final(projection) == *old(projection)
            &&& *final(saved) == *old(saved)
        },
        !(*old(projection) is Perspective) ==> {
            let (pp, pose) = spec_restore_on_enter_persp(*old(saved), *old(transform));
            &&& *final(transform) == pose
            &&& *final(projection) == Projection::Perspective(pp)
            &&& final(saved).saved is None
        },
{
    match projection {
        Projection::Perspective(_) => {}
        Projection::Orthographic(_) => {
            let (pp, pose) = match saved.saved {
                Some(pair) => pair,
                None => (PerspectiveParams::default(), *transform),
            };
            saved.saved = None;
            *projection = Projection::Perspective(pp);
            *transform = pose;
        }
    }
}

/// React to an external switch into orthographic projection.  The camera
/// must currently be in perspective; otherwise the transition is refused
/// and nothing changes.  On success the perspective parameters and pose are
/// saved, the pose is rewritten to look straight down from above the target
/// (keeping the old horizontal heading as the new up direction), and the
/// orthographic scale is derived from the eye height.
pub fn enter_orthographic(
    transform: &mut LookTransform,
    projection: &mut Projection,
    saved: &mut SavedCamera,
) -> (r: Result<(), ProjectionError>)
    requires old(transform).in_range()
    ensures
        match *old(projection) {
            Projection::Orthographic(_) => {
                &&& r == Result::<(), ProjectionError>::Err(ProjectionError::NotInPerspective)
                &&& *final(transform) == *old(transform)
                &&& *final(projection) == *old(projection)
                &&& *final(saved) == *old(saved)
            },
            Projection::Perspective(pp) => {
                &&& r is Ok
                &&& *final(saved) == spec_save_on_enter_ortho(pp, *old(transform))
                &&& *final(projection) is Orthographic
                &&& final(transform).target == old(transform).target
                &&& (old(transform).spec_radius() > 0 && !spec_is_straight_down(
                    *old(transform))) ==> {
                    &&& final(transform).eye.x == old(transform).target.x
                    &&& final(transform).eye.y == spec_add(
                        old(transform).target.y as int, old(transform).spec_radius())
                    &&& final(transform).eye.z == old(transform).target.z
                }
                &&& (old(transform).spec_radius() == 0 || spec_is_straight_down(
                    *old(transform))) ==> {
                    &&& final(transform).eye == old(transform).eye
                    &&& final(transform).up == old(transform).up
                }
            },
        },
{
    let pp = match projection {
        Projection::Perspective(pp) => *pp,
        Projection::Orthographic(_) => {
            return Err(ProjectionError::NotInPerspective);
        }
    };
    saved.saved = Some((pp, *transform));
    let new_projection = ortho_from_looktransform(transform);
    *projection = new_projection;
    Ok(())
}

/// Rewrite a pose to look straight down from directly above its target at
/// the same radius, unless it already does, and derive orthographic
/// parameters whose visible height follows the eye height.  The old look
/// direction, flattened onto the horizontal plane, becomes the new up
/// direction so the screen keeps its heading; if it has no horizontal part
/// the up direction is left alone.
pub fn ortho_from_looktransform(transform: &mut LookTransform) -> (r: Projection)
    requires old(transform).in_range()
    ensures
        final(transform).target == old(transform).target,
        r is Orthographic,
        match r {
            Projection::Orthographic(o) => {
                &&& o.scale == 15 * FIX_ONE
                &&& o.far == 5_000 * FIX_ONE
                &&& o.fixed_vertical == div_trunc(spec_abs(final(transform).eye.y as int), 18)
            },
            Projection::Perspective(_) => false,
        },
        (old(transform).spec_radius() > 0 && !spec_is_straight_down(*old(transform))) ==> {
            &&& final(transform).eye.x == old(transform).target.x
            &&& final(transform).eye.y == spec_add(
                old(transform).target.y as int, old(transform).spec_radius())
            &&& final(transform).eye.z == old(transform).target.z
        },
        (old(transform).spec_radius() == 0 || spec_is_straight_down(*old(transform))) ==> {
            &&& final(transform).eye == old(transform).eye
            &&& final(transform).up == old(transform).up
        },
{
    let dir_opt = transform.look_direction();
    if let Some(dir) = dir_opt {
        if !(dir.x == 0 && dir.y == FIX_ONE && dir.z == 0) {
            let radius = transform.radius();
            transform.eye = Vec3Fix {
                x: transform.target.x,
                y: fix_add(transform.target.y, radius),
                z: transform.target.z,
            };
            let flat = Vec3Fix { x: dir.x, y: 0, z: dir.z };
            let len = flat.length();
            if len > 0 {
                transform.up = Vec3Fix {
                    x: fix_div(flat.x, len),
                    y: 0,
                    z: fix_div(flat.z, len),
                };
            }
        }
    }
    let a = fix_abs(transform.eye.y);
    let vertical = a / 18;
    proof { lemma_div_trunc_sign(a as int, 18); }
    Projection::Orthographic(OrthographicParams {
        scale: 15 * FIX_ONE,
        far: 5_000 * FIX_ONE,
        fixed_vertical: vertical,
    })
}

/// Whether the pose's unit look direction is exactly the vertical axis; in
/// that case the switch into orthographic leaves the pose untouched.
pub open spec fn spec_is_straight_down(t: LookTransform) -> bool {
    let r = t.spec_radius();
    &&& spec_div(spec_sub(t.target.x as int, t.eye.x as int), r) == 0
    &&& spec_div(spec_sub(t.target.y as int, t.eye.y as int), r) == FIX_ONE
    &&& spec_div(spec_sub(t.target.z as int, t.eye.z as int), r) == 0
}

} // verus!
