//! Touch gesture recognizers: pinch-zoom, two-touch rotate, and the
//! single-touch grab-pan with its hysteresis and smoothing compensation.

use vstd::prelude::*;

use crate::controller::{CameraController, CameraControllerSettings, ControlMessage};
use crate::fixed::{FIX_ONE, spec_isqrt, spec_mul, spec_sub};
use crate::look_transform::{LookTransform, Smoother};
use crate::ray::{PointerRay, RayFix, intersect_horizontal_plane, spec_plane_distance};
use crate::touch_inputs::{Pinch, TouchInputSettings, TouchInputs, spec_two_touch_drag};
use crate::vectors::{Vec2Fix, Vec3Fix};
use crate::fixed::{fix_mul, fix_sub, spec_add};

verus! {

/// Why no single touch could be grabbed this frame.  No ray and too many
/// rays mean the gesture is simply not active; a ray that misses the grab
/// plane is a transient condition the host may log.
#[derive(Clone, Copy, Debug, PartialEq, Eq, Structural)]
pub enum TouchIntersectionPointError {
    NoIntersection,
    MultipleTouchRays,
    NoTouchRay,
}

/// Where the frame's single touch ray meets the grab plane.  Exactly one
/// candidate ray must exist, and it must reach the plane.
pub fn touch_plane_intersection(
    controller: &CameraController,
    touch_rays: &Vec<RayFix>,
) -> (r: Result<Vec3Fix, TouchIntersectionPointError>)
    ensures
        touch_rays@.len() > 1 ==> r == Result::<Vec3Fix, TouchIntersectionPointError>::Err(
            TouchIntersectionPointError::MultipleTouchRays),
        touch_rays@.len() == 0 ==> r == Result::<Vec3Fix, TouchIntersectionPointError>::Err(
            TouchIntersectionPointError::NoTouchRay),
        touch_rays@.len() == 1 ==> {
            let ray = touch_rays@[0];
            let t = spec_plane_distance(ray, controller.grab_height as int);
            match r {
                Ok(p) => {
                    &&& ray.direction.y != 0
                    &&& t > 0
                    &&& p.x == spec_add(ray.origin.x as int, spec_mul(ray.direction.x as int, t))
                    &&& p.y == spec_add(ray.origin.y as int, spec_mul(ray.direction.y as int, t))
                    &&& p.z == spec_add(ray.origin.z as int, spec_mul(ray.direction.z as int, t))
                },
                Err(e) => {
                    &&& e == TouchIntersectionPointError::NoIntersection
                    &&& (ray.direction.y == 0 || t <= 0)
                },
            }
        },
{
    if touch_rays.len() > 1 {
        return Err(TouchIntersectionPointError::MultipleTouchRays);
    }
    if touch_rays.len() == 0 {
        return Err(TouchIntersectionPointError::NoTouchRay);
    }
    let ray = touch_rays[0];
    match intersect_horizontal_plane(&ray, controller.grab_height) {
        Some(p) => Ok(p),
        None => Err(TouchIntersectionPointError::NoIntersection),
    }
}

/// Decide the frame's zoom intent from a recognized pinch.  The host
/// resolves a ray through the pinch midpoint; without one the zoom falls
/// back to the current target, and a ray that misses the plane suppresses
/// the gesture.  A pinch whose scalar rounds to one changes nothing and is
/// dropped.
pub fn zoom_orbit_camera(
    pinch: &Pinch,
    settings: &CameraControllerSettings,
    controller: &CameraController,
    middle_ray: PointerRay,
    current_target: Vec3Fix,
) -> (r: Option<ControlMessage>)
    ensures
        ({
            let scalar = spec_sub(FIX_ONE as int,
                spec_mul(pinch.distance_delta as int,
                    settings.touch_zoom_sensitivity_modifier as int));
            &&& scalar == FIX_ONE ==> r is None
            &&& scalar != FIX_ONE ==> match middle_ray {
                PointerRay::NoCursor | PointerRay::Unavailable => r == Some(
                    ControlMessage::Zoom { zoom_scalar: scalar as i64,
                        zoom_target: current_target }),
                PointerRay::Ray(ray) => {
                    let t = spec_plane_distance(ray, controller.grab_height as int);
                    match r {
                        Some(msg) => match msg {
                            ControlMessage::Zoom { zoom_scalar, zoom_target } => {
                                &&& zoom_scalar == scalar
                                &&& ray.direction.y != 0
                                &&& t > 0
                                &&& zoom_target.x == spec_add(ray.origin.x as int,
                                    spec_mul(ray.direction.x as int, t))
                                &&& zoom_target.y == spec_add(ray.origin.y as int,
                                    spec_mul(ray.direction.y as int, t))
                                &&& zoom_target.z == spec_add(ray.origin.z as int,
                                    spec_mul(ray.direction.z as int, t))
                            },
                            _ => false,
                        },
                        None => ray.direction.y == 0 || t <= 0,
                    }
                },
            }
        }),
{
    let scalar = fix_sub(FIX_ONE,
        fix_mul(pinch.distance_delta, settings.touch_zoom_sensitivity_modifier));
    if scalar == FIX_ONE {
        return None;
    }
    match middle_ray {
        PointerRay::NoCursor | PointerRay::Unavailable => Some(ControlMessage::Zoom {
            zoom_scalar: scalar,
            zoom_target: current_target,
        }),
        PointerRay::Ray(ray) => {
            match intersect_horizontal_plane(&ray, controller.grab_height) {
                Some(target) => Some(ControlMessage::Zoom {
                    zoom_scalar: scalar,
                    zoom_target: target,
                }),
                None => None,
            }
        }
    }
}

/// Decide the frame's orbit intent from two parallel touch motions.
/// Suppressed outside a perspective projection, where orbiting a top-down
/// view has no meaning.
pub fn rotate_orbit_camera(
    touches: &mut TouchInputs,
    settings: &CameraControllerSettings,
    is_perspective: bool,
) -> (r: Option<ControlMessage>)
    ensures
        !is_perspective ==> r is None && *final(touches) == *old(touches),
        is_perspective ==> {
            &&& match spec_two_touch_drag(*old(touches)) {
                Some(avg) => r == Some(ControlMessage::Orbit(Vec2Fix {
                    x: spec_mul(avg.x as int,
                        settings.touch_rotation_sensitivity_modifier as int) as i64,
                    y: spec_mul(avg.y as int,
                        settings.touch_rotation_sensitivity_modifier as int) as i64,
                })),
                None => r is None,
            }
            &&& final(touches).touches == old(touches).touches
            &&& final(touches).touch_settings == old(touches).touch_settings
        },
{
    if !is_perspective {
        return None;
    }
    match touches.get_two_touch_drag() {
        Some(avg) => Some(ControlMessage::Orbit(
            avg.scaled(settings.touch_rotation_sensitivity_modifier))),
        None => None,
    }
}

/// The frame-persistent state of the single-touch grab-pan.
#[derive(Clone, Copy, Debug)]
pub struct TouchGrabState {
    /// World point grabbed when the gesture started.
    pub first_ray_hit: Option<Vec3Fix>,
    /// The smoother weight to restore when the gesture ends.
    pub saved_smoother_weight: i64,
    /// Whether the touch has moved past the hysteresis threshold.
    pub over_threshold: bool,
    /// Screen position where the gesture started.
    pub first_screen_touch: Option<Vec2Fix>,
}

impl Default for TouchGrabState {
    fn default() -> (r: Self)
        ensures
            r.first_ray_hit is None,
            r.saved_smoother_weight == 0,
            !r.over_threshold,
            r.first_screen_touch is None,
    {
        TouchGrabState {
            first_ray_hit: None,
            saved_smoother_weight: 0,
            over_threshold: false,
            first_screen_touch: None,
        }
    }
}

/// Everything one grab-pan step decides.
pub ghost struct GrabPanOutcome {
    pub state: TouchGrabState,
    pub lag_weight: int,
    pub cleared_touches: bool,
    pub message: Option<ControlMessage>,
}

/// The smoother weight a starting grab drops to, so the grabbed point
/// tracks the finger tightly.
pub const GRAB_LAG_WEIGHT: i64 = 100_000;

/// What one grab-pan step does, as a function of the frame's intersection
/// result and the carried state.
pub open spec fn spec_grab_pan(
    lt: LookTransform,
    sm: Smoother,
    ts: TouchInputSettings,
    intersection: Result<(Option<Vec2Fix>, Vec3Fix), TouchIntersectionPointError>,
    st: TouchGrabState,
) -> GrabPanOutcome {
    let starting = st.first_ray_hit is None && (match intersection {
        Ok(pair) => pair.0 is Some,
        Err(_) => false,
    });
    let st1 = if starting {
        match intersection {
            Ok(pair) => TouchGrabState {
                first_ray_hit: Some(pair.1),
                saved_smoother_weight: sm.lag_weight,
                over_threshold: false,
                first_screen_touch: pair.0,
            },
            Err(_) => st,
        }
    } else {
        st
    };
    let w1 = if starting { GRAB_LAG_WEIGHT as int } else { sm.lag_weight as int };
    let stopping = (match intersection {
        Err(e) => e == TouchIntersectionPointError::NoTouchRay
            || e == TouchIntersectionPointError::MultipleTouchRays,
        Ok(_) => false,
    }) && st1.first_ray_hit is Some;
    let st2 = if stopping { TouchGrabState { first_ray_hit: None, ..st1 } } else { st1 };
    let w2 = if stopping { st1.saved_smoother_weight as int } else { w1 };
    match (intersection, st2.first_ray_hit, st2.first_screen_touch) {
        (Ok(pair), Some(first), Some(screen_touch)) => {
            if pair.0 is Some {
                let touch_pos = pair.0->0;
                let point = pair.1;
                let comp_x = match sm.lerp_tfm {
                    Some(smt) => spec_sub(lt.target.x as int, smt.target.x as int),
                    None => 0,
                };
                let comp_y = match sm.lerp_tfm {
                    Some(smt) => spec_sub(lt.target.y as int, smt.target.y as int),
                    None => 0,
                };
                let comp_z = match sm.lerp_tfm {
                    Some(smt) => spec_sub(lt.target.z as int, smt.target.z as int),
                    None => 0,
                };
                let diff = Vec3Fix {
                    x: spec_sub(spec_sub(first.x as int, point.x as int), comp_x) as i64,
                    y: spec_sub(spec_sub(first.y as int, point.y as int), comp_y) as i64,
                    z: spec_sub(spec_sub(first.z as int, point.z as int), comp_z) as i64,
                };
                if spec_isqrt(touch_pos.diff_norm_sq(screen_touch)) > ts.grab_drag_threshold
                    || st2.over_threshold {
                    GrabPanOutcome {
                        state: TouchGrabState { over_threshold: true, ..st2 },
                        lag_weight: w2,
                        cleared_touches: stopping,
                        message: Some(ControlMessage::TranslateTarget(diff)),
                    }
                } else {
                    GrabPanOutcome {
                        state: st2,
                        lag_weight: w2,
                        cleared_touches: stopping,
                        message: None,
                    }
                }
            } else {
                GrabPanOutcome { state: st2, lag_weight: w2, cleared_touches: stopping,
                    message: None }
            }
        },
        _ => GrabPanOutcome { state: st2, lag_weight: w2, cleared_touches: stopping,
            message: None },
    }
}

/// One frame of the single-touch grab-pan.
///
/// A first frame with a touch and a plane hit grabs the hit point, drops
/// the smoother's weight and remembers the screen position.  Loss of the
/// touch ray (or an ambiguous one) ends the gesture, restores the weight
/// and clears the remembered touches.  While the grab lives, the touch
/// must travel past the hysteresis threshold once; from then on each frame
/// emits the drag that keeps the grabbed point under the finger, corrected
/// for the smoother's lag.
pub fn grab_pan(
    look_transform: &LookTransform,
    smoother: &mut Smoother,
    touch_settings: &TouchInputSettings,
    intersection: Result<(Option<Vec2Fix>, Vec3Fix), TouchIntersectionPointError>,
    state: &mut TouchGrabState,
    touch_inputs: &mut TouchInputs,
) -> (r: Option<ControlMessage>)
    ensures
        ({
            let out = spec_grab_pan(*look_transform, *old(smoother), *touch_settings,
                intersection, *old(state));
            &&& *final(state) == out.state
            &&& final(smoother).lag_weight == out.lag_weight
            &&& final(smoother).lerp_tfm == old(smoother).lerp_tfm
            &&& final(smoother).enabled == old(smoother).enabled
            &&& r == out.message
            &&& out.cleared_touches ==> final(touch_inputs).last_touch_1 is None
                && final(touch_inputs).last_touch_2 is None
            &&& !out.cleared_touches ==> *final(touch_inputs) == *old(touch_inputs)
            &&& final(touch_inputs).touches == old(touch_inputs).touches
            &&& final(touch_inputs).touch_settings == old(touch_inputs).touch_settings
        }),
{
    let ghost sm0 = *smoother;
    if state.first_ray_hit.is_none() {
        match intersection {
            Ok((Some(touch_pos), point)) => {
                state.saved_smoother_weight = smoother.lag_weight;
                smoother.lag_weight = GRAB_LAG_WEIGHT;
                state.first_ray_hit = Some(point);
                state.over_threshold = false;
                state.first_screen_touch = Some(touch_pos);
            }
            _ => {}
        }
    }
    let stopping = match intersection {
        Err(TouchIntersectionPointError::NoTouchRay) => true,
        Err(TouchIntersectionPointError::MultipleTouchRays) => true,
        _ => false,
    };
    if stopping && state.first_ray_hit.is_some() {
        smoother.lag_weight = state.saved_smoother_weight;
        state.first_ray_hit = None;
        touch_inputs.clear_last_touches();
    }
    if let Ok((Some(touch_pos), point)) = intersection {
        if let (Some(first), Some(screen_touch)) = (state.first_ray_hit, state.first_screen_touch)
        {
            let smoothing_target_diff = match smoother.lerp_tfm {
                Some(smoothing_transform) => look_transform.target.sub(
                    smoothing_transform.target),
                None => Vec3Fix { x: 0, y: 0, z: 0 },
            };
            let first_hit_diff = first.sub(point).sub(smoothing_target_diff);
            if touch_pos.distance(screen_touch) > touch_settings.grab_drag_threshold
                || state.over_threshold {
                state.over_threshold = true;
                return Some(ControlMessage::TranslateTarget(first_hit_diff));
            }
        }
    }
    None
}

} // verus!
