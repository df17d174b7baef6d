//! Mouse gesture recognizers: rotate, zoom and grab-pan.
//!
//! Each recognizer reads the frame's samples and decides at most one
//! control intent; the host performs the surrounding input delivery and
//! cursor display.

use vstd::prelude::*;

use crate::controller::{CameraController, CameraControllerSettings, ControlMessage};
use crate::inputs::Inputs;
use crate::mouse_input::{MouseKeyboardInputs, spec_motion_sum};
use crate::ray::{PointerRay, RayFix, intersect_horizontal_plane, spec_plane_distance};
use crate::vectors::Vec3Fix;
use crate::fixed::{spec_add, spec_mul, spec_sub};

verus! {

/// The cursor shape a gesture asks the host window to show.
#[derive(Clone, Copy, Debug, PartialEq, Eq, Structural)]
pub enum CursorHint {
    /// A closed hand, while a grab-pan is active.
    Grabbing,
    /// The ordinary pointer.
    Normal,
}

/// The motion the rotate gesture acts on: the frame's motion sum if the
/// rotate chord — or, failing that, its alternative — is held exactly and
/// the sum is not zero.
pub open spec fn spec_rotate_motion(
    m: MouseKeyboardInputs,
    settings: CameraControllerSettings,
) -> Option<(int, int)> {
    let sum = spec_motion_sum(m.motions@);
    if m.inputs.spec_multi_pressed(settings.buttons.rotate@) && sum != (0int, 0int) {
        Some(sum)
    } else {
        match settings.buttons.rotate_alt {
            Some(alt) => if m.inputs.spec_multi_pressed(alt@) && sum != (0int, 0int) {
                Some(sum)
            } else {
                None
            },
            None => None,
        }
    }
}

/// Decide the frame's orbit intent from mouse motion.  Rotation is only
/// recognized under a perspective projection; a top-down orthographic view
/// cannot be orbited.
pub fn rotate_orbit_camera(
    settings: &CameraControllerSettings,
    mouse_inputs: &MouseKeyboardInputs,
    is_perspective: bool,
) -> (r: Option<ControlMessage>)
    ensures
        match r {
            Some(msg) => match msg {
                ControlMessage::Orbit(v) => {
                    &&& is_perspective
                    &&& match spec_rotate_motion(*mouse_inputs, *settings) {
                        Some(sum) => {
                            &&& v.x == spec_mul(sum.0,
                                settings.mouse_rotation_sensitivity_modifier as int)
                            &&& v.y == spec_mul(sum.1,
                                settings.mouse_rotation_sensitivity_modifier as int)
                        },
                        None => false,
                    }
                },
                _ => false,
            },
            None => !is_perspective
                || spec_rotate_motion(*mouse_inputs, *settings) is None,
        },
{
    if !is_perspective {
        return None;
    }
    let motion = match mouse_inputs.mouse_drag(&settings.buttons.rotate) {
        Some(m) => Some(m),
        None => {
            match &settings.buttons.rotate_alt {
                Some(alt) => mouse_inputs.mouse_drag(alt),
                None => None,
            }
        }
    };
    match motion {
        Some(m) => Some(ControlMessage::Orbit(
            m.scaled(settings.mouse_rotation_sensitivity_modifier))),
        None => None,
    }
}

/// Decide the frame's zoom intent from scroll.  The zoom recenters on the
/// point where the pointer's ray meets the grab plane; without a usable
/// ray it zooms on the current target, and a ray that misses the plane
/// suppresses the gesture.
pub fn zoom_orbit_camera(
    mouse_inputs: &MouseKeyboardInputs,
    controller: &CameraController,
    settings: &CameraControllerSettings,
    pointer: PointerRay,
    current_target: Vec3Fix,
) -> (r: Option<ControlMessage>)
    requires controller.wf()
    ensures
        mouse_inputs.scrolls@.len() == 0 ==> r is None,
        mouse_inputs.scrolls@.len() > 0 ==> {
            let scalar = crate::mouse_input::spec_scroll_scalar(mouse_inputs.scrolls@,
                controller.pixels_per_line as int,
                settings.mouse_zoom_sensitivity_modifier as int);
            match pointer {
                PointerRay::NoCursor | PointerRay::Unavailable => r == Some(
                    ControlMessage::Zoom { zoom_scalar: scalar as i64,
                        zoom_target: current_target }),
                PointerRay::Ray(ray) => match r {
                    Some(msg) => match msg {
                        ControlMessage::Zoom { zoom_scalar, zoom_target } => {
                            &&& zoom_scalar == scalar
                            &&& ray.direction.y != 0
                            &&& spec_plane_distance(ray, controller.grab_height as int) > 0
                            &&& {
                                let t = spec_plane_distance(ray,
                                    controller.grab_height as int);
                                &&& zoom_target.x == spec_add(ray.origin.x as int,
                                    spec_mul(ray.direction.x as int, t))
                                &&& zoom_target.y == spec_add(ray.origin.y as int,
                                    spec_mul(ray.direction.y as int, t))
                                &&& zoom_target.z == spec_add(ray.origin.z as int,
                                    spec_mul(ray.direction.z as int, t))
                            }
                        },
                        _ => false,
                    },
                    None => ray.direction.y == 0
                        || spec_plane_distance(ray, controller.grab_height as int) <= 0,
                },
            }
        },
{
    let scalar = match mouse_inputs.scroll_scalar(
        controller.pixels_per_line, settings.mouse_zoom_sensitivity_modifier) {
        Some(s) => s,
        None => {
            return None;
        }
    };
    match pointer {
        PointerRay::NoCursor | PointerRay::Unavailable => Some(ControlMessage::Zoom {
            zoom_scalar: scalar,
            zoom_target: current_target,
        }),
        PointerRay::Ray(ray) => {
            match intersect_horizontal_plane(&ray, controller.grab_height) {
                Some(target) => Some(ControlMessage::Zoom {
                    zoom_scalar: scalar,
                    zoom_target: target,
                }),
                None => None,
            }
        }
    }
}

/// Where the mouse pointer's ray meets the grab plane, if the host
/// resolved a ray at all and the ray reaches the plane.
pub fn get_plane_intersection_point(
    controller: &CameraController,
    mouse_ray: Option<RayFix>,
) -> (r: Option<Vec3Fix>)
    ensures
        match mouse_ray {
            None => r is None,
            Some(ray) => match r {
                Some(p) => {
                    let t = spec_plane_distance(ray, controller.grab_height as int);
                    &&& ray.direction.y != 0
                    &&& t > 0
                    &&& p.x == spec_add(ray.origin.x as int, spec_mul(ray.direction.x as int, t))
                    &&& p.y == spec_add(ray.origin.y as int, spec_mul(ray.direction.y as int, t))
                    &&& p.z == spec_add(ray.origin.z as int, spec_mul(ray.direction.z as int, t))
                },
                None => ray.direction.y == 0
                    || spec_plane_distance(ray, controller.grab_height as int) <= 0,
            },
        },
{
    match mouse_ray {
        Some(ray) => intersect_horizontal_plane(&ray, controller.grab_height),
        None => None,
    }
}

/// One frame of the grab-pan state machine.
///
/// While the pan chord is held exactly: the first frame with a plane hit
/// records it and asks for a grabbing cursor; later frames emit the drag
/// needed to keep that first point under the pointer.  Releasing the chord
/// clears the grab and restores the cursor.  A frame without a usable hit
/// leaves the gesture untouched.
pub fn grab_pan(
    inputs: &Inputs,
    settings: &CameraControllerSettings,
    controller: &CameraController,
    mouse_ray: Option<RayFix>,
    first_ray_hit: &mut Option<Vec3Fix>,
) -> (r: (Option<ControlMessage>, Option<CursorHint>))
    ensures
        ({
            let pressed = inputs.spec_multi_pressed(settings.buttons.pan@);
            &&& !pressed && (*old(first_ray_hit)) is Some ==> {
                &&& (*final(first_ray_hit)) is None
                &&& r == (None::<ControlMessage>, Some(CursorHint::Normal))
            }
            &&& !pressed && (*old(first_ray_hit)) is None ==> {
                &&& (*final(first_ray_hit)) is None
                &&& r == (None::<ControlMessage>, None::<CursorHint>)
            }
            &&& pressed ==> match (hit_of(*controller, mouse_ray), *old(first_ray_hit)) {
                (None, _) => *final(first_ray_hit) == *old(first_ray_hit)
                    && r == (None::<ControlMessage>, None::<CursorHint>),
                (Some(point), Some(first)) => {
                    &&& *final(first_ray_hit) == *old(first_ray_hit)
                    &&& r == (Some(ControlMessage::TranslateTarget(Vec3Fix {
                        x: spec_sub(first.x as int, point.x as int) as i64,
                        y: spec_sub(first.y as int, point.y as int) as i64,
                        z: spec_sub(first.z as int, point.z as int) as i64,
                    })), None::<CursorHint>)
                },
                (Some(point), None) => {
                    &&& *final(first_ray_hit) == Some(point)
                    &&& r == (None::<ControlMessage>, Some(CursorHint::Grabbing))
                },
            }
        }),
{
    if inputs.multi_pressed(&settings.buttons.pan) {
        let intersection = get_plane_intersection_point(controller, mouse_ray);
        match intersection {
            None => (None, None),
            Some(point) => {
                match *first_ray_hit {
                    Some(first) => {
                        (Some(ControlMessage::TranslateTarget(first.sub(point))), None)
                    }
                    None => {
                        *first_ray_hit = Some(point);
                        (None, Some(CursorHint::Grabbing))
                    }
                }
            }
        }
    } else if first_ray_hit.is_some() {
        *first_ray_hit = None;
        (None, Some(CursorHint::Normal))
    } else {
        (None, None)
    }
}

/// The plane hit the pan gesture acts on, as a function of the frame's
/// ray: the intersection point, or `None` without a ray or intersection.
pub open spec fn hit_of(controller: CameraController, mouse_ray: Option<RayFix>) -> Option<
    Vec3Fix> {
    match mouse_ray {
        None => None,
        Some(ray) => {
            let t = spec_plane_distance(ray, controller.grab_height as int);
            if ray.direction.y == 0 || t <= 0 {
                None
            } else {
                Some(Vec3Fix {
                    x: spec_add(ray.origin.x as int, spec_mul(ray.direction.x as int, t)) as i64,
                    y: spec_add(ray.origin.y as int, spec_mul(ray.direction.y as int, t)) as i64,
                    z: spec_add(ray.origin.z as int, spec_mul(ray.direction.z as int, t)) as i64,
                })
            }
        },
    }
}

} // verus!
