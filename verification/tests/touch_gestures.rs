use map_camera::controller::{CameraController, CameraControllerSettings, ControlMessage};
use map_camera::look_transform::{LookTransform, Smoother};
use map_camera::ray::{PointerRay, RayFix};
use map_camera::touch::{
    GRAB_LAG_WEIGHT, TouchGrabState, TouchIntersectionPointError, grab_pan,
    rotate_orbit_camera, touch_plane_intersection, zoom_orbit_camera,
};
use map_camera::touch_inputs::{Pinch, TouchInputSettings, TouchInputs, TouchPoint};
use map_camera::vectors::{Vec2Fix, Vec3Fix};

fn fx(v: f64) -> i64 {
    (v * 1_000_000.0).round() as i64
}

fn v2(x: f64, y: f64) -> Vec2Fix {
    Vec2Fix { x: fx(x), y: fx(y) }
}

fn v3(x: f64, y: f64, z: f64) -> Vec3Fix {
    Vec3Fix { x: fx(x), y: fx(y), z: fx(z) }
}

fn touch(pos: Vec2Fix, prev: Vec2Fix) -> TouchPoint {
    TouchPoint { position: pos, previous_position: prev }
}

fn two_touches(
    t1: TouchPoint,
    t2: TouchPoint,
    last1: Option<Vec2Fix>,
    last2: Option<Vec2Fix>,
) -> TouchInputs {
    TouchInputs {
        touch_settings: TouchInputSettings::default(),
        touches: vec![t1, t2],
        any_just_released: false,
        last_touch_1: last1,
        last_touch_2: last2,
    }
}

#[test]
fn a_clean_pinch_is_recognized() {
    let t1 = touch(v2(-2.0, 0.0), v2(-1.0, 0.0));
    let t2 = touch(v2(2.0, 0.0), v2(1.0, 0.0));
    let mut inputs = two_touches(t1, t2, Some(v2(-1.0, 0.0)), Some(v2(1.0, 0.0)));
    let p = inputs.get_pinch().unwrap();
    assert_eq!(p.distance_delta, fx(2.0));
    assert_eq!(p.middle, v2(0.0, 0.0));
}

#[test]
fn parallel_motions_are_not_a_pinch() {
    let t1 = touch(v2(2.0, 0.0), v2(0.0, 0.0));
    let t2 = touch(v2(6.0, 0.0), v2(4.0, 0.0));
    let mut inputs = two_touches(t1, t2, Some(v2(0.0, 0.0)), Some(v2(4.0, 0.0)));
    assert!(inputs.get_pinch().is_none());
}

#[test]
fn a_tiny_spread_change_is_not_a_pinch() {
    let t1 = touch(v2(-1.2, 0.0), v2(-1.0, 0.0));
    let t2 = touch(v2(1.2, 0.0), v2(1.0, 0.0));
    let mut inputs = two_touches(t1, t2, Some(v2(-1.0, 0.0)), Some(v2(1.0, 0.0)));
    // The spread grew only 0.4, below the 1.0 threshold.
    assert!(inputs.get_pinch().is_none());
}

#[test]
fn a_still_touch_is_not_a_pinch() {
    let t1 = touch(v2(-1.0, 0.0), v2(-1.0, 0.0));
    let t2 = touch(v2(4.0, 0.0), v2(1.0, 0.0));
    let mut inputs = two_touches(t1, t2, Some(v2(-1.0, 0.0)), Some(v2(1.0, 0.0)));
    assert!(inputs.get_pinch().is_none());
}

#[test]
fn one_or_three_touches_are_never_a_pinch() {
    let t1 = touch(v2(-2.0, 0.0), v2(-1.0, 0.0));
    let mut one = TouchInputs {
        touch_settings: TouchInputSettings::default(),
        touches: vec![t1],
        any_just_released: false,
        last_touch_1: None,
        last_touch_2: None,
    };
    assert!(one.get_pinch().is_none());
}

#[test]
fn a_release_clears_the_remembered_positions() {
    let t1 = touch(v2(-2.0, 0.0), v2(-1.0, 0.0));
    let t2 = touch(v2(2.0, 0.0), v2(1.0, 0.0));
    let mut inputs = two_touches(t1, t2, Some(v2(-1.0, 0.0)), Some(v2(1.0, 0.0)));
    inputs.any_just_released = true;
    inputs.touches = vec![];
    assert!(inputs.get_pinch().is_none());
    assert!(inputs.last_touch_1.is_none());
    assert!(inputs.last_touch_2.is_none());
}

#[test]
fn parallel_motions_make_a_two_touch_drag() {
    let t1 = touch(v2(3.0, 0.0), v2(0.0, 0.0));
    let t2 = touch(v2(7.0, 0.0), v2(4.0, 0.0));
    let mut inputs = two_touches(t1, t2, Some(v2(0.0, 0.0)), Some(v2(4.0, 0.0)));
    let avg = inputs.get_two_touch_drag().unwrap();
    assert_eq!(avg, v2(3.0, 0.0));
}

#[test]
fn diverging_motions_are_not_a_drag() {
    let t1 = touch(v2(-6.0, 0.0), v2(0.0, 0.0));
    let t2 = touch(v2(10.0, 0.0), v2(4.0, 0.0));
    let mut inputs = two_touches(t1, t2, Some(v2(0.0, 0.0)), Some(v2(4.0, 0.0)));
    assert!(inputs.get_two_touch_drag().is_none());
}

#[test]
fn a_short_drag_is_noise() {
    let t1 = touch(v2(0.5, 0.0), v2(0.0, 0.0));
    let t2 = touch(v2(4.5, 0.0), v2(4.0, 0.0));
    let mut inputs = two_touches(t1, t2, Some(v2(0.0, 0.0)), Some(v2(4.0, 0.0)));
    assert!(inputs.get_two_touch_drag().is_none());
}

#[test]
fn two_touch_rotate_scales_the_average_motion() {
    let settings = CameraControllerSettings::default();
    let t1 = touch(v2(3.0, 1.0), v2(0.0, 1.0));
    let t2 = touch(v2(7.0, 1.0), v2(4.0, 1.0));
    let mut inputs = two_touches(t1, t2, Some(v2(0.0, 1.0)), Some(v2(4.0, 1.0)));
    match rotate_orbit_camera(&mut inputs, &settings, true) {
        Some(ControlMessage::Orbit(v)) => {
            assert_eq!(v.x, fx(3.0 * 0.008));
            assert_eq!(v.y, 0);
        }
        other => panic!("unexpected {:?}", other),
    }
}

#[test]
fn two_touch_rotate_is_suppressed_outside_perspective() {
    let settings = CameraControllerSettings::default();
    let t1 = touch(v2(3.0, 0.0), v2(0.0, 0.0));
    let t2 = touch(v2(7.0, 0.0), v2(4.0, 0.0));
    let mut inputs = two_touches(t1, t2, Some(v2(0.0, 0.0)), Some(v2(4.0, 0.0)));
    assert!(rotate_orbit_camera(&mut inputs, &settings, false).is_none());
}

#[test]
fn pinch_zoom_builds_a_zoom_message() {
    let settings = CameraControllerSettings::default();
    let controller = CameraController::default();
    let pinch = Pinch { distance_delta: fx(2.0), middle: v2(0.0, 0.0) };
    let ray = RayFix {
        origin: v3(1.0, 10.0, 1.0),
        direction: v3(0.0, -1.0, 0.0),
    };
    match zoom_orbit_camera(&pinch, &settings, &controller, PointerRay::Ray(ray),
        v3(0.0, 0.0, 0.0)) {
        Some(ControlMessage::Zoom { zoom_scalar, zoom_target }) => {
            // 1 - 2.0 * 0.008 = 0.984.
            assert_eq!(zoom_scalar, fx(0.984));
            assert_eq!(zoom_target, v3(1.0, 0.0, 1.0));
        }
        other => panic!("unexpected {:?}", other),
    }
}

#[test]
fn pinch_zoom_without_a_ray_recenters_on_the_target() {
    let settings = CameraControllerSettings::default();
    let controller = CameraController::default();
    let pinch = Pinch { distance_delta: fx(-3.0), middle: v2(0.0, 0.0) };
    let target = v3(5.0, 0.0, 5.0);
    match zoom_orbit_camera(&pinch, &settings, &controller, PointerRay::Unavailable, target) {
        Some(ControlMessage::Zoom { zoom_scalar, zoom_target }) => {
            assert_eq!(zoom_scalar, fx(1.024));
            assert_eq!(zoom_target, target);
        }
        other => panic!("unexpected {:?}", other),
    }
}

#[test]
fn a_unit_scalar_pinch_is_dropped() {
    let settings = CameraControllerSettings::default();
    let controller = CameraController::default();
    let pinch = Pinch { distance_delta: 0, middle: v2(0.0, 0.0) };
    assert!(zoom_orbit_camera(&pinch, &settings, &controller, PointerRay::Unavailable,
        v3(0.0, 0.0, 0.0)).is_none());
}

#[test]
fn touch_plane_intersection_distinguishes_its_failures() {
    let controller = CameraController::default();
    let no_rays: Vec<RayFix> = vec![];
    assert_eq!(touch_plane_intersection(&controller, &no_rays),
        Err(TouchIntersectionPointError::NoTouchRay));
    let down = RayFix { origin: v3(1.0, 10.0, 2.0), direction: v3(0.0, -1.0, 0.0) };
    let many = vec![down, down];
    assert_eq!(touch_plane_intersection(&controller, &many),
        Err(TouchIntersectionPointError::MultipleTouchRays));
    let up = RayFix { origin: v3(0.0, 10.0, 0.0), direction: v3(0.0, 1.0, 0.0) };
    assert_eq!(touch_plane_intersection(&controller, &vec![up]),
        Err(TouchIntersectionPointError::NoIntersection));
    assert_eq!(touch_plane_intersection(&controller, &vec![down]), Ok(v3(1.0, 0.0, 2.0)));
}

#[test]
fn touch_grab_pan_waits_for_the_hysteresis_threshold() {
    let lt = LookTransform::default();
    let mut smoother = Smoother::new(fx(0.8));
    let ts = TouchInputSettings::default();
    let mut state = TouchGrabState::default();
    let mut inputs = TouchInputs {
        touch_settings: ts,
        touches: vec![],
        any_just_released: false,
        last_touch_1: None,
        last_touch_2: None,
    };

    // Start: the weight drops and the hit is remembered.
    let r = grab_pan(&lt, &mut smoother, &ts,
        Ok((Some(v2(100.0, 100.0)), v3(1.0, 0.0, 1.0))), &mut state, &mut inputs);
    assert!(r.is_none());
    assert_eq!(smoother.lag_weight, GRAB_LAG_WEIGHT);
    assert_eq!(state.saved_smoother_weight, fx(0.8));
    assert!(state.first_ray_hit.is_some());
    assert!(!state.over_threshold);

    // A 2-unit screen move is under the 3-unit threshold: nothing yet.
    let r = grab_pan(&lt, &mut smoother, &ts,
        Ok((Some(v2(102.0, 100.0)), v3(1.4, 0.0, 1.0))), &mut state, &mut inputs);
    assert!(r.is_none());
    assert!(!state.over_threshold);

    // A 5-unit move crosses it and the drag comes out.
    let r = grab_pan(&lt, &mut smoother, &ts,
        Ok((Some(v2(105.0, 100.0)), v3(2.0, 0.0, 1.0))), &mut state, &mut inputs);
    match r {
        Some(ControlMessage::TranslateTarget(d)) => {
            assert_eq!(d.x, fx(-1.0));
            assert_eq!(d.z, 0);
        }
        other => panic!("unexpected {:?}", other),
    }
    assert!(state.over_threshold);

    // Once over the threshold, small moves keep emitting.
    let r = grab_pan(&lt, &mut smoother, &ts,
        Ok((Some(v2(105.5, 100.0)), v3(2.1, 0.0, 1.0))), &mut state, &mut inputs);
    assert!(r.is_some());

    // Losing the touch ray ends the gesture and restores the weight.
    let r = grab_pan(&lt, &mut smoother, &ts,
        Err(TouchIntersectionPointError::NoTouchRay), &mut state, &mut inputs);
    assert!(r.is_none());
    assert_eq!(smoother.lag_weight, fx(0.8));
    assert!(state.first_ray_hit.is_none());
}

#[test]
fn touch_grab_pan_compensates_for_the_smoother() {
    let mut lt = LookTransform::default();
    lt.target = v3(1.0, 0.0, 0.0);
    let mut smoother = Smoother::new(fx(0.8));
    // Seed the smoother with a pose whose target lags 1 unit behind.
    let mut lagged = lt;
    lagged.target = v3(0.0, 0.0, 0.0);
    smoother.smooth_transform(&lagged);
    let ts = TouchInputSettings::default();
    let mut state = TouchGrabState::default();
    state.first_ray_hit = Some(v3(5.0, 0.0, 0.0));
    state.first_screen_touch = Some(v2(0.0, 0.0));
    state.over_threshold = true;
    let mut inputs = TouchInputs {
        touch_settings: ts,
        touches: vec![],
        any_just_released: false,
        last_touch_1: None,
        last_touch_2: None,
    };
    let r = grab_pan(&lt, &mut smoother, &ts,
        Ok((Some(v2(0.0, 0.0)), v3(4.0, 0.0, 0.0))), &mut state, &mut inputs);
    match r {
        // 5 - 4, minus the 1-unit smoothing difference.
        Some(ControlMessage::TranslateTarget(d)) => assert_eq!(d.x, 0),
        other => panic!("unexpected {:?}", other),
    }
}

#[test]
fn touch_grab_pan_ignores_a_missing_touch_position() {
    let lt = LookTransform::default();
    let mut smoother = Smoother::new(fx(0.8));
    let ts = TouchInputSettings::default();
    let mut state = TouchGrabState::default();
    let mut inputs = TouchInputs {
        touch_settings: ts,
        touches: vec![],
        any_just_released: false,
        last_touch_1: None,
        last_touch_2: None,
    };
    let r = grab_pan(&lt, &mut smoother, &ts,
        Ok((None, v3(1.0, 0.0, 1.0))), &mut state, &mut inputs);
    assert!(r.is_none());
    assert!(state.first_ray_hit.is_none());
    assert_eq!(smoother.lag_weight, fx(0.8));
}
