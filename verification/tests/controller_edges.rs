use map_camera::controller::{
    CameraController, CameraControllerSettings, ControlMessage, control_system,
};
use map_camera::look_transform::{LookTransform, Smoother};
use map_camera::projection::{PerspectiveParams, Projection};
use map_camera::vectors::{Vec2Fix, Vec3Fix};

fn fx(v: f64) -> i64 {
    (v * 1_000_000.0).round() as i64
}

fn to_f(v: i64) -> f64 {
    v as f64 / 1_000_000.0
}

fn pose(eye: (f64, f64, f64), target: (f64, f64, f64)) -> LookTransform {
    LookTransform {
        eye: Vec3Fix { x: fx(eye.0), y: fx(eye.1), z: fx(eye.2) },
        target: Vec3Fix { x: fx(target.0), y: fx(target.1), z: fx(target.2) },
        up: Vec3Fix { x: 0, y: 1_000_000, z: 0 },
    }
}

fn radius_of(t: &LookTransform) -> f64 {
    let dx = to_f(t.eye.x) - to_f(t.target.x);
    let dy = to_f(t.eye.y) - to_f(t.target.y);
    let dz = to_f(t.eye.z) - to_f(t.target.z);
    (dx * dx + dy * dy + dz * dz).sqrt()
}

fn run(events: Vec<ControlMessage>, transform: &mut LookTransform) -> Projection {
    let mut projection = Projection::Perspective(PerspectiveParams::default());
    let controller = CameraController::default();
    let settings = CameraControllerSettings::default();
    control_system(&events, transform, &mut projection, &controller, &settings);
    projection
}

#[test]
fn zoom_toward_an_off_center_point_recenters_horizontally() {
    let mut t = pose((0.0, 6.0, 8.0), (0.0, 0.0, 0.0));
    run(
        vec![ControlMessage::Zoom {
            zoom_scalar: fx(0.9),
            zoom_target: Vec3Fix { x: fx(10.0), y: fx(7.0), z: 0 },
        }],
        &mut t,
    );
    // The target moves a tenth of the way toward the zoom point in the
    // horizontal plane only: -(0 - 10) * 0.1 = 1.
    assert_eq!(t.target.x, fx(1.0));
    assert_eq!(t.target.y, 0);
    assert_eq!(t.target.z, 0);
}

#[test]
fn out_of_bounds_zoom_skips_the_recenter_but_keeps_the_scalar() {
    let mut t = pose((0.0, 6.0, 8.0), (0.0, 0.0, 0.0));
    run(
        vec![
            // This would land at radius 0.01, far below the floor: the
            // recenter step must not run.
            ControlMessage::Zoom {
                zoom_scalar: fx(0.001),
                zoom_target: Vec3Fix { x: fx(10.0), y: 0, z: 0 },
            },
            // A second zoom brings the product back inside the bounds, so
            // this one does recenter: the accumulated scalar is 0.5.
            ControlMessage::Zoom {
                zoom_scalar: fx(500.0),
                zoom_target: Vec3Fix { x: fx(10.0), y: 0, z: 0 },
            },
        ],
        &mut t,
    );
    // Only the second intent moved the target: -(0 - 10) * (1 - 500) is
    // huge and saturates; what matters is that the first one alone moved
    // nothing and the radius still clamps into bounds.
    let r = radius_of(&t);
    assert!(r >= 1.49 && r <= 1000.5, "radius {}", r);
}

#[test]
fn consecutive_zooms_multiply() {
    let mut t = pose((0.0, 60.0, 80.0), (0.0, 0.0, 0.0));
    run(
        vec![
            ControlMessage::Zoom {
                zoom_scalar: fx(0.5),
                zoom_target: Vec3Fix { x: 0, y: 0, z: 0 },
            },
            ControlMessage::Zoom {
                zoom_scalar: fx(0.5),
                zoom_target: Vec3Fix { x: 0, y: 0, z: 0 },
            },
        ],
        &mut t,
    );
    let r = radius_of(&t);
    assert!((r - 25.0).abs() < 0.05, "radius {}", r);
}

#[test]
fn a_full_turn_of_yaw_comes_back_around() {
    let mut t = pose((0.0, 6.0, 8.0), (0.0, 0.0, 0.0));
    let quarter = std::f64::consts::FRAC_PI_2;
    let events: Vec<ControlMessage> = (0..4)
        .map(|_| ControlMessage::Orbit(Vec2Fix { x: fx(quarter), y: 0 }))
        .collect();
    run(events, &mut t);
    assert!((to_f(t.eye.x) - 0.0).abs() < 0.2, "eye.x {}", to_f(t.eye.x));
    assert!((to_f(t.eye.z) - 8.0).abs() < 0.2, "eye.z {}", to_f(t.eye.z));
}

#[test]
fn perspective_projection_is_untouched_by_zoom() {
    let mut t = pose((0.0, 6.0, 8.0), (0.0, 0.0, 0.0));
    let p = run(
        vec![ControlMessage::Zoom {
            zoom_scalar: fx(0.5),
            zoom_target: Vec3Fix { x: 0, y: 0, z: 0 },
        }],
        &mut t,
    );
    assert_eq!(p, Projection::Perspective(PerspectiveParams::default()));
}

#[test]
fn weight_zero_smoothing_follows_the_input_exactly() {
    let mut s = Smoother::new(0);
    s.smooth_transform(&pose((100.0, 0.0, 0.0), (0.0, 0.0, 0.0)));
    let raw = pose((1.0, 2.0, 3.0), (0.0, 0.0, 0.0));
    let out = s.smooth_transform(&raw);
    assert_eq!(out, raw);
}

#[test]
fn the_eye_floor_keeps_the_plane_visible() {
    // A level pose with no orbit intent keeps its zero pitch, so the eye
    // would land on the plane itself; the floor pushes it a tenth up.
    let mut t = pose((10.0, 0.0, 0.0), (0.0, 0.0, 0.0));
    let mut projection = Projection::Perspective(PerspectiveParams::default());
    let controller = CameraController::default();
    let settings = CameraControllerSettings::default();
    control_system(&vec![], &mut t, &mut projection, &controller, &settings);
    assert_eq!(t.target.y, 0);
    assert!(t.eye.y >= fx(0.1), "eye.y {}", to_f(t.eye.y));
    assert!(t.eye.y <= fx(0.2), "eye.y {}", to_f(t.eye.y));
}
