use map_camera::look_transform::LookTransform;
use map_camera::projection::{
    OrthographicParams, PerspectiveParams, Projection, ProjectionError, SavedCamera,
    enter_orthographic, enter_perspective, ortho_from_looktransform,
};
use map_camera::vectors::Vec3Fix;

fn fx(v: f64) -> i64 {
    (v * 1_000_000.0).round() as i64
}

fn v3(x: f64, y: f64, z: f64) -> Vec3Fix {
    Vec3Fix { x: fx(x), y: fx(y), z: fx(z) }
}

fn pose(eye: (f64, f64, f64), target: (f64, f64, f64)) -> LookTransform {
    LookTransform {
        eye: v3(eye.0, eye.1, eye.2),
        target: v3(target.0, target.1, target.2),
        up: v3(0.0, 1.0, 0.0),
    }
}

#[test]
fn entering_orthographic_looks_straight_down_and_keeps_the_heading() {
    let mut t = pose((0.0, 6.0, 8.0), (0.0, 0.0, 0.0));
    let projection = ortho_from_looktransform(&mut t);
    assert_eq!(t.eye, v3(0.0, 10.0, 0.0));
    assert_eq!(t.target, v3(0.0, 0.0, 0.0));
    // The old look direction (0, -0.6, -0.8), flattened and renormalized.
    assert_eq!(t.up, v3(0.0, 0.0, -1.0));
    match projection {
        Projection::Orthographic(o) => {
            assert_eq!(o.scale, fx(15.0));
            assert_eq!(o.far, fx(5000.0));
            assert_eq!(o.fixed_vertical, 10_000_000 / 18);
        }
        Projection::Perspective(_) => panic!("not orthographic"),
    }
}

#[test]
fn orthographic_entry_requires_perspective() {
    let mut t = pose((0.0, 6.0, 8.0), (0.0, 0.0, 0.0));
    let before = t;
    let mut projection = Projection::Orthographic(OrthographicParams {
        scale: fx(15.0),
        far: fx(5000.0),
        fixed_vertical: fx(1.0),
    });
    let mut saved = SavedCamera::default();
    let r = enter_orthographic(&mut t, &mut projection, &mut saved);
    assert_eq!(r, Err(ProjectionError::NotInPerspective));
    assert_eq!(t, before);
    assert!(saved.saved.is_none());
}

#[test]
fn round_trip_restores_the_pose_and_parameters_exactly() {
    let original = pose((3.0, 6.0, 8.0), (1.0, 0.0, -1.0));
    let original_params = PerspectiveParams {
        fov_y: fx(0.9),
        aspect_ratio: fx(1.5),
        near: fx(0.25),
        far: fx(2000.0),
    };
    let mut t = original;
    let mut projection = Projection::Perspective(original_params);
    let mut saved = SavedCamera::default();

    assert!(enter_orthographic(&mut t, &mut projection, &mut saved).is_ok());
    assert!(matches!(projection, Projection::Orthographic(_)));
    assert_ne!(t, original);

    // The camera wanders meanwhile; the return trip still restores.
    t.target = v3(50.0, 0.0, 50.0);
    enter_perspective(&mut t, &mut projection, &mut saved);
    assert_eq!(t, original);
    assert_eq!(projection, Projection::Perspective(original_params));
    assert!(saved.saved.is_none());
}

#[test]
fn entering_perspective_twice_is_a_no_op() {
    let mut t = pose((0.0, 6.0, 8.0), (0.0, 0.0, 0.0));
    let before = t;
    let mut projection = Projection::Perspective(PerspectiveParams::default());
    let mut saved = SavedCamera::default();
    enter_perspective(&mut t, &mut projection, &mut saved);
    assert_eq!(t, before);
    assert_eq!(projection, Projection::Perspective(PerspectiveParams::default()));
}

#[test]
fn entering_perspective_without_a_save_uses_defaults() {
    let mut t = pose((0.0, 6.0, 8.0), (0.0, 0.0, 0.0));
    let before = t;
    let mut projection = Projection::Orthographic(OrthographicParams {
        scale: fx(15.0),
        far: fx(5000.0),
        fixed_vertical: fx(1.0),
    });
    let mut saved = SavedCamera::default();
    enter_perspective(&mut t, &mut projection, &mut saved);
    assert_eq!(t, before);
    assert_eq!(projection, Projection::Perspective(PerspectiveParams::default()));
}

#[test]
fn a_degenerate_pose_keeps_its_eye_on_entry() {
    let mut t = pose((1.0, 1.0, 1.0), (1.0, 1.0, 1.0));
    let projection = ortho_from_looktransform(&mut t);
    assert_eq!(t.eye, v3(1.0, 1.0, 1.0));
    match projection {
        Projection::Orthographic(o) => assert_eq!(o.fixed_vertical, 1_000_000 / 18),
        Projection::Perspective(_) => panic!("not orthographic"),
    }
}
