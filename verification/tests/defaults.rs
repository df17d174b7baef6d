use map_camera::CameraController;
use map_camera::CameraControllerSettings;
use map_camera::controller::CameraControllerButtons;
use map_camera::inputs::{InputButton, KEY_SHIFT_LEFT, MOUSE_LEFT, MOUSE_RIGHT};

#[test]
fn default_bindings() {
    let b = CameraControllerButtons::default();
    assert_eq!(b.pan, vec![InputButton::Mouse(MOUSE_LEFT)]);
    assert!(b.pan_alt.is_none());
    assert_eq!(
        b.rotate,
        vec![InputButton::Mouse(MOUSE_LEFT), InputButton::Key(KEY_SHIFT_LEFT)]
    );
    assert_eq!(b.rotate_alt.unwrap(), vec![InputButton::Mouse(MOUSE_RIGHT)]);
}

#[test]
fn default_settings_hold_the_documented_tunables() {
    let s = CameraControllerSettings::default();
    assert!(s.touch_enabled);
    assert_eq!(s.mouse_zoom_sensitivity_modifier, 60_000);
    assert_eq!(s.mouse_rotation_sensitivity_modifier, 5_440);
    assert_eq!(s.minimum_pitch, 436_332);
    assert_eq!(s.minimum_zoom, 1_500_000);
    assert_eq!(s.maximum_zoom, 1_000_000_000);
}

#[test]
fn default_controller_tunables() {
    let c = CameraController::default();
    assert!(c.enabled);
    assert_eq!(c.pixels_per_line, 53_000_000);
    assert_eq!(c.smoothing_weight, 800_000);
    assert_eq!(c.grab_height, 0);
}

#[test]
fn binding_builders_replace_their_chord() {
    let s = CameraControllerSettings::default()
        .with_pan_button(vec![InputButton::Mouse(MOUSE_RIGHT)])
        .with_rotate_button(vec![InputButton::Mouse(MOUSE_LEFT)]);
    assert_eq!(s.buttons.pan, vec![InputButton::Mouse(MOUSE_RIGHT)]);
    assert_eq!(s.buttons.rotate, vec![InputButton::Mouse(MOUSE_LEFT)]);
}
