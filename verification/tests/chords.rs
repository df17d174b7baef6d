use map_camera::inputs::{InputButton, Inputs, KEY_SHIFT_LEFT, MOUSE_LEFT, MOUSE_RIGHT};

fn state(
    pressed: Vec<InputButton>,
    just_pressed: Vec<InputButton>,
    just_released: Vec<InputButton>,
) -> Inputs {
    Inputs { pressed, just_pressed, just_released }
}

#[test]
fn exact_chord_is_pressed() {
    let s = state(
        vec![InputButton::Mouse(MOUSE_LEFT), InputButton::Key(KEY_SHIFT_LEFT)],
        vec![],
        vec![],
    );
    let chord = vec![InputButton::Mouse(MOUSE_LEFT), InputButton::Key(KEY_SHIFT_LEFT)];
    assert!(s.multi_pressed(&chord));
}

#[test]
fn a_third_held_button_defeats_the_chord() {
    let s = state(
        vec![
            InputButton::Mouse(MOUSE_LEFT),
            InputButton::Key(KEY_SHIFT_LEFT),
            InputButton::Mouse(MOUSE_RIGHT),
        ],
        vec![],
        vec![],
    );
    let chord = vec![InputButton::Mouse(MOUSE_LEFT), InputButton::Key(KEY_SHIFT_LEFT)];
    assert!(!s.multi_pressed(&chord));
}

#[test]
fn a_missing_button_defeats_the_chord() {
    let s = state(
        vec![InputButton::Mouse(MOUSE_LEFT), InputButton::Mouse(MOUSE_RIGHT)],
        vec![],
        vec![],
    );
    let chord = vec![InputButton::Mouse(MOUSE_LEFT), InputButton::Key(KEY_SHIFT_LEFT)];
    assert!(!s.multi_pressed(&chord));
}

#[test]
fn the_empty_chord_is_never_pressed() {
    let s = state(vec![InputButton::Mouse(MOUSE_LEFT)], vec![], vec![]);
    assert!(!s.multi_pressed(&vec![]));
    let none = state(vec![], vec![], vec![]);
    assert!(!none.multi_pressed(&vec![]));
}

#[test]
fn chord_just_pressed_when_its_last_button_goes_down() {
    let s = state(
        vec![InputButton::Mouse(MOUSE_LEFT)],
        vec![InputButton::Key(KEY_SHIFT_LEFT)],
        vec![],
    );
    let chord = vec![InputButton::Mouse(MOUSE_LEFT), InputButton::Key(KEY_SHIFT_LEFT)];
    assert!(s.multi_just_pressed(&chord));
}

#[test]
fn chord_not_just_pressed_without_a_new_button() {
    let s = state(
        vec![InputButton::Mouse(MOUSE_LEFT), InputButton::Key(KEY_SHIFT_LEFT)],
        vec![],
        vec![],
    );
    let chord = vec![InputButton::Mouse(MOUSE_LEFT), InputButton::Key(KEY_SHIFT_LEFT)];
    assert!(!s.multi_just_pressed(&chord));
}

#[test]
fn chord_not_just_pressed_with_an_extra_button_held() {
    let s = state(
        vec![InputButton::Mouse(MOUSE_LEFT), InputButton::Mouse(MOUSE_RIGHT)],
        vec![InputButton::Key(KEY_SHIFT_LEFT)],
        vec![],
    );
    let chord = vec![InputButton::Mouse(MOUSE_LEFT), InputButton::Key(KEY_SHIFT_LEFT)];
    assert!(!s.multi_just_pressed(&chord));
}

#[test]
fn chord_just_released_when_a_button_comes_up() {
    let s = state(
        vec![InputButton::Mouse(MOUSE_LEFT)],
        vec![],
        vec![InputButton::Key(KEY_SHIFT_LEFT)],
    );
    let chord = vec![InputButton::Mouse(MOUSE_LEFT), InputButton::Key(KEY_SHIFT_LEFT)];
    assert!(s.multi_just_released(&chord));
}

#[test]
fn chord_not_just_released_while_fully_held() {
    let s = state(
        vec![InputButton::Mouse(MOUSE_LEFT), InputButton::Key(KEY_SHIFT_LEFT)],
        vec![],
        vec![],
    );
    let chord = vec![InputButton::Mouse(MOUSE_LEFT), InputButton::Key(KEY_SHIFT_LEFT)];
    assert!(!s.multi_just_released(&chord));
}
