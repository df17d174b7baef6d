//! The controller state machine: per-camera tunables, control intents, and
//! the per-frame fold that applies the queued intents to the camera pose
//! under the pitch, zoom and grab-plane constraints.

use vstd::prelude::*;

use crate::angles::{
    HALF_PI_FIX, LookAngles, spec_clamp_pitch, spec_cos, spec_pitch_xyz, spec_sin, spec_wrap_yaw,
    spec_yaw_xz,
};
use crate::fixed::{
    FIX_LIMIT, FIX_ONE, fix_add, fix_div, fix_in_range, fix_lerp, fix_max, fix_min, fix_mul,
    fix_neg, fix_sub, lemma_spec_div_props, spec_add, spec_div, spec_lerp, spec_mul, spec_neg,
    spec_sub,
};
use crate::inputs::{InputButton, KEY_SHIFT_LEFT, MOUSE_LEFT, MOUSE_RIGHT};
use crate::look_transform::LookTransform;
use crate::projection::{OrthographicParams, Projection};
use crate::vectors::{Vec2Fix, Vec3Fix};

verus! {

/// The chords bound to the camera actions.
#[derive(Clone, Debug)]
pub struct CameraControllerButtons {
    pub pan: Vec<InputButton>,
    /// Alternative pan binding.
    pub pan_alt: Option<Vec<InputButton>>,
    pub rotate: Vec<InputButton>,
    /// Alternative rotate binding.
    pub rotate_alt: Option<Vec<InputButton>>,
}

impl Default for CameraControllerButtons {
    /// Pan on the primary mouse button; rotate on primary plus left shift,
    /// or on the secondary button alone.
    fn default() -> (r: Self)
        ensures
            r.pan@ == seq![InputButton::Mouse(MOUSE_LEFT)],
            r.pan_alt is None,
            r.rotate@ == seq![InputButton::Mouse(MOUSE_LEFT), InputButton::Key(KEY_SHIFT_LEFT)],
            match r.rotate_alt {
                Some(alt) => alt@ == seq![InputButton::Mouse(MOUSE_RIGHT)],
                None => false,
            },
    {
        let pan = vec![InputButton::Mouse(MOUSE_LEFT)];
        let rotate = vec![InputButton::Mouse(MOUSE_LEFT), InputButton::Key(KEY_SHIFT_LEFT)];
        let rotate_alt = vec![InputButton::Mouse(MOUSE_RIGHT)];
        proof {
            assert(pan@ =~= seq![InputButton::Mouse(MOUSE_LEFT)]);
            assert(rotate@ =~= seq![
                InputButton::Mouse(MOUSE_LEFT), InputButton::Key(KEY_SHIFT_LEFT)]);
            assert(rotate_alt@ =~= seq![InputButton::Mouse(MOUSE_RIGHT)]);
        }
        CameraControllerButtons { pan, pan_alt: None, rotate, rotate_alt: Some(rotate_alt) }
    }
}

/// Process-wide sensitivities, clamp bounds and chord bindings.
#[derive(Clone, Debug)]
pub struct CameraControllerSettings {
    pub touch_enabled: bool,
    pub mouse_zoom_sensitivity_modifier: i64,
    pub mouse_rotation_sensitivity_modifier: i64,
    pub touch_zoom_sensitivity_modifier: i64,
    pub touch_rotation_sensitivity_modifier: i64,
    pub touch_translation_sensitivity_modifier: i64,
    /// Smallest pitch the controller allows, in fixed-point radians.
    pub minimum_pitch: i64,
    pub minimum_zoom: i64,
    pub maximum_zoom: i64,
    pub buttons: CameraControllerButtons,
}

impl CameraControllerSettings {
    /// The bounds the clamping steps rely on.
    pub open spec fn wf(self) -> bool {
        &&& 0 < self.minimum_pitch <= HALF_PI_FIX
        &&& 0 < self.minimum_zoom <= self.maximum_zoom <= FIX_LIMIT
    }

    pub fn with_pan_button(self, btn: Vec<InputButton>) -> (r: Self)
        ensures
            r.buttons.pan == btn,
            r.minimum_pitch == self.minimum_pitch,
            r.minimum_zoom == self.minimum_zoom,
            r.maximum_zoom == self.maximum_zoom,
    {
        let mut s = self;
        s.buttons.pan = btn;
        s
    }

    pub fn with_rotate_button(self, btn: Vec<InputButton>) -> (r: Self)
        ensures
            r.buttons.rotate == btn,
            r.minimum_pitch == self.minimum_pitch,
            r.minimum_zoom == self.minimum_zoom,
            r.maximum_zoom == self.maximum_zoom,
    {
        let mut s = self;
        s.buttons.rotate = btn;
        s
    }
}

impl Default for CameraControllerSettings {
    /// A quarter-radian-per-kilopixel feel: gentle zoom and rotation, a
    /// 25-degree pitch floor, and zoom clamped between 1.5 and 1000 units.
    fn default() -> (r: Self)
        ensures
            r.touch_enabled,
            r.mouse_zoom_sensitivity_modifier == 60_000,
            r.mouse_rotation_sensitivity_modifier == 5_440,
            r.touch_rotation_sensitivity_modifier == 8_000,
            r.touch_zoom_sensitivity_modifier == 8_000,
            r.touch_translation_sensitivity_modifier == 20_000,
            r.minimum_pitch == 436_332,
            r.minimum_zoom == 1_500_000,
            r.maximum_zoom == 1_000 * FIX_ONE,
            r.wf(),
    {
        CameraControllerSettings {
            touch_enabled: true,
            mouse_zoom_sensitivity_modifier: 60_000,
            mouse_rotation_sensitivity_modifier: 5_440,
            touch_rotation_sensitivity_modifier: 8_000,
            touch_zoom_sensitivity_modifier: 8_000,
            touch_translation_sensitivity_modifier: 20_000,
            minimum_pitch: 436_332,
            minimum_zoom: 1_500_000,
            maximum_zoom: 1_000 * FIX_ONE,
            buttons: CameraControllerButtons::default(),
        }
    }
}

/// Per-camera switches and live tunables.
#[derive(Clone, Copy, Debug, PartialEq, Eq, Structural)]
pub struct CameraController {
    pub enabled: bool,
    /// Pixels one scroll line stands for, for pixel-unit scroll events.
    pub pixels_per_line: i64,
    pub smoothing_weight: i64,
    /// Height of the horizontal plane that grab gestures move along.
    pub grab_height: i64,
}

impl CameraController {
    pub open spec fn wf(self) -> bool {
        &&& fix_in_range(self.grab_height as int)
        &&& self.pixels_per_line > 0
        &&& 0 <= self.smoothing_weight < FIX_ONE
    }
}

impl Default for CameraController {
    fn default() -> (r: Self)
        ensures
            r.enabled,
            r.pixels_per_line == 53 * FIX_ONE,
            r.smoothing_weight == 800_000,
            r.grab_height == 0,
            r.wf(),
    {
        CameraController {
            enabled: true,
            pixels_per_line: 53 * FIX_ONE,
            smoothing_weight: 800_000,
            grab_height: 0,
        }
    }
}

/// Interpolates the grab height, for driving it from a host-side animation.
#[derive(Clone, Copy, Debug, PartialEq, Eq, Structural)]
pub struct GrabHeightLens {
    pub start: i64,
    pub end: i64,
}

impl GrabHeightLens {
    /// The height at `ratio` of the way from `start` to `end`.
    pub fn lerp(&self, ratio: i64) -> (r: i64)
        ensures r == spec_lerp(self.start as int, self.end as int, ratio as int)
    {
        fix_lerp(self.start, self.end, ratio)
    }
}

/// One control intent for the current frame, produced by a gesture
/// recognizer and consumed by [`control_system`] in arrival order.
#[derive(Clone, Copy, Debug, PartialEq, Eq, Structural)]
pub enum ControlMessage {
    /// Yaw and pitch deltas, in fixed-point radians.
    Orbit(Vec2Fix),
    /// Translation of the look target.
    TranslateTarget(Vec3Fix),
    /// Scale the orbit radius and recenter toward a world point.
    Zoom { zoom_scalar: i64, zoom_target: Vec3Fix },
}

/// The state the intent fold carries: the look angles, the target and the
/// accumulated zoom scalar.
pub ghost struct FoldState {
    pub yaw: int,
    pub pitch: int,
    pub target_x: int,
    pub target_y: int,
    pub target_z: int,
    pub radius_scalar: int,
}

/// How one intent transforms the fold state.  `radius` is the orbit radius
/// at the start of the frame; the zoom bounds decide whether a zoom intent
/// may also recenter the target.
pub open spec fn spec_apply(
    st: FoldState,
    m: ControlMessage,
    radius: int,
    min_pitch: int,
    min_zoom: int,
    max_zoom: int,
) -> FoldState {
    match m {
        ControlMessage::Orbit(d) => {
            let yaw2 = spec_wrap_yaw(st.yaw + spec_neg(d.x as int));
            let p2 = spec_clamp_pitch(st.pitch + d.y);
            let p3 = if p2 < min_pitch { spec_clamp_pitch(min_pitch) } else { p2 };
            FoldState { yaw: yaw2, pitch: p3, ..st }
        }
        ControlMessage::TranslateTarget(d) => {
            FoldState {
                target_x: spec_add(st.target_x, d.x as int),
                target_y: spec_add(st.target_y, d.y as int),
                target_z: spec_add(st.target_z, d.z as int),
                ..st
            }
        }
        ControlMessage::Zoom { zoom_scalar, zoom_target } => {
            let rs2 = spec_mul(st.radius_scalar, zoom_scalar as int);
            let prospective = spec_mul(rs2, radius);
            if prospective < min_zoom || prospective > max_zoom {
                FoldState { radius_scalar: rs2, ..st }
            } else {
                let k = spec_sub(FIX_ONE as int, zoom_scalar as int);
                let hx = spec_sub(st.target_x, zoom_target.x as int);
                let hz = spec_sub(st.target_z, zoom_target.z as int);
                FoldState {
                    radius_scalar: rs2,
                    target_x: spec_sub(st.target_x, spec_mul(hx, k)),
                    target_y: spec_sub(st.target_y, spec_mul(0, k)),
                    target_z: spec_sub(st.target_z, spec_mul(hz, k)),
                    ..st
                }
            }
        }
    }
}

/// The fold of a whole frame's intents, in arrival order.
pub open spec fn spec_fold(
    msgs: Seq<ControlMessage>,
    st: FoldState,
    radius: int,
    min_pitch: int,
    min_zoom: int,
    max_zoom: int,
) -> FoldState
    decreases msgs.len()
{
    if msgs.len() == 0 {
        st
    } else {
        spec_fold(
            msgs.drop_first(),
            spec_apply(st, msgs[0], radius, min_pitch, min_zoom, max_zoom),
            radius,
            min_pitch,
            min_zoom,
            max_zoom,
        )
    }
}

/// The angles and target the fold starts from: the angles of the reversed
/// look direction, the current target, and a unit zoom scalar.
pub open spec fn spec_initial_state(t: LookTransform) -> FoldState {
    let r = t.spec_radius();
    let nx = spec_neg(spec_div(spec_sub(t.target.x as int, t.eye.x as int), r));
    let ny = spec_neg(spec_div(spec_sub(t.target.y as int, t.eye.y as int), r));
    let nz = spec_neg(spec_div(spec_sub(t.target.z as int, t.eye.z as int), r));
    FoldState {
        yaw: spec_yaw_xz(nx, nz),
        pitch: spec_pitch_xyz(nx, ny, nz),
        target_x: t.target.x as int,
        target_y: t.target.y as int,
        target_z: t.target.z as int,
        radius_scalar: FIX_ONE as int,
    }
}

/// The frame's final orbit radius: the scaled radius clamped into the zoom
/// bounds, upper bound first.
pub open spec fn spec_clamped_radius(rs: int, radius: int, min_zoom: int, max_zoom: int) -> int {
    let p = spec_mul(rs, radius);
    let m = if p <= max_zoom { p } else { max_zoom };
    if m >= min_zoom { m } else { min_zoom }
}

/// Margin that keeps the eye strictly above the grab plane.
pub const EYE_MARGIN: i64 = 100_000;

/// Pitch invariant: after a frame of nothing but orbit intents — at least
/// one — the pitch is at least the configured minimum, from any start.
pub proof fn lemma_pitch_invariant(
    msgs: Seq<ControlMessage>,
    st: FoldState,
    radius: int,
    min_pitch: int,
    min_zoom: int,
    max_zoom: int,
)
    requires
        0 < min_pitch <= HALF_PI_FIX,
        msgs.len() > 0,
        forall|i: int| 0 <= i < msgs.len() ==> msgs[i] is Orbit,
    ensures spec_fold(msgs, st, radius, min_pitch, min_zoom, max_zoom).pitch >= min_pitch
    decreases msgs.len()
{
    let st2 = spec_apply(st, msgs[0], radius, min_pitch, min_zoom, max_zoom);
    if msgs.len() > 1 {
        assert(forall|i: int| 0 <= i < msgs.drop_first().len()
            ==> msgs.drop_first()[i] is Orbit);
        lemma_pitch_invariant(msgs.drop_first(), st2, radius, min_pitch, min_zoom, max_zoom);
    } else {
        assert(st2.pitch >= min_pitch);
        assert(spec_fold(msgs.drop_first(), st2, radius, min_pitch, min_zoom, max_zoom) == st2);
    }
}

/// Zoom bound invariant: whatever zoom intents a frame folds, the radius
/// the controller finally uses lies within the configured bounds.
pub proof fn lemma_zoom_bound_invariant(
    msgs: Seq<ControlMessage>,
    st: FoldState,
    radius: int,
    min_pitch: int,
    min_zoom: int,
    max_zoom: int,
)
    requires min_zoom <= max_zoom
    ensures
        min_zoom <= spec_clamped_radius(
            spec_fold(msgs, st, radius, min_pitch, min_zoom, max_zoom).radius_scalar,
            radius, min_zoom, max_zoom) <= max_zoom,
{
}

/// Re-seat the pose on a freshly moved grab plane: the target jumps to the
/// new height and the eye moves by the same vertical difference.
pub fn update_height(transform: &mut LookTransform, controller: &CameraController)
    ensures
        !controller.enabled ==> *final(transform) == *old(transform),
        controller.enabled ==> {
            &&& final(transform).target.x == old(transform).target.x
            &&& final(transform).target.y == controller.grab_height
            &&& final(transform).target.z == old(transform).target.z
            &&& final(transform).eye.x == old(transform).eye.x
            &&& final(transform).eye.y == spec_add(
                old(transform).eye.y as int,
                spec_sub(controller.grab_height as int, old(transform).target.y as int))
            &&& final(transform).eye.z == old(transform).eye.z
            &&& final(transform).up == old(transform).up
        },
{
    if !controller.enabled {
        return;
    }
    let y_diff = fix_sub(controller.grab_height, transform.target.y);
    transform.target.y = controller.grab_height;
    transform.eye.y = fix_add(transform.eye.y, y_diff);
}

/// Fold the frame's intents into the pose.
///
/// A disabled controller leaves the pose alone (the caller still clears the
/// intent queue, so nothing stale survives into a later frame), and so does
/// a degenerate pose whose eye and target coincide.  Otherwise the angles
/// of the reversed look direction are folded through the intents, the
/// radius is clamped into the zoom bounds, the target is pinned to the grab
/// plane, the eye is rebuilt from the final angles and held above the
/// plane, and under an orthographic projection the magnification follows
/// the radius change.
pub fn control_system(
    events: &Vec<ControlMessage>,
    transform: &mut LookTransform,
    projection: &mut Projection,
    controller: &CameraController,
    settings: &CameraControllerSettings,
)
    requires
        old(transform).in_range(),
        controller.wf(),
        settings.wf(),
        controller.enabled ==> old(transform).eye.y >= old(transform).target.y,
    ensures
        !controller.enabled ==> *final(transform) == *old(transform)
            && *final(projection) == *old(projection),
        controller.enabled && old(transform).spec_radius() == 0
            ==> *final(transform) == *old(transform) && *final(projection) == *old(projection),
        controller.enabled && old(transform).spec_radius() > 0 ==> {
            let radius = old(transform).spec_radius();
            let fs = spec_fold(events@, spec_initial_state(*old(transform)), radius,
                settings.minimum_pitch as int, settings.minimum_zoom as int,
                settings.maximum_zoom as int);
            let rr = spec_clamped_radius(fs.radius_scalar, radius,
                settings.minimum_zoom as int, settings.maximum_zoom as int);
            let ux = spec_mul(spec_cos(fs.pitch), spec_sin(fs.yaw));
            let uy = spec_sin(fs.pitch);
            let uz = spec_mul(spec_cos(fs.pitch), spec_cos(fs.yaw));
            let ey = spec_add(controller.grab_height as int, spec_mul(uy, rr));
            let floor = spec_add(controller.grab_height as int, EYE_MARGIN as int);
            &&& final(transform).target.x == fs.target_x
            &&& final(transform).target.y == controller.grab_height
            &&& final(transform).target.z == fs.target_z
            &&& final(transform).eye.x == spec_add(fs.target_x, spec_mul(ux, rr))
            &&& final(transform).eye.y == (if ey >= floor { ey } else { floor })
            &&& final(transform).eye.z == spec_add(fs.target_z, spec_mul(uz, rr))
            &&& final(transform).up == old(transform).up
            &&& fs.pitch >= 0
            &&& settings.minimum_zoom <= rr <= settings.maximum_zoom
            &&& final(transform).eye.y >= controller.grab_height
            &&& final(transform).in_range()
            &&& match *old(projection) {
                Projection::Perspective(_) => *final(projection) == *old(projection),
                Projection::Orthographic(o) => match *final(projection) {
                    Projection::Orthographic(o2) => {
                        &&& o2.scale == spec_mul(o.scale as int, spec_div(rr, radius))
                        &&& o2.far == o.far
                        &&& o2.fixed_vertical == o.fixed_vertical
                    },
                    Projection::Perspective(_) => false,
                },
            }
        },
{
    if !controller.enabled {
        return;
    }
    let radius = transform.radius();
    let dir = match transform.look_direction() {
        Some(d) => d,
        None => {
            return;
        }
    };
    proof {
        lemma_spec_div_props(
            spec_sub(old(transform).target.y as int, old(transform).eye.y as int),
            old(transform).spec_radius());
    }
    let neg = Vec3Fix { x: fix_neg(dir.x), y: fix_neg(dir.y), z: fix_neg(dir.z) };
    let mut look_angles = LookAngles::from_vector(neg);
    let mut radius_scalar: i64 = FIX_ONE;
    let ghost mp = settings.minimum_pitch as int;
    let ghost mnz = settings.minimum_zoom as int;
    let ghost mxz = settings.maximum_zoom as int;
    let ghost init = spec_initial_state(*old(transform));
    let ghost total = spec_fold(events@, init, radius as int, mp, mnz, mxz);
    proof {
        assert(events@.skip(0) =~= events@);
    }
    let mut k: usize = 0;
    while k < events.len()
        invariant
            0 <= k <= events@.len(),
            controller.wf(),
            settings.wf(),
            mp == settings.minimum_pitch as int,
            mnz == settings.minimum_zoom as int,
            mxz == settings.maximum_zoom as int,
            transform.eye == old(transform).eye,
            transform.up == old(transform).up,
            transform.target.in_range(),
            look_angles.wf(),
            look_angles.pitch >= 0,
            total == spec_fold(events@, init, radius as int, mp, mnz, mxz),
            spec_fold(
                events@.skip(k as int),
                FoldState {
                    yaw: look_angles.yaw as int,
                    pitch: look_angles.pitch as int,
                    target_x: transform.target.x as int,
                    target_y: transform.target.y as int,
                    target_z: transform.target.z as int,
                    radius_scalar: radius_scalar as int,
                },
                radius as int, mp, mnz, mxz) == total,
        decreases events@.len() - k
    {
        let ghost st_before = FoldState {
            yaw: look_angles.yaw as int,
            pitch: look_angles.pitch as int,
            target_x: transform.target.x as int,
            target_y: transform.target.y as int,
            target_z: transform.target.z as int,
            radius_scalar: radius_scalar as int,
        };
        proof {
            assert(events@.skip(k as int)[0] == events@[k as int]);
            assert(events@.skip(k as int).drop_first() =~= events@.skip(k as int + 1));
        }
        match events[k] {
            ControlMessage::Orbit(delta) => {
                look_angles.add_yaw(fix_neg(delta.x));
                look_angles.add_pitch(delta.y);
                if look_angles.get_pitch() < settings.minimum_pitch {
                    look_angles.set_pitch(settings.minimum_pitch);
                }
            }
            ControlMessage::TranslateTarget(delta) => {
                transform.target = transform.target.add(delta);
            }
            ControlMessage::Zoom { zoom_scalar, zoom_target } => {
                radius_scalar = fix_mul(radius_scalar, zoom_scalar);
                let new_radius = fix_mul(radius_scalar, radius);
                if !(new_radius < settings.minimum_zoom || new_radius > settings.maximum_zoom) {
                    let k_scale = fix_sub(FIX_ONE, zoom_scalar);
                    let horiz = Vec3Fix {
                        x: fix_sub(transform.target.x, zoom_target.x),
                        y: 0,
                        z: fix_sub(transform.target.z, zoom_target.z),
                    };
                    transform.target = transform.target.sub(horiz.scaled(k_scale));
                }
            }
        }
        proof {
            assert(FoldState {
                yaw: look_angles.yaw as int,
                pitch: look_angles.pitch as int,
                target_x: transform.target.x as int,
                target_y: transform.target.y as int,
                target_z: transform.target.z as int,
                radius_scalar: radius_scalar as int,
            } == spec_apply(st_before, events@[k as int], radius as int, mp, mnz, mxz));
        }
        k += 1;
    }
    proof {
        assert(events@.skip(events@.len() as int) =~= Seq::<ControlMessage>::empty());
    }
    assert(look_angles.pitch >= 0);
    let new_radius = fix_max(
        fix_min(fix_mul(radius_scalar, radius), settings.maximum_zoom),
        settings.minimum_zoom,
    );
    transform.target.y = controller.grab_height;
    let unit = look_angles.unit_vector();
    transform.eye = transform.target.add(unit.scaled(new_radius));
    let floor = fix_add(controller.grab_height, EYE_MARGIN);
    transform.eye.y = fix_max(transform.eye.y, floor);
    match projection {
        Projection::Orthographic(o) => {
            let ratio = fix_div(new_radius, radius);
            *projection = Projection::Orthographic(OrthographicParams {
                scale: fix_mul(o.scale, ratio),
                far: o.far,
                fixed_vertical: o.fixed_vertical,
            });
        }
        Projection::Perspective(_) => {}
    }
}

} // verus!
