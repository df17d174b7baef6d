//! Touch samples and the two-touch classifiers: pinch and parallel drag.

use vstd::prelude::*;

use crate::fixed::{div_trunc, fix_add, fix_mul, fix_sub, spec_abs, spec_add, spec_isqrt,
    spec_mul, spec_sub};
use crate::vectors::Vec2Fix;

verus! {

/// Thresholds that separate a pinch from a drag and both from noise.
#[derive(Clone, Copy, Debug, PartialEq, Eq, Structural)]
pub struct TouchInputSettings {
    /// Largest dot product two touch motions may have and still count as a
    /// pinch rather than a parallel drag.
    pub allowed_pinch_delta_diff: i64,
    /// Smallest spread change that counts as a pinch.
    pub pinch_threshold: i64,
    /// How closely two motions must agree, and how far they must go, to
    /// count as a two-touch drag.
    pub drag_threshold: i64,
    /// Screen distance a single touch must travel before a grab-pan emits.
    pub grab_drag_threshold: i64,
}

impl Default for TouchInputSettings {
    fn default() -> (r: Self)
        ensures
            r.allowed_pinch_delta_diff == 1_000_000,
            r.pinch_threshold == 1_000_000,
            r.drag_threshold == 5_000_000,
            r.grab_drag_threshold == 3_000_000,
    {
        TouchInputSettings {
            allowed_pinch_delta_diff: 1_000_000,
            pinch_threshold: 1_000_000,
            drag_threshold: 5_000_000,
            grab_drag_threshold: 3_000_000,
        }
    }
}

/// One active touch: where it is now and where it was last frame.
#[derive(Clone, Copy, Debug, PartialEq, Eq, Structural)]
pub struct TouchPoint {
    pub position: Vec2Fix,
    pub previous_position: Vec2Fix,
}

/// A recognized pinch gesture.
#[derive(Clone, Copy, Debug, PartialEq, Eq, Structural)]
pub struct Pinch {
    /// How much the distance between the touches changed since last frame.
    pub distance_delta: i64,
    /// The screen midpoint between the touches, last frame.
    pub middle: Vec2Fix,
}

/// The frame's touch samples plus the positions remembered from the
/// previous frame.  Only one of the classifiers may be used per frame, as
/// each rewrites the remembered positions.
#[derive(Clone, Debug)]
pub struct TouchInputs {
    pub touch_settings: TouchInputSettings,
    pub touches: Vec<TouchPoint>,
    /// Whether any touch ended this frame.
    pub any_just_released: bool,
    pub last_touch_1: Option<Vec2Fix>,
    pub last_touch_2: Option<Vec2Fix>,
}

/// The remembered positions after the release check has cleared them.
pub open spec fn spec_cleared_last(st: TouchInputs) -> (Option<Vec2Fix>, Option<Vec2Fix>) {
    if st.any_just_released {
        (None, None)
    } else {
        (st.last_touch_1, st.last_touch_2)
    }
}

/// The two active touches paired with their remembered positions, if the
/// frame has exactly two touches.
pub open spec fn spec_two_touches(st: TouchInputs) -> Option<
    ((TouchPoint, Vec2Fix), (TouchPoint, Vec2Fix))> {
    let pair = spec_cleared_last(st);
    if st.touches@.len() != 2 {
        None
    } else {
        let t1 = st.touches@[0];
        let t2 = st.touches@[1];
        let a = match pair.0 { Some(p) => p, None => t1.position };
        let b = match pair.1 { Some(p) => p, None => t2.position };
        Some(((t1, a), (t2, b)))
    }
}

/// The pinch the frame's touches describe, if any: two touches, both
/// moving, motions not parallel, spread change past the threshold.
pub open spec fn spec_pinch(st: TouchInputs) -> Option<Pinch> {
    match spec_two_touches(st) {
        None => None,
        Some(pair) => {
            let t1 = pair.0.0;
            let la = pair.0.1;
            let t2 = pair.1.0;
            let lb = pair.1.1;
            let d1x = spec_sub(t1.position.x as int, la.x as int);
            let d1y = spec_sub(t1.position.y as int, la.y as int);
            let d2x = spec_sub(t2.position.x as int, lb.x as int);
            let d2y = spec_sub(t2.position.y as int, lb.y as int);
            if (d1x == 0 && d1y == 0) || (d2x == 0 && d2y == 0) {
                None
            } else {
                let dotv = spec_add(spec_mul(d1x, d2x), spec_mul(d1y, d2y));
                if dotv > st.touch_settings.allowed_pinch_delta_diff {
                    None
                } else {
                    let distance = spec_isqrt(t1.position.diff_norm_sq(t2.position));
                    let previous = spec_isqrt(
                        t1.previous_position.diff_norm_sq(t2.previous_position));
                    let dd = spec_sub(distance, previous);
                    if spec_abs(dd) < st.touch_settings.pinch_threshold {
                        None
                    } else {
                        Some(Pinch {
                            distance_delta: dd as i64,
                            middle: Vec2Fix {
                                x: div_trunc(spec_add(t1.previous_position.x as int,
                                    t2.previous_position.x as int), 2) as i64,
                                y: div_trunc(spec_add(t1.previous_position.y as int,
                                    t2.previous_position.y as int), 2) as i64,
                            },
                        })
                    }
                }
            }
        },
    }
}

/// The two-touch drag the frame's touches describe, if any: two touches
/// whose motions agree within the drag threshold and whose average motion
/// is long enough.
pub open spec fn spec_two_touch_drag(st: TouchInputs) -> Option<Vec2Fix> {
    match spec_two_touches(st) {
        None => None,
        Some(pair) => {
            let t1 = pair.0.0;
            let la = pair.0.1;
            let t2 = pair.1.0;
            let lb = pair.1.1;
            let d1x = spec_sub(t1.position.x as int, la.x as int);
            let d1y = spec_sub(t1.position.y as int, la.y as int);
            let d2x = spec_sub(t2.position.x as int, lb.x as int);
            let d2y = spec_sub(t2.position.y as int, lb.y as int);
            let dist = spec_isqrt((spec_sub(d1x, d2x)) * (spec_sub(d1x, d2x))
                + (spec_sub(d1y, d2y)) * (spec_sub(d1y, d2y)));
            let ax = div_trunc(spec_add(d1x, d2x), 2);
            let ay = div_trunc(spec_add(d1y, d2y), 2);
            let ls = spec_add(spec_mul(ax, ax), spec_mul(ay, ay));
            if dist > st.touch_settings.drag_threshold
                || ls < st.touch_settings.drag_threshold {
                None
            } else {
                Some(Vec2Fix { x: ax as i64, y: ay as i64 })
            }
        },
    }
}

/// The remembered positions each classifier leaves behind.
pub open spec fn spec_last_after(st: TouchInputs) -> (Option<Vec2Fix>, Option<Vec2Fix>) {
    if st.touches@.len() == 2 {
        (Some(st.touches@[0].position), Some(st.touches@[1].position))
    } else {
        spec_cleared_last(st)
    }
}

impl TouchInputs {
    fn get_two_touches(&mut self) -> (r: Option<((TouchPoint, Vec2Fix), (TouchPoint, Vec2Fix))>)
        ensures
            r == spec_two_touches(*old(self)),
            final(self).touch_settings == old(self).touch_settings,
            final(self).touches == old(self).touches,
            final(self).any_just_released == old(self).any_just_released,
            (final(self).last_touch_1, final(self).last_touch_2)
                == spec_last_after(*old(self)),
    {
        if self.any_just_released {
            self.last_touch_1 = None;
            self.last_touch_2 = None;
        }
        if self.touches.len() != 2 {
            return None;
        }
        let t1 = self.touches[0];
        let t2 = self.touches[1];
        let last1 = match self.last_touch_1 {
            Some(p) => p,
            None => t1.position,
        };
        let last2 = match self.last_touch_2 {
            Some(p) => p,
            None => t2.position,
        };
        self.last_touch_1 = Some(t1.position);
        self.last_touch_2 = Some(t2.position);
        Some(((t1, last1), (t2, last2)))
    }

    /// Classify the frame as a pinch, if its two touches move toward or
    /// away from each other clearly enough.
    pub fn get_pinch(&mut self) -> (r: Option<Pinch>)
        ensures
            r == spec_pinch(*old(self)),
            final(self).touch_settings == old(self).touch_settings,
            final(self).touches == old(self).touches,
            final(self).any_just_released == old(self).any_just_released,
            (final(self).last_touch_1, final(self).last_touch_2)
                == spec_last_after(*old(self)),
    {
        let pair = match self.get_two_touches() {
            Some(p) => p,
            None => {
                return None;
            }
        };
        let ((touch1, last_a), (touch2, last_b)) = pair;
        let d1 = touch1.position.sub(last_a);
        let d2 = touch2.position.sub(last_b);
        if (d1.x == 0 && d1.y == 0) || (d2.x == 0 && d2.y == 0) {
            return None;
        }
        if d1.dot(d2) > self.touch_settings.allowed_pinch_delta_diff {
            return None;
        }
        let distance = touch1.position.distance(touch2.position);
        let previous_distance = touch1.previous_position.distance(touch2.previous_position);
        let distance_delta = fix_sub(distance, previous_distance);
        let mag = if distance_delta < 0 { -distance_delta } else { distance_delta };
        if mag < self.touch_settings.pinch_threshold {
            return None;
        }
        let sx = fix_add(touch1.previous_position.x, touch2.previous_position.x);
        let sy = fix_add(touch1.previous_position.y, touch2.previous_position.y);
        let mx = sx / 2;
        let my = sy / 2;
        proof {
            assert(mx == div_trunc(sx as int, 2));
            assert(my == div_trunc(sy as int, 2));
        }
        Some(Pinch { distance_delta, middle: Vec2Fix { x: mx, y: my } })
    }

    /// Classify the frame as a two-touch drag, if its two touches move
    /// together far enough.
    pub fn get_two_touch_drag(&mut self) -> (r: Option<Vec2Fix>)
        ensures
            r == spec_two_touch_drag(*old(self)),
            final(self).touch_settings == old(self).touch_settings,
            final(self).touches == old(self).touches,
            final(self).any_just_released == old(self).any_just_released,
            (final(self).last_touch_1, final(self).last_touch_2)
                == spec_last_after(*old(self)),
    {
        let pair = match self.get_two_touches() {
            Some(p) => p,
            None => {
                return None;
            }
        };
        let ((touch1, last_a), (touch2, last_b)) = pair;
        let d1 = touch1.position.sub(last_a);
        let d2 = touch2.position.sub(last_b);
        let dist = d1.distance(d2);
        let ax = fix_add(d1.x, d2.x) / 2;
        let ay = fix_add(d1.y, d2.y) / 2;
        proof {
            assert(ax == div_trunc(spec_add(d1.x as int, d2.x as int), 2));
            assert(ay == div_trunc(spec_add(d1.y as int, d2.y as int), 2));
        }
        let ls = fix_add(fix_mul(ax, ax), fix_mul(ay, ay));
        if dist > self.touch_settings.drag_threshold
            || ls < self.touch_settings.drag_threshold {
            return None;
        }
        Some(Vec2Fix { x: ax, y: ay })
    }

    /// Forget the remembered positions, so the next frame starts fresh.
    pub fn clear_last_touches(&mut self)
        ensures
            final(self).last_touch_1 is None,
            final(self).last_touch_2 is None,
            final(self).touch_settings == old(self).touch_settings,
            final(self).touches == old(self).touches,
            final(self).any_just_released == old(self).any_just_released,
    {
        self.last_touch_1 = None;
        self.last_touch_2 = None;
    }
}

} // verus!
