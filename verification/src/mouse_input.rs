//! The frame's mouse samples: button state, accumulated motion and scroll.

use vstd::prelude::*;

use crate::fixed::{FIX_ONE, fix_add, fix_div, fix_mul, fix_sub, spec_add, spec_div, spec_mul,
    spec_sub};
use crate::inputs::{InputButton, Inputs};
use crate::vectors::Vec2Fix;

verus! {

/// The unit a scroll event reports its delta in.
#[derive(Clone, Copy, Debug, PartialEq, Eq, Structural)]
pub enum MouseScrollUnit {
    Line,
    Pixel,
}

/// One scroll event: a vertical delta in lines or pixels.
#[derive(Clone, Copy, Debug, PartialEq, Eq, Structural)]
pub struct MouseScrollEvent {
    pub unit: MouseScrollUnit,
    pub y: i64,
}

/// The mouse and keyboard samples one frame delivers.
#[derive(Clone, Debug)]
pub struct MouseKeyboardInputs {
    pub inputs: Inputs,
    /// Pointer motion deltas accumulated this frame.
    pub motions: Vec<Vec2Fix>,
    /// Scroll events accumulated this frame.
    pub scrolls: Vec<MouseScrollEvent>,
}

/// The summed motion of a frame, saturating componentwise.
pub open spec fn spec_motion_sum(s: Seq<Vec2Fix>) -> (int, int)
    decreases s.len()
{
    if s.len() == 0 {
        (0int, 0int)
    } else {
        let p = spec_motion_sum(s.drop_last());
        (spec_add(p.0, s.last().x as int), spec_add(p.1, s.last().y as int))
    }
}

/// The zoom scalar a frame's scroll events accumulate: the product of
/// `1 - amount * sensitivity` over the events, pixel deltas first divided
/// by `pixels_per_line`.
pub open spec fn spec_scroll_scalar(
    s: Seq<MouseScrollEvent>,
    pixels_per_line: int,
    sensitivity: int,
) -> int
    decreases s.len()
{
    if s.len() == 0 {
        FIX_ONE as int
    } else {
        let p = spec_scroll_scalar(s.drop_last(), pixels_per_line, sensitivity);
        let amount = match s.last().unit {
            MouseScrollUnit::Line => s.last().y as int,
            MouseScrollUnit::Pixel => spec_div(s.last().y as int, pixels_per_line),
        };
        spec_mul(p, spec_sub(FIX_ONE as int, spec_mul(amount, sensitivity)))
    }
}

impl MouseKeyboardInputs {
    /// The frame's accumulated pointer motion, if the chord is held exactly
    /// and the motion is not zero.
    pub fn mouse_drag(&self, buttons: &Vec<InputButton>) -> (r: Option<Vec2Fix>)
        ensures
            match r {
                Some(v) => {
                    &&& self.inputs.spec_multi_pressed(buttons@)
                    &&& (v.x as int, v.y as int) == spec_motion_sum(self.motions@)
                    &&& !(v.x == 0 && v.y == 0)
                },
                None => !self.inputs.spec_multi_pressed(buttons@)
                    || spec_motion_sum(self.motions@) == (0int, 0int),
            },
    {
        if !self.inputs.multi_pressed(buttons) {
            return None;
        }
        let mut sum = Vec2Fix { x: 0, y: 0 };
        let mut k: usize = 0;
        proof {
            assert(self.motions@.take(0) =~= Seq::<Vec2Fix>::empty());
        }
        while k < self.motions.len()
            invariant
                0 <= k <= self.motions@.len(),
                (sum.x as int, sum.y as int) == spec_motion_sum(self.motions@.take(k as int)),
            decreases self.motions@.len() - k
        {
            proof {
                assert(self.motions@.take(k as int + 1).drop_last()
                    =~= self.motions@.take(k as int));
                assert(self.motions@.take(k as int + 1).last() == self.motions@[k as int]);
            }
            let m = self.motions[k];
            sum = Vec2Fix { x: fix_add(sum.x, m.x), y: fix_add(sum.y, m.y) };
            k += 1;
        }
        proof {
            assert(self.motions@.take(self.motions@.len() as int) =~= self.motions@);
        }
        if sum.x != 0 || sum.y != 0 {
            Some(sum)
        } else {
            None
        }
    }

    /// The zoom scalar of the frame's scroll, or `None` when nothing was
    /// scrolled.
    pub fn scroll_scalar(&self, pixels_per_line: i64, scroll_sensitivity: i64) -> (r: Option<
        i64>)
        requires pixels_per_line > 0
        ensures
            match r {
                Some(v) => {
                    &&& self.scrolls@.len() > 0
                    &&& v == spec_scroll_scalar(self.scrolls@, pixels_per_line as int,
                        scroll_sensitivity as int)
                },
                None => self.scrolls@.len() == 0,
            },
    {
        if self.scrolls.len() == 0 {
            return None;
        }
        let mut scalar: i64 = FIX_ONE;
        let mut k: usize = 0;
        proof {
            assert(self.scrolls@.take(0) =~= Seq::<MouseScrollEvent>::empty());
        }
        while k < self.scrolls.len()
            invariant
                0 <= k <= self.scrolls@.len(),
                pixels_per_line > 0,
                scalar == spec_scroll_scalar(self.scrolls@.take(k as int),
                    pixels_per_line as int, scroll_sensitivity as int),
            decreases self.scrolls@.len() - k
        {
            proof {
                assert(self.scrolls@.take(k as int + 1).drop_last()
                    =~= self.scrolls@.take(k as int));
                assert(self.scrolls@.take(k as int + 1).last() == self.scrolls@[k as int]);
            }
            let ev = self.scrolls[k];
            let amount = match ev.unit {
                MouseScrollUnit::Line => ev.y,
                MouseScrollUnit::Pixel => fix_div(ev.y, pixels_per_line),
            };
            scalar = fix_mul(scalar, fix_sub(FIX_ONE, fix_mul(amount, scroll_sensitivity)));
            k += 1;
        }
        proof {
            assert(self.scrolls@.take(self.scrolls@.len() as int) =~= self.scrolls@);
        }
        Some(scalar)
    }
}

} // verus!
