//! Abstract buttons and chord queries over one frame's input state.
//!
//! A chord is an ordered, duplicate-free list of buttons that must be held
//! together.  `multi_pressed` asks that the held set be *exactly* the
//! chord — never a superset — which makes distinct chord bindings mutually
//! exclusive by construction.

use vstd::prelude::*;

verus! {

/// One abstract button, a mouse button or a key, named by a small code the
/// host assigns.
#[derive(Clone, Copy, Debug, Hash, PartialEq, Eq, Structural)]
pub enum InputButton {
    Mouse(u32),
    Key(u32),
}

/// Code of the primary mouse button.
pub const MOUSE_LEFT: u32 = 0;

/// Code of the secondary mouse button.
pub const MOUSE_RIGHT: u32 = 1;

/// Code of the middle mouse button.
pub const MOUSE_MIDDLE: u32 = 2;

/// Code of the left shift key.
pub const KEY_SHIFT_LEFT: u32 = 16;

/// The buttons held, pressed and released during the current frame, as the
/// host reports them.
#[derive(Clone, Debug)]
pub struct Inputs {
    /// Buttons currently held down.
    pub pressed: Vec<InputButton>,
    /// Buttons that went down this frame.
    pub just_pressed: Vec<InputButton>,
    /// Buttons that went up this frame.
    pub just_released: Vec<InputButton>,
}

impl Inputs {
    /// Each list reports a button at most once.
    pub open spec fn wf(self) -> bool {
        &&& self.pressed@.no_duplicates()
        &&& self.just_pressed@.no_duplicates()
        &&& self.just_released@.no_duplicates()
    }

    /// The held set is exactly the chord: same count, every member held.
    pub open spec fn spec_multi_pressed(self, chord: Seq<InputButton>) -> bool {
        &&& chord.len() > 0
        &&& self.pressed@.len() == chord.len()
        &&& forall|i: int| 0 <= i < chord.len() ==> self.pressed@.contains(#[trigger] chord[i])
    }

    /// The union of held and just-pressed buttons is exactly the chord, and
    /// at least one member went down this frame.
    pub open spec fn spec_multi_just_pressed(self, chord: Seq<InputButton>) -> bool {
        &&& chord.len() > 0
        &&& forall|i: int| 0 <= i < chord.len()
            ==> self.pressed@.contains(#[trigger] chord[i])
                || self.just_pressed@.contains(chord[i])
        &&& exists|i: int| 0 <= i < chord.len()
            && self.just_pressed@.contains(#[trigger] chord[i])
        &&& forall|j: int| 0 <= j < self.pressed@.len()
            ==> chord.contains(#[trigger] self.pressed@[j])
        &&& forall|j: int| 0 <= j < self.just_pressed@.len()
            ==> chord.contains(#[trigger] self.just_pressed@[j])
    }

    /// The union of held and just-released buttons is exactly the chord,
    /// and at least one member went up this frame.
    pub open spec fn spec_multi_just_released(self, chord: Seq<InputButton>) -> bool {
        &&& chord.len() > 0
        &&& forall|i: int| 0 <= i < chord.len()
            ==> self.pressed@.contains(#[trigger] chord[i])
                || self.just_released@.contains(chord[i])
        &&& exists|i: int| 0 <= i < chord.len()
            && self.just_released@.contains(#[trigger] chord[i])
        &&& forall|j: int| 0 <= j < self.pressed@.len()
            ==> chord.contains(#[trigger] self.pressed@[j])
        &&& forall|j: int| 0 <= j < self.just_released@.len()
            ==> chord.contains(#[trigger] self.just_released@[j])
    }

    /// True iff only the buttons of `input` are held, and `input` is not
    /// empty.
    pub fn multi_pressed(&self, input: &Vec<InputButton>) -> (r: bool)
        ensures r == self.spec_multi_pressed(input@)
    {
        if input.len() == 0 {
            return false;
        }
        if self.pressed.len() != input.len() {
            return false;
        }
        let mut pressed = true;
        let mut k: usize = 0;
        while k < input.len()
            invariant
                0 <= k <= input@.len(),
                pressed == forall|i: int| 0 <= i < k
                    ==> self.pressed@.contains(#[trigger] input@[i]),
            decreases input@.len() - k
        {
            pressed = pressed && contains_button(&self.pressed, input[k]);
            k += 1;
        }
        pressed
    }

    /// True iff the chord became fully held this frame with nothing else
    /// held beside it.
    pub fn multi_just_pressed(&self, input: &Vec<InputButton>) -> (r: bool)
        ensures r == self.spec_multi_just_pressed(input@)
    {
        if input.len() == 0 {
            return false;
        }
        let mut all_in_union = true;
        let mut any_just = false;
        let mut k: usize = 0;
        while k < input.len()
            invariant
                0 <= k <= input@.len(),
                all_in_union == forall|i: int| 0 <= i < k
                    ==> self.pressed@.contains(#[trigger] input@[i])
                        || self.just_pressed@.contains(input@[i]),
                any_just == exists|i: int| 0 <= i < k
                    && self.just_pressed@.contains(#[trigger] input@[i]),
            decreases input@.len() - k
        {
            let b = input[k];
            all_in_union = all_in_union
                && (contains_button(&self.pressed, b) || contains_button(&self.just_pressed, b));
            any_just = any_just || contains_button(&self.just_pressed, b);
            k += 1;
        }
        let no_extra = covered_by(&self.pressed, input) && covered_by(&self.just_pressed, input);
        all_in_union && any_just && no_extra
    }

    /// True iff the chord came fully apart this frame with nothing else
    /// held beside it.
    pub fn multi_just_released(&self, input: &Vec<InputButton>) -> (r: bool)
        ensures r == self.spec_multi_just_released(input@)
    {
        if input.len() == 0 {
            return false;
        }
        let mut all_in_union = true;
        let mut any_just = false;
        let mut k: usize = 0;
        while k < input.len()
            invariant
                0 <= k <= input@.len(),
                all_in_union == forall|i: int| 0 <= i < k
                    ==> self.pressed@.contains(#[trigger] input@[i])
                        || self.just_released@.contains(input@[i]),
                any_just == exists|i: int| 0 <= i < k
                    && self.just_released@.contains(#[trigger] input@[i]),
            decreases input@.len() - k
        {
            let b = input[k];
            all_in_union = all_in_union
                && (contains_button(&self.pressed, b) || contains_button(&self.just_released, b));
            any_just = any_just || contains_button(&self.just_released, b);
            k += 1;
        }
        let no_extra = covered_by(&self.pressed, input) && covered_by(&self.just_released, input);
        all_in_union && any_just && no_extra
    }
}

/// Whether `v` holds `b`.
fn contains_button(v: &Vec<InputButton>, b: InputButton) -> (r: bool)
    ensures r == v@.contains(b)
{
    let mut k: usize = 0;
    while k < v.len()
        invariant
            0 <= k <= v@.len(),
            forall|i: int| 0 <= i < k ==> v@[i] != b,
        decreases v@.len() - k
    {
        if v[k] == b {
            return true;
        }
        k += 1;
    }
    false
}

/// Whether every element of `v` occurs in `w`.
fn covered_by(v: &Vec<InputButton>, w: &Vec<InputButton>) -> (r: bool)
    ensures r == forall|j: int| 0 <= j < v@.len() ==> w@.contains(#[trigger] v@[j])
{
    let mut k: usize = 0;
    while k < v.len()
        invariant
            0 <= k <= v@.len(),
            forall|j: int| 0 <= j < k ==> w@.contains(#[trigger] v@[j]),
        decreases v@.len() - k
    {
        if !contains_button(w, v[k]) {
            return false;
        }
        k += 1;
    }
    true
}

/// Chord exclusivity: a chord is not "pressed" while any button outside it
/// is also held, even if every chord member is held.
pub proof fn lemma_chord_exclusive(inputs: Inputs, chord: Seq<InputButton>, extra: InputButton)
    requires
        inputs.wf(),
        chord.no_duplicates(),
        inputs.pressed@.contains(extra),
        !chord.contains(extra),
    ensures !inputs.spec_multi_pressed(chord)
{
    if inputs.spec_multi_pressed(chord) {
        let held = inputs.pressed@.to_set();
        let want = chord.to_set();
        chord.unique_seq_to_set();
        inputs.pressed@.unique_seq_to_set();
        assert(want.insert(extra).subset_of(held)) by {
            assert forall|b: InputButton| want.insert(extra).contains(b)
                implies held.contains(b) by {
                if b == extra {
                } else {
                    assert(chord.contains(b));
                    let i = choose|i: int| 0 <= i < chord.len() && chord[i] == b;
                    assert(inputs.pressed@.contains(chord[i]));
                }
            }
        }
        vstd::set_lib::lemma_len_subset(want.insert(extra), held);
        assert(want.insert(extra).len() == want.len() + 1) by {
            vstd::seq_lib::seq_to_set_is_finite(chord);
        }
    }
}

} // verus!
