//! Orbit / pan / zoom map-camera control logic.
//!
//! The library holds the camera-control pipeline of a map viewer: chord
//! queries over abstract buttons, the mouse and touch gesture recognizers
//! that turn a frame's samples into control intents, the controller fold
//! that applies those intents to an eye/target pose under pitch, zoom and
//! grab-plane constraints, the exponential-lag smoother, and the
//! perspective/orthographic switcher.  The host engine owns input
//! delivery, scheduling and rendering, and calls in with plain values.
//!
//! All world-space quantities are signed fixed-point scalars — an `i64`
//! holding the value times one million — so every step of the pipeline can
//! be stated and checked exactly.

use vstd::prelude::*;

pub mod angles;
pub mod controller;
pub mod inputs;
pub mod fixed;
pub mod look_transform;
pub mod mouse;
pub mod mouse_input;
pub mod ray;
pub mod touch;
pub mod touch_inputs;
pub mod projection;
pub mod vectors;

pub use controller::CameraController;
pub use controller::CameraControllerSettings;
pub use look_transform::LookTransform;

verus! {

/// Phases of the per-frame update, for the host's scheduler: gesture
/// recognizers and the controller run before the pose is consumed, the
/// transform sync after.
#[derive(Clone, Copy, Debug, Hash, PartialEq, Eq, Structural)]
pub enum CameraChange {
    /// Systems that change the camera pose.
    Before,
    /// Systems that consume the changed pose.
    After,
}

} // verus!
