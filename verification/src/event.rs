//! The engine-facing event union.
//!
//! These are the normalized events that the engine consumes. The native
//! library's own event values are modeled in [`crate::native_event`] and
//! mapped onto these types by [`crate::native_event::normalize_event`].

use vstd::prelude::*;

verus! {

/// A mouse button, as the engine names it.
#[derive(Clone, Copy, Debug, PartialEq, Eq, Structural)]
pub enum MouseButton {
    Left,
    Middle,
    Right,
    X1,
    X2,
    Unknown,
}

/// A game-controller analog axis, as the engine names it.
#[derive(Clone, Copy, Debug, PartialEq, Eq, Structural)]
pub enum ControllerAxis {
    LeftX,
    LeftY,
    RightX,
    RightY,
    TriggerLeft,
    TriggerRight,
}

/// A game-controller button, as the engine names it.
#[derive(Clone, Copy, Debug, PartialEq, Eq, Structural)]
pub enum ControllerButton {
    A,
    B,
    X,
    Y,
    Back,
    Guide,
    Start,
    LeftStick,
    RightStick,
    LeftShoulder,
    RightShoulder,
    DPadUp,
    DPadDown,
    DPadLeft,
    DPadRight,
}

/// A normalized input event, the only event shape the engine sees.
#[derive(Clone, Debug, PartialEq)]
pub enum Event {
    Quit,
    DropFile { filename: String },
    WindowMoved { x: i32, y: i32 },
    WindowResized { width: i32, height: i32 },
    KeyDown { key: u32 },
    KeyUp { key: u32 },
    TextInput { text: String },
    MouseMotion { x: i32, y: i32 },
    MouseButtonDown { button: MouseButton },
    MouseButtonUp { button: MouseButton },
    MouseWheel { x: i32, y: i32 },
    ControllerAxisMotion { which: u32, axis: ControllerAxis, value: i32 },
    ControllerButtonDown { which: u32, button: ControllerButton },
    ControllerButtonUp { which: u32, button: ControllerButton },
}

} // verus!
