//! A plain-value model of the native library's event union, and the
//! normalization table that maps it onto [`crate::event::Event`].
//!
//! The native library hands its events out as values of its own types, which
//! carry far more variants and fields than the engine reads. The unverified
//! shell copies the fields the engine cares about into [`NativeEvent`], one
//! variant per native variant (everything the engine discards collapses into
//! the `Other` variants), and calls [`normalize_event`]. The whole translation
//! table is therefore verified: [`spec_normalize_event`] states it, and
//! [`lemma_event_mapping_complete`] proves that exactly the four data-free
//! shapes are discarded and every other event is delivered.

use vstd::prelude::*;

use crate::event::ControllerAxis;
use crate::event::ControllerButton;
use crate::event::Event;
use crate::event::MouseButton;

verus! {

/// A mouse button, as the native library tags it.
#[derive(Clone, Copy, Debug, PartialEq, Eq, Structural)]
pub enum NativeMouseButton {
    Left,
    Middle,
    Right,
    X1,
    X2,
    Unknown,
}

/// A game-controller analog axis, as the native library tags it.
#[derive(Clone, Copy, Debug, PartialEq, Eq, Structural)]
pub enum NativeControllerAxis {
    LeftX,
    LeftY,
    RightX,
    RightY,
    TriggerLeft,
    TriggerRight,
}

/// A game-controller button, as the native library tags it.
#[derive(Clone, Copy, Debug, PartialEq, Eq, Structural)]
pub enum NativeControllerButton {
    A,
    B,
    X,
    Y,
    Back,
    Guide,
    Start,
    LeftStick,
    RightStick,
    LeftShoulder,
    RightShoulder,
    DPadUp,
    DPadDown,
    DPadLeft,
    DPadRight,
}

/// A window event, as the native library tags it. Only moves and resizes
/// reach the engine; every other window event is `Other`.
#[derive(Clone, Copy, Debug, PartialEq, Eq, Structural)]
pub enum NativeWindowEvent {
    Moved { x: i32, y: i32 },
    Resized { width: i32, height: i32 },
    Other,
}

/// One event as the native library reports it, reduced to the fields the
/// engine reads. A key event carries the scancode only when the native
/// library knew one; `Other` stands for every native variant the engine
/// discards.
#[derive(Clone, Debug, PartialEq)]
pub enum NativeEvent {
    Quit,
    DropFile { filename: String },
    Window { win_event: NativeWindowEvent },
    KeyDown { scancode: Option<u32> },
    KeyUp { scancode: Option<u32> },
    TextInput { text: String },
    MouseMotion { x: i32, y: i32 },
    MouseButtonDown { button: NativeMouseButton },
    MouseButtonUp { button: NativeMouseButton },
    MouseWheel { x: i32, y: i32 },
    ControllerAxisMotion { which: u32, axis: NativeControllerAxis, value: i16 },
    ControllerButtonDown { which: u32, button: NativeControllerButton },
    ControllerButtonUp { which: u32, button: NativeControllerButton },
    Other,
}

/// The engine's name for a native mouse button.
pub open spec fn spec_normalize_mouse_button(button: NativeMouseButton) -> MouseButton {
    match button {
        NativeMouseButton::Left => MouseButton::Left,
        NativeMouseButton::Middle => MouseButton::Middle,
        NativeMouseButton::Right => MouseButton::Right,
        NativeMouseButton::X1 => MouseButton::X1,
        NativeMouseButton::X2 => MouseButton::X2,
        NativeMouseButton::Unknown => MouseButton::Unknown,
    }
}

/// The engine's name for a native controller axis.
pub open spec fn spec_normalize_axis(axis: NativeControllerAxis) -> ControllerAxis {
    match axis {
        NativeControllerAxis::LeftX => ControllerAxis::LeftX,
        NativeControllerAxis::LeftY => ControllerAxis::LeftY,
        NativeControllerAxis::RightX => ControllerAxis::RightX,
        NativeControllerAxis::RightY => ControllerAxis::RightY,
        NativeControllerAxis::TriggerLeft => ControllerAxis::TriggerLeft,
        NativeControllerAxis::TriggerRight => ControllerAxis::TriggerRight,
    }
}

/// The engine's name for a native controller button.
pub open spec fn spec_normalize_controller_button(button: NativeControllerButton) -> ControllerButton {
    match button {
        NativeControllerButton::A => ControllerButton::A,
        NativeControllerButton::B => ControllerButton::B,
        NativeControllerButton::X => ControllerButton::X,
        NativeControllerButton::Y => ControllerButton::Y,
        NativeControllerButton::Back => ControllerButton::Back,
        NativeControllerButton::Guide => ControllerButton::Guide,
        NativeControllerButton::Start => ControllerButton::Start,
        NativeControllerButton::LeftStick => ControllerButton::LeftStick,
        NativeControllerButton::RightStick => ControllerButton::RightStick,
        NativeControllerButton::LeftShoulder => ControllerButton::LeftShoulder,
        NativeControllerButton::RightShoulder => ControllerButton::RightShoulder,
        NativeControllerButton::DPadUp => ControllerButton::DPadUp,
        NativeControllerButton::DPadDown => ControllerButton::DPadDown,
        NativeControllerButton::DPadLeft => ControllerButton::DPadLeft,
        NativeControllerButton::DPadRight => ControllerButton::DPadRight,
    }
}

/// The full normalization table: `Some(engine event)` for every native event
/// the engine consumes, `None` for the ones it discards (window events other
/// than moves and resizes, key events without a scancode, and every native
/// variant that [`NativeEvent::Other`] stands for).
pub open spec fn spec_normalize_event(event: NativeEvent) -> Option<Event> {
    match event {
        NativeEvent::Quit => Some(Event::Quit),
        NativeEvent::DropFile { filename } => Some(Event::DropFile { filename }),
        NativeEvent::Window { win_event } => match win_event {
            NativeWindowEvent::Moved { x, y } => Some(Event::WindowMoved { x, y }),
            NativeWindowEvent::Resized { width, height } => Some(
                Event::WindowResized { width, height },
            ),
            NativeWindowEvent::Other => None,
        },
        NativeEvent::KeyDown { scancode } => match scancode {
            Some(key) => Some(Event::KeyDown { key }),
            None => None,
        },
        NativeEvent::KeyUp { scancode } => match scancode {
            Some(key) => Some(Event::KeyUp { key }),
            None => None,
        },
        NativeEvent::TextInput { text } => Some(Event::TextInput { text }),
        NativeEvent::MouseMotion { x, y } => Some(Event::MouseMotion { x, y }),
        NativeEvent::MouseButtonDown { button } => Some(
            Event::MouseButtonDown { button: spec_normalize_mouse_button(button) },
        ),
        NativeEvent::MouseButtonUp { button } => Some(
            Event::MouseButtonUp { button: spec_normalize_mouse_button(button) },
        ),
        NativeEvent::MouseWheel { x, y } => Some(Event::MouseWheel { x, y }),
        NativeEvent::ControllerAxisMotion { which, axis, value } => Some(
            Event::ControllerAxisMotion {
                which,
                axis: spec_normalize_axis(axis),
                value: value as i32,
            },
        ),
        NativeEvent::ControllerButtonDown { which, button } => Some(
            Event::ControllerButtonDown {
                which,
                button: spec_normalize_controller_button(button),
            },
        ),
        NativeEvent::ControllerButtonUp { which, button } => Some(
            Event::ControllerButtonUp {
                which,
                button: spec_normalize_controller_button(button),
            },
        ),
        NativeEvent::Other => None,
    }
}

/// A native event that carries nothing the engine reads: a window event other
/// than a move or a resize, a key event without a scancode, or any variant
/// folded into [`NativeEvent::Other`].
pub open spec fn spec_is_discarded(event: NativeEvent) -> bool {
    match event {
        NativeEvent::Window { win_event } => win_event is Other,
        NativeEvent::KeyDown { scancode } => scancode is None,
        NativeEvent::KeyUp { scancode } => scancode is None,
        NativeEvent::Other => true,
        _ => false,
    }
}

/// The normalization table is complete: an event is dropped exactly when it
/// is one of the discarded shapes, so every native event that carries input
/// data reaches the engine.
pub proof fn lemma_event_mapping_complete(event: NativeEvent)
    ensures
        spec_normalize_event(event) is None <==> spec_is_discarded(event),
{
}

/// Maps a native mouse button onto the engine's.
pub fn normalize_mouse_button(button: NativeMouseButton) -> (r: MouseButton)
    ensures
        r == spec_normalize_mouse_button(button),
{
    match button {
        NativeMouseButton::Left => MouseButton::Left,
        NativeMouseButton::Middle => MouseButton::Middle,
        NativeMouseButton::Right => MouseButton::Right,
        NativeMouseButton::X1 => MouseButton::X1,
        NativeMouseButton::X2 => MouseButton::X2,
        NativeMouseButton::Unknown => MouseButton::Unknown,
    }
}

/// Maps a native controller axis onto the engine's.
pub fn normalize_axis(axis: NativeControllerAxis) -> (r: ControllerAxis)
    ensures
        r == spec_normalize_axis(axis),
{
    match axis {
        NativeControllerAxis::LeftX => ControllerAxis::LeftX,
        NativeControllerAxis::LeftY => ControllerAxis::LeftY,
        NativeControllerAxis::RightX => ControllerAxis::RightX,
        NativeControllerAxis::RightY => ControllerAxis::RightY,
        NativeControllerAxis::TriggerLeft => ControllerAxis::TriggerLeft,
        NativeControllerAxis::TriggerRight => ControllerAxis::TriggerRight,
    }
}

/// Maps a native controller button onto the engine's.
pub fn normalize_controller_button(button: NativeControllerButton) -> (r: ControllerButton)
    ensures
        r == spec_normalize_controller_button(button),
{
    match button {
        NativeControllerButton::A => ControllerButton::A,
        NativeControllerButton::B => ControllerButton::B,
        NativeControllerButton::X => ControllerButton::X,
        NativeControllerButton::Y => ControllerButton::Y,
        NativeControllerButton::Back => ControllerButton::Back,
        NativeControllerButton::Guide => ControllerButton::Guide,
        NativeControllerButton::Start => ControllerButton::Start,
        NativeControllerButton::LeftStick => ControllerButton::LeftStick,
        NativeControllerButton::RightStick => ControllerButton::RightStick,
        NativeControllerButton::LeftShoulder => ControllerButton::LeftShoulder,
        NativeControllerButton::RightShoulder => ControllerButton::RightShoulder,
        NativeControllerButton::DPadUp => ControllerButton::DPadUp,
        NativeControllerButton::DPadDown => ControllerButton::DPadDown,
        NativeControllerButton::DPadLeft => ControllerButton::DPadLeft,
        NativeControllerButton::DPadRight => ControllerButton::DPadRight,
    }
}

/// Normalizes one native event: `Some` with the engine's event for everything
/// the engine consumes, `None` for the shapes it discards, exactly as
/// [`spec_normalize_event`] states. The shell polls again on `None`, so the
/// native library's queue order is preserved for the events that survive.
pub fn normalize_event(event: NativeEvent) -> (r: Option<Event>)
    ensures
        r == spec_normalize_event(event),
{
    match event {
        NativeEvent::Quit => Some(Event::Quit),
        NativeEvent::DropFile { filename } => Some(Event::DropFile { filename }),
        NativeEvent::Window { win_event } => match win_event {
            NativeWindowEvent::Moved { x, y } => Some(Event::WindowMoved { x, y }),
            NativeWindowEvent::Resized { width, height } => Some(
                Event::WindowResized { width, height },
            ),
            NativeWindowEvent::Other => None,
        },
        NativeEvent::KeyDown { scancode } => match scancode {
            Some(key) => Some(Event::KeyDown { key }),
            None => None,
        },
        NativeEvent::KeyUp { scancode } => match scancode {
            Some(key) => Some(Event::KeyUp { key }),
            None => None,
        },
        NativeEvent::TextInput { text } => Some(Event::TextInput { text }),
        NativeEvent::MouseMotion { x, y } => Some(Event::MouseMotion { x, y }),
        NativeEvent::MouseButtonDown { button } => Some(
            Event::MouseButtonDown { button: normalize_mouse_button(button) },
        ),
        NativeEvent::MouseButtonUp { button } => Some(
            Event::MouseButtonUp { button: normalize_mouse_button(button) },
        ),
        NativeEvent::MouseWheel { x, y } => Some(Event::MouseWheel { x, y }),
        NativeEvent::ControllerAxisMotion { which, axis, value } => Some(
            Event::ControllerAxisMotion {
                which,
                axis: normalize_axis(axis),
                value: value as i32,
            },
        ),
        NativeEvent::ControllerButtonDown { which, button } => Some(
            Event::ControllerButtonDown {
                which,
                button: normalize_controller_button(button),
            },
        ),
        NativeEvent::ControllerButtonUp { which, button } => Some(
            Event::ControllerButtonUp {
                which,
                button: normalize_controller_button(button),
            },
        ),
        NativeEvent::Other => None,
    }
}

} // verus!
