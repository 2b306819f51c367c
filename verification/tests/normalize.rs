use platform::event::ControllerAxis;
use platform::event::ControllerButton;
use platform::event::Event;
use platform::event::MouseButton;
use platform::native_event::normalize_axis;
use platform::native_event::normalize_controller_button;
use platform::native_event::normalize_event;
use platform::native_event::normalize_mouse_button;
use platform::native_event::NativeControllerAxis;
use platform::native_event::NativeControllerButton;
use platform::native_event::NativeEvent;
use platform::native_event::NativeMouseButton;
use platform::native_event::NativeWindowEvent;

#[test]
fn quit_is_delivered() {
    assert_eq!(normalize_event(NativeEvent::Quit), Some(Event::Quit));
}

#[test]
fn drop_file_keeps_the_filename() {
    let r = normalize_event(NativeEvent::DropFile {
        filename: String::from("frame.png"),
    });
    assert_eq!(
        r,
        Some(Event::DropFile {
            filename: String::from("frame.png")
        })
    );
}

#[test]
fn window_moved_keeps_the_position() {
    let r = normalize_event(NativeEvent::Window {
        win_event: NativeWindowEvent::Moved { x: -3, y: 17 },
    });
    assert_eq!(r, Some(Event::WindowMoved { x: -3, y: 17 }));
}

#[test]
fn window_resized_keeps_the_size() {
    let r = normalize_event(NativeEvent::Window {
        win_event: NativeWindowEvent::Resized {
            width: 640,
            height: 480,
        },
    });
    assert_eq!(
        r,
        Some(Event::WindowResized {
            width: 640,
            height: 480
        })
    );
}

#[test]
fn other_window_events_are_discarded() {
    let r = normalize_event(NativeEvent::Window {
        win_event: NativeWindowEvent::Other,
    });
    assert_eq!(r, None);
}

#[test]
fn key_down_with_scancode_is_delivered() {
    let r = normalize_event(NativeEvent::KeyDown { scancode: Some(41) });
    assert_eq!(r, Some(Event::KeyDown { key: 41 }));
}

#[test]
fn key_down_without_scancode_is_discarded() {
    assert_eq!(normalize_event(NativeEvent::KeyDown { scancode: None }), None);
}

#[test]
fn key_up_with_scancode_is_delivered() {
    let r = normalize_event(NativeEvent::KeyUp { scancode: Some(4) });
    assert_eq!(r, Some(Event::KeyUp { key: 4 }));
}

#[test]
fn key_up_without_scancode_is_discarded() {
    assert_eq!(normalize_event(NativeEvent::KeyUp { scancode: None }), None);
}

#[test]
fn text_input_keeps_the_text() {
    let r = normalize_event(NativeEvent::TextInput {
        text: String::from("hi"),
    });
    assert_eq!(
        r,
        Some(Event::TextInput {
            text: String::from("hi")
        })
    );
}

#[test]
fn mouse_motion_keeps_the_coordinates() {
    let r = normalize_event(NativeEvent::MouseMotion { x: 12, y: -7 });
    assert_eq!(r, Some(Event::MouseMotion { x: 12, y: -7 }));
}

#[test]
fn every_mouse_button_maps_to_its_namesake() {
    let pairs = vec![
        (NativeMouseButton::Left, MouseButton::Left),
        (NativeMouseButton::Middle, MouseButton::Middle),
        (NativeMouseButton::Right, MouseButton::Right),
        (NativeMouseButton::X1, MouseButton::X1),
        (NativeMouseButton::X2, MouseButton::X2),
        (NativeMouseButton::Unknown, MouseButton::Unknown),
    ];
    for (native, engine) in pairs {
        assert_eq!(normalize_mouse_button(native), engine);
        assert_eq!(
            normalize_event(NativeEvent::MouseButtonDown { button: native }),
            Some(Event::MouseButtonDown { button: engine })
        );
        assert_eq!(
            normalize_event(NativeEvent::MouseButtonUp { button: native }),
            Some(Event::MouseButtonUp { button: engine })
        );
    }
}

#[test]
fn mouse_wheel_keeps_the_deltas() {
    let r = normalize_event(NativeEvent::MouseWheel { x: 0, y: -1 });
    assert_eq!(r, Some(Event::MouseWheel { x: 0, y: -1 }));
}

#[test]
fn every_axis_maps_to_its_namesake() {
    let pairs = vec![
        (NativeControllerAxis::LeftX, ControllerAxis::LeftX),
        (NativeControllerAxis::LeftY, ControllerAxis::LeftY),
        (NativeControllerAxis::RightX, ControllerAxis::RightX),
        (NativeControllerAxis::RightY, ControllerAxis::RightY),
        (NativeControllerAxis::TriggerLeft, ControllerAxis::TriggerLeft),
        (NativeControllerAxis::TriggerRight, ControllerAxis::TriggerRight),
    ];
    for (native, engine) in pairs {
        assert_eq!(normalize_axis(native), engine);
    }
}

#[test]
fn axis_motion_widens_the_value() {
    let r = normalize_event(NativeEvent::ControllerAxisMotion {
        which: 2,
        axis: NativeControllerAxis::TriggerRight,
        value: -32768,
    });
    assert_eq!(
        r,
        Some(Event::ControllerAxisMotion {
            which: 2,
            axis: ControllerAxis::TriggerRight,
            value: -32768,
        })
    );
}

#[test]
fn every_controller_button_maps_to_its_namesake() {
    let pairs = vec![
        (NativeControllerButton::A, ControllerButton::A),
        (NativeControllerButton::B, ControllerButton::B),
        (NativeControllerButton::X, ControllerButton::X),
        (NativeControllerButton::Y, ControllerButton::Y),
        (NativeControllerButton::Back, ControllerButton::Back),
        (NativeControllerButton::Guide, ControllerButton::Guide),
        (NativeControllerButton::Start, ControllerButton::Start),
        (NativeControllerButton::LeftStick, ControllerButton::LeftStick),
        (NativeControllerButton::RightStick, ControllerButton::RightStick),
        (NativeControllerButton::LeftShoulder, ControllerButton::LeftShoulder),
        (NativeControllerButton::RightShoulder, ControllerButton::RightShoulder),
        (NativeControllerButton::DPadUp, ControllerButton::DPadUp),
        (NativeControllerButton::DPadDown, ControllerButton::DPadDown),
        (NativeControllerButton::DPadLeft, ControllerButton::DPadLeft),
        (NativeControllerButton::DPadRight, ControllerButton::DPadRight),
    ];
    for (native, engine) in pairs {
        assert_eq!(normalize_controller_button(native), engine);
        assert_eq!(
            normalize_event(NativeEvent::ControllerButtonDown {
                which: 1,
                button: native
            }),
            Some(Event::ControllerButtonDown {
                which: 1,
                button: engine
            })
        );
        assert_eq!(
            normalize_event(NativeEvent::ControllerButtonUp {
                which: 9,
                button: native
            }),
            Some(Event::ControllerButtonUp {
                which: 9,
                button: engine
            })
        );
    }
}

#[test]
fn unknown_native_events_are_discarded() {
    assert_eq!(normalize_event(NativeEvent::Other), None);
}
