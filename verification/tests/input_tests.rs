//! Tests of input types and the input simulator's planning side.

use remote_desk::input::simulator::{InputSimulator, PlatformEvent, PlatformKey};
use remote_desk::input::types::{
    InputEvent, Key, KeyboardEvent, KeyboardEventType, MouseButton, MouseEvent, MouseEventType,
};

#[test]
fn test_mouse_event_creation() {
    let event = MouseEvent::move_to(100, 200);
    assert!(matches!(event.event_type, MouseEventType::Move { x: 100, y: 200 }));

    let event = MouseEvent::button_press(MouseButton::Left);
    assert!(matches!(
        event.event_type,
        MouseEventType::ButtonPress {
            button: MouseButton::Left
        }
    ));

    let event = MouseEvent::wheel(0, -10);
    assert!(matches!(
        event.event_type,
        MouseEventType::Wheel {
            delta_x: 0,
            delta_y: -10
        }
    ));
}

#[test]
fn test_keyboard_event_creation() {
    let event = KeyboardEvent::key_press(Key::A);
    assert_eq!(event.event_type, KeyboardEventType::KeyPress);
    assert_eq!(event.key, Key::A);

    let event = KeyboardEvent::key_release(Key::Control);
    assert_eq!(event.event_type, KeyboardEventType::KeyRelease);
    assert_eq!(event.key, Key::Control);
}

#[test]
fn test_input_event_conversion() {
    let kb_event = KeyboardEvent::key_press(Key::A);
    let input_event: InputEvent = kb_event.into();
    assert!(matches!(input_event, InputEvent::Keyboard(_)));

    let mouse_event = MouseEvent::move_to(50, 50);
    let input_event: InputEvent = mouse_event.into();
    assert!(matches!(input_event, InputEvent::Mouse(_)));
}

#[test]
fn test_key_codes() {
    assert_eq!(Key::A.code(), 0x41);
    assert_eq!(Key::Z.code(), 0x5A);
    assert_eq!(Key::Num0.code(), 0x30);
    assert_eq!(Key::F1.code(), 0x70);
    assert_eq!(Key::Return.code(), 0x0D);
}

#[test]
fn types_test_key_conversion() {
    assert!(matches!(Key::from_code(0x41), Key::A));
    assert!(matches!(Key::from_code(0x0D), Key::Return));
    assert!(matches!(Key::from_code(0x20), Key::Space));
}

#[test]
fn types_test_button_conversion() {
    assert!(matches!(MouseButton::from_code(1), MouseButton::Left));
    assert!(matches!(MouseButton::from_code(2), MouseButton::Right));
    assert!(matches!(MouseButton::from_code(3), MouseButton::Middle));
}

#[test]
fn test_key_code_round_trip() {
    for key in [
        Key::A,
        Key::Z,
        Key::Num0,
        Key::Num9,
        Key::F1,
        Key::F12,
        Key::Shift,
        Key::Meta,
        Key::Up,
        Key::PageDown,
        Key::Return,
        Key::CapsLock,
        Key::Minus,
        Key::Grave,
    ] {
        assert_eq!(Key::from_code(key.code()), key);
    }
    assert_eq!(Key::from_code(0x0000), Key::Unknown);
}

#[test]
fn test_char_to_key() {
    let simulator = InputSimulator::new();

    assert_eq!(simulator.char_to_key('a').unwrap(), Key::A);
    assert_eq!(simulator.char_to_key('A').unwrap(), Key::A);
    assert_eq!(simulator.char_to_key('0').unwrap(), Key::Num0);
    assert_eq!(simulator.char_to_key(' ').unwrap(), Key::Space);
    assert_eq!(simulator.char_to_key('\n').unwrap(), Key::Return);

    assert!(simulator.char_to_key('€').is_err());
}

#[test]
fn test_simulator_creation() {
    let simulator = InputSimulator::new();
    assert_eq!(simulator.events_simulated(), 0);
    assert_eq!(simulator.events_failed(), 0);

    let simulator = InputSimulator::with_delay(5);
    assert_eq!(simulator.event_delay_ms(), 5);
}

#[test]
fn simulator_test_key_conversion() {
    let simulator = InputSimulator::new();

    assert!(simulator.convert_key(Key::A).is_ok());
    assert!(simulator.convert_key(Key::Return).is_ok());
    assert!(simulator.convert_key(Key::Shift).is_ok());
    assert!(simulator.convert_key(Key::Unknown).is_err());
}

#[test]
fn test_simulate_counts_and_maps() {
    let mut simulator = InputSimulator::new();

    let planned = simulator
        .simulate(&InputEvent::Keyboard(KeyboardEvent::key_press(Key::A)))
        .unwrap();
    assert_eq!(planned, PlatformEvent::KeyPress(PlatformKey::KeyA));

    let planned = simulator
        .simulate(&InputEvent::Mouse(MouseEvent::move_to(10, 20)))
        .unwrap();
    assert_eq!(planned, PlatformEvent::MouseMove { x: 10, y: 20 });

    assert!(simulator
        .simulate(&InputEvent::Keyboard(KeyboardEvent::key_press(Key::Unknown)))
        .is_err());

    assert_eq!(simulator.events_simulated(), 2);
    assert_eq!(simulator.events_failed(), 1);
}

#[test]
fn test_type_string_plan() {
    let simulator = InputSimulator::new();
    let events = simulator.type_string("Hi!").unwrap();
    let plan: Vec<(KeyboardEventType, Key)> =
        events.iter().map(|e| (e.event_type, e.key)).collect();
    assert_eq!(
        plan,
        vec![
            // 'H' needs shift
            (KeyboardEventType::KeyPress, Key::Shift),
            (KeyboardEventType::KeyPress, Key::H),
            (KeyboardEventType::KeyRelease, Key::H),
            (KeyboardEventType::KeyRelease, Key::Shift),
            // 'i'
            (KeyboardEventType::KeyPress, Key::I),
            (KeyboardEventType::KeyRelease, Key::I),
            // '!' needs shift and sits on the 1 key
            (KeyboardEventType::KeyPress, Key::Shift),
            (KeyboardEventType::KeyPress, Key::Num1),
            (KeyboardEventType::KeyRelease, Key::Num1),
            (KeyboardEventType::KeyRelease, Key::Shift),
        ]
    );

    assert!(simulator.type_string("€").is_err());
}
