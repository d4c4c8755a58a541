//! Platform-neutral input events: keys, mouse buttons, and their codes.

use vstd::prelude::*;

use crate::clock::now_millis;

verus! {

/// Mouse button identifier.
#[derive(Debug, Clone, Copy, PartialEq, Eq, Structural)]
pub enum MouseButton {
    /// Left button.
    Left,
    /// Right button.
    Right,
    /// Middle button (wheel click).
    Middle,
    /// Extra button (back).
    Button4,
    /// Extra button (forward).
    Button5,
}

/// The numeric code of a mouse button.
pub open spec fn button_code(b: MouseButton) -> u8 {
    match b {
        MouseButton::Left => 1,
        MouseButton::Right => 2,
        MouseButton::Middle => 3,
        MouseButton::Button4 => 4,
        MouseButton::Button5 => 5,
    }
}

impl MouseButton {
    /// The numeric code of this button.
    pub fn code(&self) -> (r: u8)
        ensures
            r == button_code(*self),
    {
        match self {
            MouseButton::Left => 1,
            MouseButton::Right => 2,
            MouseButton::Middle => 3,
            MouseButton::Button4 => 4,
            MouseButton::Button5 => 5,
        }
    }

    /// The button with the given code; unknown codes fall back to `Left`.
    pub fn from_code(code: u8) -> (r: MouseButton)
        ensures
            1 <= code <= 5 ==> button_code(r) == code,
            !(1 <= code <= 5) ==> r == MouseButton::Left,
    {
        match code {
            1 => MouseButton::Left,
            2 => MouseButton::Right,
            3 => MouseButton::Middle,
            4 => MouseButton::Button4,
            5 => MouseButton::Button5,
            _ => MouseButton::Left,
        }
    }
}

/// The shapes a mouse event can take.
#[derive(Debug, Clone, PartialEq, Eq, Structural)]
pub enum MouseEventType {
    /// The pointer moved to an absolute position.
    Move {
        /// X coordinate.
        x: i32,
        /// Y coordinate.
        y: i32,
    },
    /// A button went down.
    ButtonPress {
        /// The button.
        button: MouseButton,
    },
    /// A button came up.
    ButtonRelease {
        /// The button.
        button: MouseButton,
    },
    /// The wheel scrolled.
    Wheel {
        /// Horizontal delta.
        delta_x: i32,
        /// Vertical delta.
        delta_y: i32,
    },
}

/// A mouse input event.
#[derive(Debug, Clone, PartialEq, Eq, Structural)]
pub struct MouseEvent {
    /// The event's shape and coordinates.
    pub event_type: MouseEventType,
    /// Wall-clock milliseconds when the event occurred.
    pub timestamp: u64,
}

impl MouseEvent {
    /// A pointer move, stamped with the current wall clock.
    pub fn move_to(x: i32, y: i32) -> (r: MouseEvent)
        ensures
            r.event_type == (MouseEventType::Move { x, y }),
    {
        MouseEvent { event_type: MouseEventType::Move { x, y }, timestamp: Self::current_timestamp() }
    }

    /// A button press, stamped with the current wall clock.
    pub fn button_press(button: MouseButton) -> (r: MouseEvent)
        ensures
            r.event_type == (MouseEventType::ButtonPress { button }),
    {
        MouseEvent {
            event_type: MouseEventType::ButtonPress { button },
            timestamp: Self::current_timestamp(),
        }
    }

    /// A button release, stamped with the current wall clock.
    pub fn button_release(button: MouseButton) -> (r: MouseEvent)
        ensures
            r.event_type == (MouseEventType::ButtonRelease { button }),
    {
        MouseEvent {
            event_type: MouseEventType::ButtonRelease { button },
            timestamp: Self::current_timestamp(),
        }
    }

    /// A wheel scroll, stamped with the current wall clock.
    pub fn wheel(delta_x: i32, delta_y: i32) -> (r: MouseEvent)
        ensures
            r.event_type == (MouseEventType::Wheel { delta_x, delta_y }),
    {
        MouseEvent {
            event_type: MouseEventType::Wheel { delta_x, delta_y },
            timestamp: Self::current_timestamp(),
        }
    }

    /// The current wall clock in milliseconds.
    pub fn current_timestamp() -> u64 {
        now_millis()
    }
}

/// Platform-neutral key identifier.
#[derive(Debug, Clone, Copy, PartialEq, Eq, Hash, Structural)]
#[allow(missing_docs)]
pub enum Key {
    A,
    B,
    C,
    D,
    E,
    F,
    G,
    H,
    I,
    J,
    K,
    L,
    M,
    N,
    O,
    P,
    Q,
    R,
    S,
    T,
    U,
    V,
    W,
    X,
    Y,
    Z,
    Num0,
    Num1,
    Num2,
    Num3,
    Num4,
    Num5,
    Num6,
    Num7,
    Num8,
    Num9,
    F1,
    F2,
    F3,
    F4,
    F5,
    F6,
    F7,
    F8,
    F9,
    F10,
    F11,
    F12,
    Shift,
    Control,
    Alt,
    Meta,
    Up,
    Down,
    Left,
    Right,
    Home,
    End,
    PageUp,
    PageDown,
    Return,
    Escape,
    Backspace,
    Tab,
    Space,
    Delete,
    Insert,
    CapsLock,
    Minus,
    Equal,
    LeftBracket,
    RightBracket,
    Semicolon,
    Quote,
    Backslash,
    Comma,
    Period,
    Slash,
    Grave,
    Unknown,
}

/// The numeric code of a key, as carried on the wire.
pub open spec fn key_code(k: Key) -> u16 {
    match k {
        Key::A => 0x41,
        Key::B => 0x42,
        Key::C => 0x43,
        Key::D => 0x44,
        Key::E => 0x45,
        Key::F => 0x46,
        Key::G => 0x47,
        Key::H => 0x48,
        Key::I => 0x49,
        Key::J => 0x4A,
        Key::K => 0x4B,
        Key::L => 0x4C,
        Key::M => 0x4D,
        Key::N => 0x4E,
        Key::O => 0x4F,
        Key::P => 0x50,
        Key::Q => 0x51,
        Key::R => 0x52,
        Key::S => 0x53,
        Key::T => 0x54,
        Key::U => 0x55,
        Key::V => 0x56,
        Key::W => 0x57,
        Key::X => 0x58,
        Key::Y => 0x59,
        Key::Z => 0x5A,
        Key::Num0 => 0x30,
        Key::Num1 => 0x31,
        Key::Num2 => 0x32,
        Key::Num3 => 0x33,
        Key::Num4 => 0x34,
        Key::Num5 => 0x35,
        Key::Num6 => 0x36,
        Key::Num7 => 0x37,
        Key::Num8 => 0x38,
        Key::Num9 => 0x39,
        Key::F1 => 0x70,
        Key::F2 => 0x71,
        Key::F3 => 0x72,
        Key::F4 => 0x73,
        Key::F5 => 0x74,
        Key::F6 => 0x75,
        Key::F7 => 0x76,
        Key::F8 => 0x77,
        Key::F9 => 0x78,
        Key::F10 => 0x79,
        Key::F11 => 0x7A,
        Key::F12 => 0x7B,
        Key::Shift => 0x10,
        Key::Control => 0x11,
        Key::Alt => 0x12,
        Key::Meta => 0x5B,
        Key::Up => 0x26,
        Key::Down => 0x28,
        Key::Left => 0x25,
        Key::Right => 0x27,
        Key::Home => 0x24,
        Key::End => 0x23,
        Key::PageUp => 0x21,
        Key::PageDown => 0x22,
        Key::Return => 0x0D,
        Key::Escape => 0x1B,
        Key::Backspace => 0x08,
        Key::Tab => 0x09,
        Key::Space => 0x20,
        Key::Delete => 0x2E,
        Key::Insert => 0x2D,
        Key::CapsLock => 0x14,
        Key::Minus => 0xBD,
        Key::Equal => 0xBB,
        Key::LeftBracket => 0xDB,
        Key::RightBracket => 0xDD,
        Key::Semicolon => 0xBA,
        Key::Quote => 0xDE,
        Key::Backslash => 0xDC,
        Key::Comma => 0xBC,
        Key::Period => 0xBE,
        Key::Slash => 0xBF,
        Key::Grave => 0xC0,
        Key::Unknown => 0xFFFF,
    }
}

/// The key with the given code, `Unknown` for codes outside the vocabulary.
pub open spec fn key_of_code(code: u16) -> Key {
    if code == 0x41 {
        Key::A
    } else if code == 0x42 {
        Key::B
    } else if code == 0x43 {
        Key::C
    } else if code == 0x44 {
        Key::D
    } else if code == 0x45 {
        Key::E
    } else if code == 0x46 {
        Key::F
    } else if code == 0x47 {
        Key::G
    } else if code == 0x48 {
        Key::H
    } else if code == 0x49 {
        Key::I
    } else if code == 0x4A {
        Key::J
    } else if code == 0x4B {
        Key::K
    } else if code == 0x4C {
        Key::L
    } else if code == 0x4D {
        Key::M
    } else if code == 0x4E {
        Key::N
    } else if code == 0x4F {
        Key::O
    } else if code == 0x50 {
        Key::P
    } else if code == 0x51 {
        Key::Q
    } else if code == 0x52 {
        Key::R
    } else if code == 0x53 {
        Key::S
    } else if code == 0x54 {
        Key::T
    } else if code == 0x55 {
        Key::U
    } else if code == 0x56 {
        Key::V
    } else if code == 0x57 {
        Key::W
    } else if code == 0x58 {
        Key::X
    } else if code == 0x59 {
        Key::Y
    } else if code == 0x5A {
        Key::Z
    } else if code == 0x30 {
        Key::Num0
    } else if code == 0x31 {
        Key::Num1
    } else if code == 0x32 {
        Key::Num2
    } else if code == 0x33 {
        Key::Num3
    } else if code == 0x34 {
        Key::Num4
    } else if code == 0x35 {
        Key::Num5
    } else if code == 0x36 {
        Key::Num6
    } else if code == 0x37 {
        Key::Num7
    } else if code == 0x38 {
        Key::Num8
    } else if code == 0x39 {
        Key::Num9
    } else if code == 0x70 {
        Key::F1
    } else if code == 0x71 {
        Key::F2
    } else if code == 0x72 {
        Key::F3
    } else if code == 0x73 {
        Key::F4
    } else if code == 0x74 {
        Key::F5
    } else if code == 0x75 {
        Key::F6
    } else if code == 0x76 {
        Key::F7
    } else if code == 0x77 {
        Key::F8
    } else if code == 0x78 {
        Key::F9
    } else if code == 0x79 {
        Key::F10
    } else if code == 0x7A {
        Key::F11
    } else if code == 0x7B {
        Key::F12
    } else if code == 0x10 {
        Key::Shift
    } else if code == 0x11 {
        Key::Control
    } else if code == 0x12 {
        Key::Alt
    } else if code == 0x5B {
        Key::Meta
    } else if code == 0x26 {
        Key::Up
    } else if code == 0x28 {
        Key::Down
    } else if code == 0x25 {
        Key::Left
    } else if code == 0x27 {
        Key::Right
    } else if code == 0x24 {
        Key::Home
    } else if code == 0x23 {
        Key::End
    } else if code == 0x21 {
        Key::PageUp
    } else if code == 0x22 {
        Key::PageDown
    } else if code == 0x0D {
        Key::Return
    } else if code == 0x1B {
        Key::Escape
    } else if code == 0x08 {
        Key::Backspace
    } else if code == 0x09 {
        Key::Tab
    } else if code == 0x20 {
        Key::Space
    } else if code == 0x2E {
        Key::Delete
    } else if code == 0x2D {
        Key::Insert
    } else if code == 0x14 {
        Key::CapsLock
    } else if code == 0xBD {
        Key::Minus
    } else if code == 0xBB {
        Key::Equal
    } else if code == 0xDB {
        Key::LeftBracket
    } else if code == 0xDD {
        Key::RightBracket
    } else if code == 0xBA {
        Key::Semicolon
    } else if code == 0xDE {
        Key::Quote
    } else if code == 0xDC {
        Key::Backslash
    } else if code == 0xBC {
        Key::Comma
    } else if code == 0xBE {
        Key::Period
    } else if code == 0xBF {
        Key::Slash
    } else if code == 0xC0 {
        Key::Grave
    } else {
        Key::Unknown
    }
}

/// Law: a key's code maps back to the key; the code is a faithful wire
/// form for every key but the sentinel.
pub proof fn lemma_key_code_round_trip(k: Key)
    ensures
        key_of_code(key_code(k)) == k,
{
}

impl Key {
    /// The numeric code of this key.
    pub fn code(&self) -> (r: u16)
        ensures
            r == key_code(*self),
    {
        key_code_exec(*self)
    }

    /// The key with the given code, `Unknown` for unmapped codes.
    pub fn from_code(code: u16) -> (r: Key)
        ensures
            r == key_of_code(code),
    {
        key_of_code_exec(code)
    }
}

/// The numeric code of a key.
fn key_code_exec(k: Key) -> (r: u16)
    ensures
        r == key_code(k),
{
    match k {
        Key::A => 0x41,
        Key::B => 0x42,
        Key::C => 0x43,
        Key::D => 0x44,
        Key::E => 0x45,
        Key::F => 0x46,
        Key::G => 0x47,
        Key::H => 0x48,
        Key::I => 0x49,
        Key::J => 0x4A,
        Key::K => 0x4B,
        Key::L => 0x4C,
        Key::M => 0x4D,
        Key::N => 0x4E,
        Key::O => 0x4F,
        Key::P => 0x50,
        Key::Q => 0x51,
        Key::R => 0x52,
        Key::S => 0x53,
        Key::T => 0x54,
        Key::U => 0x55,
        Key::V => 0x56,
        Key::W => 0x57,
        Key::X => 0x58,
        Key::Y => 0x59,
        Key::Z => 0x5A,
        Key::Num0 => 0x30,
        Key::Num1 => 0x31,
        Key::Num2 => 0x32,
        Key::Num3 => 0x33,
        Key::Num4 => 0x34,
        Key::Num5 => 0x35,
        Key::Num6 => 0x36,
        Key::Num7 => 0x37,
        Key::Num8 => 0x38,
        Key::Num9 => 0x39,
        Key::F1 => 0x70,
        Key::F2 => 0x71,
        Key::F3 => 0x72,
        Key::F4 => 0x73,
        Key::F5 => 0x74,
        Key::F6 => 0x75,
        Key::F7 => 0x76,
        Key::F8 => 0x77,
        Key::F9 => 0x78,
        Key::F10 => 0x79,
        Key::F11 => 0x7A,
        Key::F12 => 0x7B,
        Key::Shift => 0x10,
        Key::Control => 0x11,
        Key::Alt => 0x12,
        Key::Meta => 0x5B,
        Key::Up => 0x26,
        Key::Down => 0x28,
        Key::Left => 0x25,
        Key::Right => 0x27,
        Key::Home => 0x24,
        Key::End => 0x23,
        Key::PageUp => 0x21,
        Key::PageDown => 0x22,
        Key::Return => 0x0D,
        Key::Escape => 0x1B,
        Key::Backspace => 0x08,
        Key::Tab => 0x09,
        Key::Space => 0x20,
        Key::Delete => 0x2E,
        Key::Insert => 0x2D,
        Key::CapsLock => 0x14,
        Key::Minus => 0xBD,
        Key::Equal => 0xBB,
        Key::LeftBracket => 0xDB,
        Key::RightBracket => 0xDD,
        Key::Semicolon => 0xBA,
        Key::Quote => 0xDE,
        Key::Backslash => 0xDC,
        Key::Comma => 0xBC,
        Key::Period => 0xBE,
        Key::Slash => 0xBF,
        Key::Grave => 0xC0,
        Key::Unknown => 0xFFFF,
    }
}

/// The key with the given code.
fn key_of_code_exec(code: u16) -> (r: Key)
    ensures
        r == key_of_code(code),
{
    match code {
        0x41 => Key::A,
        0x42 => Key::B,
        0x43 => Key::C,
        0x44 => Key::D,
        0x45 => Key::E,
        0x46 => Key::F,
        0x47 => Key::G,
        0x48 => Key::H,
        0x49 => Key::I,
        0x4A => Key::J,
        0x4B => Key::K,
        0x4C => Key::L,
        0x4D => Key::M,
        0x4E => Key::N,
        0x4F => Key::O,
        0x50 => Key::P,
        0x51 => Key::Q,
        0x52 => Key::R,
        0x53 => Key::S,
        0x54 => Key::T,
        0x55 => Key::U,
        0x56 => Key::V,
        0x57 => Key::W,
        0x58 => Key::X,
        0x59 => Key::Y,
        0x5A => Key::Z,
        0x30 => Key::Num0,
        0x31 => Key::Num1,
        0x32 => Key::Num2,
        0x33 => Key::Num3,
        0x34 => Key::Num4,
        0x35 => Key::Num5,
        0x36 => Key::Num6,
        0x37 => Key::Num7,
        0x38 => Key::Num8,
        0x39 => Key::Num9,
        0x70 => Key::F1,
        0x71 => Key::F2,
        0x72 => Key::F3,
        0x73 => Key::F4,
        0x74 => Key::F5,
        0x75 => Key::F6,
        0x76 => Key::F7,
        0x77 => Key::F8,
        0x78 => Key::F9,
        0x79 => Key::F10,
        0x7A => Key::F11,
        0x7B => Key::F12,
        0x10 => Key::Shift,
        0x11 => Key::Control,
        0x12 => Key::Alt,
        0x5B => Key::Meta,
        0x26 => Key::Up,
        0x28 => Key::Down,
        0x25 => Key::Left,
        0x27 => Key::Right,
        0x24 => Key::Home,
        0x23 => Key::End,
        0x21 => Key::PageUp,
        0x22 => Key::PageDown,
        0x0D => Key::Return,
        0x1B => Key::Escape,
        0x08 => Key::Backspace,
        0x09 => Key::Tab,
        0x20 => Key::Space,
        0x2E => Key::Delete,
        0x2D => Key::Insert,
        0x14 => Key::CapsLock,
        0xBD => Key::Minus,
        0xBB => Key::Equal,
        0xDB => Key::LeftBracket,
        0xDD => Key::RightBracket,
        0xBA => Key::Semicolon,
        0xDE => Key::Quote,
        0xDC => Key::Backslash,
        0xBC => Key::Comma,
        0xBE => Key::Period,
        0xBF => Key::Slash,
        0xC0 => Key::Grave,
        _ => Key::Unknown,
    }
}

/// Keyboard press or release.
#[derive(Debug, Clone, Copy, PartialEq, Eq, Structural)]
pub enum KeyboardEventType {
    /// A key went down.
    KeyPress,
    /// A key came up.
    KeyRelease,
}

/// A keyboard input event.
#[derive(Debug, Clone, PartialEq, Eq, Structural)]
pub struct KeyboardEvent {
    /// Press or release.
    pub event_type: KeyboardEventType,
    /// The key.
    pub key: Key,
    /// Wall-clock milliseconds when the event occurred.
    pub timestamp: u64,
}

impl KeyboardEvent {
    /// A key press, stamped with the current wall clock.
    pub fn key_press(key: Key) -> (r: KeyboardEvent)
        ensures
            r.event_type == KeyboardEventType::KeyPress,
            r.key == key,
    {
        KeyboardEvent {
            event_type: KeyboardEventType::KeyPress,
            key,
            timestamp: Self::current_timestamp(),
        }
    }

    /// A key release, stamped with the current wall clock.
    pub fn key_release(key: Key) -> (r: KeyboardEvent)
        ensures
            r.event_type == KeyboardEventType::KeyRelease,
            r.key == key,
    {
        KeyboardEvent {
            event_type: KeyboardEventType::KeyRelease,
            key,
            timestamp: Self::current_timestamp(),
        }
    }

    /// The current wall clock in milliseconds.
    pub fn current_timestamp() -> u64 {
        now_millis()
    }
}

/// An input event, keyboard or mouse.
#[derive(Debug, Clone, PartialEq, Eq, Structural)]
pub enum InputEvent {
    /// A keyboard event.
    Keyboard(KeyboardEvent),
    /// A mouse event.
    Mouse(MouseEvent),
}

impl From<KeyboardEvent> for InputEvent {
    fn from(event: KeyboardEvent) -> (r: InputEvent) {
        InputEvent::Keyboard(event)
    }
}

impl vstd::std_specs::convert::FromSpecImpl<KeyboardEvent> for InputEvent {
    open spec fn obeys_from_spec() -> bool {
        true
    }

    open spec fn from_spec(event: KeyboardEvent) -> InputEvent {
        InputEvent::Keyboard(event)
    }
}

impl From<MouseEvent> for InputEvent {
    fn from(event: MouseEvent) -> (r: InputEvent) {
        InputEvent::Mouse(event)
    }
}

impl vstd::std_specs::convert::FromSpecImpl<MouseEvent> for InputEvent {
    open spec fn obeys_from_spec() -> bool {
        true
    }

    open spec fn from_spec(event: MouseEvent) -> InputEvent {
        InputEvent::Mouse(event)
    }
}

} // verus!
