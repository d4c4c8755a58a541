//! The planning side of input simulation: converting platform-neutral
//! events into the injection primitive's vocabulary, composing key
//! sequences for typed text, and accounting. The embedding program hands
//! each planned event to the platform injection primitive.

use vstd::prelude::*;

use crate::error::{RemoteDeskError, Result};
use crate::input::types::{InputEvent, Key, KeyboardEvent, KeyboardEventType, MouseButton,
    MouseEventType};

verus! {

/// Default delay between injected events, in milliseconds.
pub const DEFAULT_EVENT_DELAY_MS: u64 = 10;

/// The injection primitive's key vocabulary.
#[derive(Debug, Clone, Copy, PartialEq, Eq, Structural)]
#[allow(missing_docs)]
pub enum PlatformKey {
    KeyA,
    KeyB,
    KeyC,
    KeyD,
    KeyE,
    KeyF,
    KeyG,
    KeyH,
    KeyI,
    KeyJ,
    KeyK,
    KeyL,
    KeyM,
    KeyN,
    KeyO,
    KeyP,
    KeyQ,
    KeyR,
    KeyS,
    KeyT,
    KeyU,
    KeyV,
    KeyW,
    KeyX,
    KeyY,
    KeyZ,
    Num0,
    Num1,
    Num2,
    Num3,
    Num4,
    Num5,
    Num6,
    Num7,
    Num8,
    Num9,
    F1,
    F2,
    F3,
    F4,
    F5,
    F6,
    F7,
    F8,
    F9,
    F10,
    F11,
    F12,
    ShiftLeft,
    ControlLeft,
    Alt,
    MetaLeft,
    UpArrow,
    DownArrow,
    LeftArrow,
    RightArrow,
    Home,
    End,
    PageUp,
    PageDown,
    Return,
    Escape,
    Backspace,
    Tab,
    Space,
    Delete,
    Insert,
    CapsLock,
    Minus,
    Equal,
    LeftBracket,
    RightBracket,
    SemiColon,
    Quote,
    BackSlash,
    Comma,
    Dot,
    Slash,
    BackQuote,
}

/// One event in the injection primitive's vocabulary.
#[derive(Debug, Clone, Copy, PartialEq, Eq, Structural)]
pub enum PlatformEvent {
    /// A key goes down.
    KeyPress(PlatformKey),
    /// A key comes up.
    KeyRelease(PlatformKey),
    /// The pointer moves to an absolute position.
    MouseMove {
        /// X coordinate.
        x: i32,
        /// Y coordinate.
        y: i32,
    },
    /// A button goes down.
    ButtonPress(MouseButton),
    /// A button comes up.
    ButtonRelease(MouseButton),
    /// The wheel scrolls.
    Wheel {
        /// Horizontal delta.
        delta_x: i32,
        /// Vertical delta.
        delta_y: i32,
    },
}

/// The injection key of each library key; the sentinel maps to nothing.
pub open spec fn platform_key_of(k: Key) -> Option<PlatformKey> {
    match k {
        Key::A => Some(PlatformKey::KeyA),
        Key::B => Some(PlatformKey::KeyB),
        Key::C => Some(PlatformKey::KeyC),
        Key::D => Some(PlatformKey::KeyD),
        Key::E => Some(PlatformKey::KeyE),
        Key::F => Some(PlatformKey::KeyF),
        Key::G => Some(PlatformKey::KeyG),
        Key::H => Some(PlatformKey::KeyH),
        Key::I => Some(PlatformKey::KeyI),
        Key::J => Some(PlatformKey::KeyJ),
        Key::K => Some(PlatformKey::KeyK),
        Key::L => Some(PlatformKey::KeyL),
        Key::M => Some(PlatformKey::KeyM),
        Key::N => Some(PlatformKey::KeyN),
        Key::O => Some(PlatformKey::KeyO),
        Key::P => Some(PlatformKey::KeyP),
        Key::Q => Some(PlatformKey::KeyQ),
        Key::R => Some(PlatformKey::KeyR),
        Key::S => Some(PlatformKey::KeyS),
        Key::T => Some(PlatformKey::KeyT),
        Key::U => Some(PlatformKey::KeyU),
        Key::V => Some(PlatformKey::KeyV),
        Key::W => Some(PlatformKey::KeyW),
        Key::X => Some(PlatformKey::KeyX),
        Key::Y => Some(PlatformKey::KeyY),
        Key::Z => Some(PlatformKey::KeyZ),
        Key::Num0 => Some(PlatformKey::Num0),
        Key::Num1 => Some(PlatformKey::Num1),
        Key::Num2 => Some(PlatformKey::Num2),
        Key::Num3 => Some(PlatformKey::Num3),
        Key::Num4 => Some(PlatformKey::Num4),
        Key::Num5 => Some(PlatformKey::Num5),
        Key::Num6 => Some(PlatformKey::Num6),
        Key::Num7 => Some(PlatformKey::Num7),
        Key::Num8 => Some(PlatformKey::Num8),
        Key::Num9 => Some(PlatformKey::Num9),
        Key::F1 => Some(PlatformKey::F1),
        Key::F2 => Some(PlatformKey::F2),
        Key::F3 => Some(PlatformKey::F3),
        Key::F4 => Some(PlatformKey::F4),
        Key::F5 => Some(PlatformKey::F5),
        Key::F6 => Some(PlatformKey::F6),
        Key::F7 => Some(PlatformKey::F7),
        Key::F8 => Some(PlatformKey::F8),
        Key::F9 => Some(PlatformKey::F9),
        Key::F10 => Some(PlatformKey::F10),
        Key::F11 => Some(PlatformKey::F11),
        Key::F12 => Some(PlatformKey::F12),
        Key::Shift => Some(PlatformKey::ShiftLeft),
        Key::Control => Some(PlatformKey::ControlLeft),
        Key::Alt => Some(PlatformKey::Alt),
        Key::Meta => Some(PlatformKey::MetaLeft),
        Key::Up => Some(PlatformKey::UpArrow),
        Key::Down => Some(PlatformKey::DownArrow),
        Key::Left => Some(PlatformKey::LeftArrow),
        Key::Right => Some(PlatformKey::RightArrow),
        Key::Home => Some(PlatformKey::Home),
        Key::End => Some(PlatformKey::End),
        Key::PageUp => Some(PlatformKey::PageUp),
        Key::PageDown => Some(PlatformKey::PageDown),
        Key::Return => Some(PlatformKey::Return),
        Key::Escape => Some(PlatformKey::Escape),
        Key::Backspace => Some(PlatformKey::Backspace),
        Key::Tab => Some(PlatformKey::Tab),
        Key::Space => Some(PlatformKey::Space),
        Key::Delete => Some(PlatformKey::Delete),
        Key::Insert => Some(PlatformKey::Insert),
        Key::CapsLock => Some(PlatformKey::CapsLock),
        Key::Minus => Some(PlatformKey::Minus),
        Key::Equal => Some(PlatformKey::Equal),
        Key::LeftBracket => Some(PlatformKey::LeftBracket),
        Key::RightBracket => Some(PlatformKey::RightBracket),
        Key::Semicolon => Some(PlatformKey::SemiColon),
        Key::Quote => Some(PlatformKey::Quote),
        Key::Backslash => Some(PlatformKey::BackSlash),
        Key::Comma => Some(PlatformKey::Comma),
        Key::Period => Some(PlatformKey::Dot),
        Key::Slash => Some(PlatformKey::Slash),
        Key::Grave => Some(PlatformKey::BackQuote),
        Key::Unknown => None,
    }
}

/// The key a character is typed with, if the character is typeable.
pub open spec fn char_key(c: char) -> Option<Key> {
    let u = c as u32;
    if 97 <= u <= 122 {
        Some(letter_key((u - 97) as u32))
    } else if 65 <= u <= 90 {
        Some(letter_key((u - 65) as u32))
    } else if 48 <= u <= 57 {
        Some(digit_key((u - 48) as u32))
    } else if c == ')' {
        Some(Key::Num0)
    } else if c == '!' {
        Some(Key::Num1)
    } else if c == '@' {
        Some(Key::Num2)
    } else if c == '#' {
        Some(Key::Num3)
    } else if c == '$' {
        Some(Key::Num4)
    } else if c == '%' {
        Some(Key::Num5)
    } else if c == '^' {
        Some(Key::Num6)
    } else if c == '&' {
        Some(Key::Num7)
    } else if c == '*' {
        Some(Key::Num8)
    } else if c == '(' {
        Some(Key::Num9)
    } else if c == ' ' {
        Some(Key::Space)
    } else if c == '-' || c == '_' {
        Some(Key::Minus)
    } else if c == '=' || c == '+' {
        Some(Key::Equal)
    } else if c == '[' || c == '{' {
        Some(Key::LeftBracket)
    } else if c == ']' || c == '}' {
        Some(Key::RightBracket)
    } else if c == ';' || c == ':' {
        Some(Key::Semicolon)
    } else if c == '\'' || c == '"' {
        Some(Key::Quote)
    } else if c == '\\' || c == '|' {
        Some(Key::Backslash)
    } else if c == ',' || c == '<' {
        Some(Key::Comma)
    } else if c == '.' || c == '>' {
        Some(Key::Period)
    } else if c == '/' || c == '?' {
        Some(Key::Slash)
    } else if c == '`' || c == '~' {
        Some(Key::Grave)
    } else if c == '\n' {
        Some(Key::Return)
    } else if c == '\t' {
        Some(Key::Tab)
    } else {
        None
    }
}

/// The letter key at alphabet position `i`.
pub open spec fn letter_key(i: u32) -> Key {
    if i == 0 {
        Key::A
    } else if i == 1 {
        Key::B
    } else if i == 2 {
        Key::C
    } else if i == 3 {
        Key::D
    } else if i == 4 {
        Key::E
    } else if i == 5 {
        Key::F
    } else if i == 6 {
        Key::G
    } else if i == 7 {
        Key::H
    } else if i == 8 {
        Key::I
    } else if i == 9 {
        Key::J
    } else if i == 10 {
        Key::K
    } else if i == 11 {
        Key::L
    } else if i == 12 {
        Key::M
    } else if i == 13 {
        Key::N
    } else if i == 14 {
        Key::O
    } else if i == 15 {
        Key::P
    } else if i == 16 {
        Key::Q
    } else if i == 17 {
        Key::R
    } else if i == 18 {
        Key::S
    } else if i == 19 {
        Key::T
    } else if i == 20 {
        Key::U
    } else if i == 21 {
        Key::V
    } else if i == 22 {
        Key::W
    } else if i == 23 {
        Key::X
    } else if i == 24 {
        Key::Y
    } else {
        Key::Z
    }
}

/// The digit key for digit value `i`.
pub open spec fn digit_key(i: u32) -> Key {
    if i == 0 {
        Key::Num0
    } else if i == 1 {
        Key::Num1
    } else if i == 2 {
        Key::Num2
    } else if i == 3 {
        Key::Num3
    } else if i == 4 {
        Key::Num4
    } else if i == 5 {
        Key::Num5
    } else if i == 6 {
        Key::Num6
    } else if i == 7 {
        Key::Num7
    } else if i == 8 {
        Key::Num8
    } else {
        Key::Num9
    }
}

/// Characters whose printable form is typed with Shift held: uppercase
/// letters and the shifted punctuation row.
pub open spec fn needs_shift(c: char) -> bool {
    (65 <= c as u32 <= 90) || c == '!' || c == '@' || c == '#' || c == '$' || c == '%' || c == '^'
        || c == '&' || c == '*' || c == '(' || c == ')' || c == '_' || c == '+' || c == '{' || c
        == '}' || c == '|' || c == ':' || c == '"' || c == '<' || c == '>' || c == '?'
}

/// The press/release plan for one character: the key press and release,
/// wrapped in a Shift press and release when the character requires it.
pub open spec fn char_plan(c: char) -> Seq<(KeyboardEventType, Key)> {
    let k = char_key(c).unwrap();
    if needs_shift(c) {
        seq![
            (KeyboardEventType::KeyPress, Key::Shift),
            (KeyboardEventType::KeyPress, k),
            (KeyboardEventType::KeyRelease, k),
            (KeyboardEventType::KeyRelease, Key::Shift),
        ]
    } else {
        seq![(KeyboardEventType::KeyPress, k), (KeyboardEventType::KeyRelease, k)]
    }
}

/// The press/release plan for a whole string.
pub open spec fn string_plan(s: Seq<char>) -> Seq<(KeyboardEventType, Key)>
    decreases s.len(),
{
    if s.len() == 0 {
        Seq::empty()
    } else {
        string_plan(s.drop_last()) + char_plan(s.last())
    }
}

/// Every character of `s` is typeable.
pub open spec fn all_typeable(s: Seq<char>) -> bool {
    forall|i: int| 0 <= i < s.len() ==> char_key(#[trigger] s[i]) is Some
}

/// Plans and counts input injection. The embedding program performs each
/// planned event through the platform injection primitive and reports
/// delivery failures back through [`InputSimulator::record_send_failure`].
#[derive(Debug)]
pub struct InputSimulator {
    events_simulated: u64,
    events_failed: u64,
    event_delay_ms: u64,
}

impl InputSimulator {
    /// Events successfully planned so far.
    pub closed spec fn spec_simulated(&self) -> u64 {
        self.events_simulated
    }

    /// Events that could not be planned or delivered.
    pub closed spec fn spec_failed(&self) -> u64 {
        self.events_failed
    }

    /// Creates a simulator with the default inter-event delay.
    pub fn new() -> (r: InputSimulator)
        ensures
            r.spec_simulated() == 0,
            r.spec_failed() == 0,
    {
        InputSimulator {
            events_simulated: 0,
            events_failed: 0,
            event_delay_ms: DEFAULT_EVENT_DELAY_MS,
        }
    }

    /// Creates a simulator with a custom inter-event delay.
    pub fn with_delay(event_delay_ms: u64) -> (r: InputSimulator)
        ensures
            r.spec_simulated() == 0,
            r.spec_failed() == 0,
    {
        InputSimulator { events_simulated: 0, events_failed: 0, event_delay_ms }
    }

    /// The delay to keep between injected events, in milliseconds.
    pub fn event_delay_ms(&self) -> u64 {
        self.event_delay_ms
    }

    /// Converts a key into the injection vocabulary; the sentinel fails.
    pub fn convert_key(&self, key: Key) -> (r: Result<PlatformKey>)
        ensures
            r matches Ok(pk) ==> platform_key_of(key) == Some(pk),
            r is Err <==> key == Key::Unknown,
    {
        match convert_key_exec(key) {
            Some(pk) => Ok(pk),
            None => Err(RemoteDeskError::Generic(String::from_str("Unknown key"))),
        }
    }

    /// Plans the injection of one event.
    ///
    /// Succeeds for every event except a keyboard event with the sentinel
    /// key, counting it as simulated; a sentinel key fails that event only
    /// and counts it as failed.
    pub fn simulate(&mut self, event: &InputEvent) -> (r: Result<PlatformEvent>)
        ensures
            (r is Ok <==> !(event matches InputEvent::Keyboard(k) && k.key == Key::Unknown)),
            r is Ok ==> final(self).spec_simulated() == (if old(self).spec_simulated() < u64::MAX {
                (old(self).spec_simulated() + 1) as u64
            } else {
                old(self).spec_simulated()
            }) && final(self).spec_failed() == old(self).spec_failed(),
            r is Err ==> final(self).spec_failed() == (if old(self).spec_failed() < u64::MAX {
                (old(self).spec_failed() + 1) as u64
            } else {
                old(self).spec_failed()
            }) && final(self).spec_simulated() == old(self).spec_simulated(),
            r matches Ok(pe) ==> match event {
                InputEvent::Keyboard(k) => (k.event_type == KeyboardEventType::KeyPress ==> pe
                    == PlatformEvent::KeyPress(platform_key_of(k.key).unwrap())) && (k.event_type
                    == KeyboardEventType::KeyRelease ==> pe == PlatformEvent::KeyRelease(
                    platform_key_of(k.key).unwrap(),
                )),
                InputEvent::Mouse(m) => match m.event_type {
                    MouseEventType::Move { x, y } => pe == (PlatformEvent::MouseMove { x, y }),
                    MouseEventType::ButtonPress { button } => pe == PlatformEvent::ButtonPress(
                        button,
                    ),
                    MouseEventType::ButtonRelease { button } => pe == PlatformEvent::ButtonRelease(
                        button,
                    ),
                    MouseEventType::Wheel { delta_x, delta_y } => pe == (PlatformEvent::Wheel {
                        delta_x,
                        delta_y,
                    }),
                },
            },
    {
        let planned: Option<PlatformEvent> = match event {
            InputEvent::Keyboard(k) => match convert_key_exec(k.key) {
                Some(pk) => match k.event_type {
                    KeyboardEventType::KeyPress => Some(PlatformEvent::KeyPress(pk)),
                    KeyboardEventType::KeyRelease => Some(PlatformEvent::KeyRelease(pk)),
                },
                None => None,
            },
            InputEvent::Mouse(m) => match &m.event_type {
                MouseEventType::Move { x, y } => Some(PlatformEvent::MouseMove { x: *x, y: *y }),
                MouseEventType::ButtonPress { button } => Some(
                    PlatformEvent::ButtonPress(*button),
                ),
                MouseEventType::ButtonRelease { button } => Some(
                    PlatformEvent::ButtonRelease(*button),
                ),
                MouseEventType::Wheel { delta_x, delta_y } => Some(
                    PlatformEvent::Wheel { delta_x: *delta_x, delta_y: *delta_y },
                ),
            },
        };
        match planned {
            Some(pe) => {
                if self.events_simulated < u64::MAX {
                    self.events_simulated = self.events_simulated + 1;
                }
                Ok(pe)
            },
            None => {
                if self.events_failed < u64::MAX {
                    self.events_failed = self.events_failed + 1;
                }
                Err(RemoteDeskError::Generic(String::from_str("Unknown key")))
            },
        }
    }

    /// Records that the embedding program failed to deliver an event.
    pub fn record_send_failure(&mut self)
        ensures
            final(self).spec_failed() == (if old(self).spec_failed() < u64::MAX {
                (old(self).spec_failed() + 1) as u64
            } else {
                old(self).spec_failed()
            }),
            final(self).spec_simulated() == old(self).spec_simulated(),
    {
        if self.events_failed < u64::MAX {
            self.events_failed = self.events_failed + 1;
        }
    }

    /// The key a character is typed with; unsupported characters fail.
    pub fn char_to_key(&self, c: char) -> (r: Result<Key>)
        ensures
            r matches Ok(k) ==> char_key(c) == Some(k),
            r is Err <==> char_key(c) is None,
    {
        match char_to_key_exec(c) {
            Some(k) => Ok(k),
            None => Err(RemoteDeskError::Generic(String::from_str("Unsupported character"))),
        }
    }

    /// Plans the key sequence that types `text`: for each character, a
    /// press and release of its key, wrapped in Shift when needed.
    ///
    /// Fails on the first unsupported character, planning nothing.
    pub fn type_string(&self, text: &str) -> (r: Result<Vec<KeyboardEvent>>)
        ensures
            r is Ok <==> all_typeable(text@),
            r matches Ok(evs) ==> {
                &&& evs@.len() == string_plan(text@).len()
                &&& forall|i: int|
                    0 <= i < evs@.len() ==> (#[trigger] evs@[i].event_type, evs@[i].key)
                        == string_plan(text@)[i]
            },
    {
        let n = text.unicode_len();
        let mut out: Vec<KeyboardEvent> = Vec::new();
        let mut i: usize = 0;
        while i < n
            invariant
                0 <= i <= n,
                n == text@.len(),
                all_typeable(text@.take(i as int)),
                out@.len() == string_plan(text@.take(i as int)).len(),
                forall|j: int|
                    0 <= j < out@.len() ==> (#[trigger] out@[j].event_type, out@[j].key)
                        == string_plan(text@.take(i as int))[j],
            decreases n - i,
        {
            let c = text.get_char(i);
            let key = match char_to_key_exec(c) {
                Some(k) => k,
                None => {
                    proof {
                        assert(char_key(text@[i as int]) is None);
                        assert(!all_typeable(text@));
                    }
                    return Err(
                        RemoteDeskError::Generic(String::from_str("Unsupported character")),
                    );
                },
            };
            let shift = needs_shift_exec(c);
            if shift {
                out.push(KeyboardEvent::key_press(Key::Shift));
            }
            out.push(KeyboardEvent::key_press(key));
            out.push(KeyboardEvent::key_release(key));
            if shift {
                out.push(KeyboardEvent::key_release(Key::Shift));
            }
            proof {
                assert(text@.take(i + 1).drop_last() =~= text@.take(i as int));
                assert(text@.take(i + 1).last() == text@[i as int]);
                assert(all_typeable(text@.take(i + 1))) by {
                    assert forall|j: int| 0 <= j < i + 1 implies char_key(
                        #[trigger] text@.take(i + 1)[j],
                    ) is Some by {
                        if j < i {
                            assert(text@.take(i + 1)[j] == text@.take(i as int)[j]);
                        }
                    }
                }
            }
            i += 1;
        }
        proof {
            assert(text@.take(n as int) =~= text@);
        }
        Ok(out)
    }

    /// Events successfully planned so far.
    pub fn events_simulated(&self) -> (r: u64)
        ensures
            r == self.spec_simulated(),
    {
        self.events_simulated
    }

    /// Events that could not be planned or delivered.
    pub fn events_failed(&self) -> (r: u64)
        ensures
            r == self.spec_failed(),
    {
        self.events_failed
    }
}

impl Default for InputSimulator {
    fn default() -> (r: InputSimulator)
        ensures
            r.spec_simulated() == 0,
            r.spec_failed() == 0,
    {
        InputSimulator::new()
    }
}

/// Whether Shift must be held to type `c`.
fn needs_shift_exec(c: char) -> (r: bool)
    ensures
        r == needs_shift(c),
{
    let u = c as u32;
    (65 <= u && u <= 90) || c == '!' || c == '@' || c == '#' || c == '$' || c == '%' || c == '^'
        || c == '&' || c == '*' || c == '(' || c == ')' || c == '_' || c == '+' || c == '{' || c
        == '}' || c == '|' || c == ':' || c == '"' || c == '<' || c == '>' || c == '?'
}

/// The injection key of a library key.
fn convert_key_exec(key: Key) -> (r: Option<PlatformKey>)
    ensures
        r == platform_key_of(key),
{
    match key {
        Key::A => Some(PlatformKey::KeyA),
        Key::B => Some(PlatformKey::KeyB),
        Key::C => Some(PlatformKey::KeyC),
        Key::D => Some(PlatformKey::KeyD),
        Key::E => Some(PlatformKey::KeyE),
        Key::F => Some(PlatformKey::KeyF),
        Key::G => Some(PlatformKey::KeyG),
        Key::H => Some(PlatformKey::KeyH),
        Key::I => Some(PlatformKey::KeyI),
        Key::J => Some(PlatformKey::KeyJ),
        Key::K => Some(PlatformKey::KeyK),
        Key::L => Some(PlatformKey::KeyL),
        Key::M => Some(PlatformKey::KeyM),
        Key::N => Some(PlatformKey::KeyN),
        Key::O => Some(PlatformKey::KeyO),
        Key::P => Some(PlatformKey::KeyP),
        Key::Q => Some(PlatformKey::KeyQ),
        Key::R => Some(PlatformKey::KeyR),
        Key::S => Some(PlatformKey::KeyS),
        Key::T => Some(PlatformKey::KeyT),
        Key::U => Some(PlatformKey::KeyU),
        Key::V => Some(PlatformKey::KeyV),
        Key::W => Some(PlatformKey::KeyW),
        Key::X => Some(PlatformKey::KeyX),
        Key::Y => Some(PlatformKey::KeyY),
        Key::Z => Some(PlatformKey::KeyZ),
        Key::Num0 => Some(PlatformKey::Num0),
        Key::Num1 => Some(PlatformKey::Num1),
        Key::Num2 => Some(PlatformKey::Num2),
        Key::Num3 => Some(PlatformKey::Num3),
        Key::Num4 => Some(PlatformKey::Num4),
        Key::Num5 => Some(PlatformKey::Num5),
        Key::Num6 => Some(PlatformKey::Num6),
        Key::Num7 => Some(PlatformKey::Num7),
        Key::Num8 => Some(PlatformKey::Num8),
        Key::Num9 => Some(PlatformKey::Num9),
        Key::F1 => Some(PlatformKey::F1),
        Key::F2 => Some(PlatformKey::F2),
        Key::F3 => Some(PlatformKey::F3),
        Key::F4 => Some(PlatformKey::F4),
        Key::F5 => Some(PlatformKey::F5),
        Key::F6 => Some(PlatformKey::F6),
        Key::F7 => Some(PlatformKey::F7),
        Key::F8 => Some(PlatformKey::F8),
        Key::F9 => Some(PlatformKey::F9),
        Key::F10 => Some(PlatformKey::F10),
        Key::F11 => Some(PlatformKey::F11),
        Key::F12 => Some(PlatformKey::F12),
        Key::Shift => Some(PlatformKey::ShiftLeft),
        Key::Control => Some(PlatformKey::ControlLeft),
        Key::Alt => Some(PlatformKey::Alt),
        Key::Meta => Some(PlatformKey::MetaLeft),
        Key::Up => Some(PlatformKey::UpArrow),
        Key::Down => Some(PlatformKey::DownArrow),
        Key::Left => Some(PlatformKey::LeftArrow),
        Key::Right => Some(PlatformKey::RightArrow),
        Key::Home => Some(PlatformKey::Home),
        Key::End => Some(PlatformKey::End),
        Key::PageUp => Some(PlatformKey::PageUp),
        Key::PageDown => Some(PlatformKey::PageDown),
        Key::Return => Some(PlatformKey::Return),
        Key::Escape => Some(PlatformKey::Escape),
        Key::Backspace => Some(PlatformKey::Backspace),
        Key::Tab => Some(PlatformKey::Tab),
        Key::Space => Some(PlatformKey::Space),
        Key::Delete => Some(PlatformKey::Delete),
        Key::Insert => Some(PlatformKey::Insert),
        Key::CapsLock => Some(PlatformKey::CapsLock),
        Key::Minus => Some(PlatformKey::Minus),
        Key::Equal => Some(PlatformKey::Equal),
        Key::LeftBracket => Some(PlatformKey::LeftBracket),
        Key::RightBracket => Some(PlatformKey::RightBracket),
        Key::Semicolon => Some(PlatformKey::SemiColon),
        Key::Quote => Some(PlatformKey::Quote),
        Key::Backslash => Some(PlatformKey::BackSlash),
        Key::Comma => Some(PlatformKey::Comma),
        Key::Period => Some(PlatformKey::Dot),
        Key::Slash => Some(PlatformKey::Slash),
        Key::Grave => Some(PlatformKey::BackQuote),
        Key::Unknown => None,
    }
}

/// The key a character is typed with.
fn char_to_key_exec(c: char) -> (r: Option<Key>)
    ensures
        r == char_key(c),
{
    let u = c as u32;
    if 97 <= u && u <= 122 {
        Some(letter_key_exec(u - 97))
    } else if 65 <= u && u <= 90 {
        Some(letter_key_exec(u - 65))
    } else if 48 <= u && u <= 57 {
        Some(digit_key_exec(u - 48))
    } else if c == ')' {
        Some(Key::Num0)
    } else if c == '!' {
        Some(Key::Num1)
    } else if c == '@' {
        Some(Key::Num2)
    } else if c == '#' {
        Some(Key::Num3)
    } else if c == '$' {
        Some(Key::Num4)
    } else if c == '%' {
        Some(Key::Num5)
    } else if c == '^' {
        Some(Key::Num6)
    } else if c == '&' {
        Some(Key::Num7)
    } else if c == '*' {
        Some(Key::Num8)
    } else if c == '(' {
        Some(Key::Num9)
    } else if c == ' ' {
        Some(Key::Space)
    } else if c == '-' || c == '_' {
        Some(Key::Minus)
    } else if c == '=' || c == '+' {
        Some(Key::Equal)
    } else if c == '[' || c == '{' {
        Some(Key::LeftBracket)
    } else if c == ']' || c == '}' {
        Some(Key::RightBracket)
    } else if c == ';' || c == ':' {
        Some(Key::Semicolon)
    } else if c == '\'' || c == '"' {
        Some(Key::Quote)
    } else if c == '\\' || c == '|' {
        Some(Key::Backslash)
    } else if c == ',' || c == '<' {
        Some(Key::Comma)
    } else if c == '.' || c == '>' {
        Some(Key::Period)
    } else if c == '/' || c == '?' {
        Some(Key::Slash)
    } else if c == '`' || c == '~' {
        Some(Key::Grave)
    } else if c == '\n' {
        Some(Key::Return)
    } else if c == '\t' {
        Some(Key::Tab)
    } else {
        None
    }
}

/// The letter key at alphabet position `i`.
fn letter_key_exec(i: u32) -> (r: Key)
    ensures
        r == letter_key(i),
{
    if i == 0 {
        Key::A
    } else if i == 1 {
        Key::B
    } else if i == 2 {
        Key::C
    } else if i == 3 {
        Key::D
    } else if i == 4 {
        Key::E
    } else if i == 5 {
        Key::F
    } else if i == 6 {
        Key::G
    } else if i == 7 {
        Key::H
    } else if i == 8 {
        Key::I
    } else if i == 9 {
        Key::J
    } else if i == 10 {
        Key::K
    } else if i == 11 {
        Key::L
    } else if i == 12 {
        Key::M
    } else if i == 13 {
        Key::N
    } else if i == 14 {
        Key::O
    } else if i == 15 {
        Key::P
    } else if i == 16 {
        Key::Q
    } else if i == 17 {
        Key::R
    } else if i == 18 {
        Key::S
    } else if i == 19 {
        Key::T
    } else if i == 20 {
        Key::U
    } else if i == 21 {
        Key::V
    } else if i == 22 {
        Key::W
    } else if i == 23 {
        Key::X
    } else if i == 24 {
        Key::Y
    } else {
        Key::Z
    }
}

/// The digit key for digit value `i`.
fn digit_key_exec(i: u32) -> (r: Key)
    ensures
        r == digit_key(i),
{
    if i == 0 {
        Key::Num0
    } else if i == 1 {
        Key::Num1
    } else if i == 2 {
        Key::Num2
    } else if i == 3 {
        Key::Num3
    } else if i == 4 {
        Key::Num4
    } else if i == 5 {
        Key::Num5
    } else if i == 6 {
        Key::Num6
    } else if i == 7 {
        Key::Num7
    } else if i == 8 {
        Key::Num8
    } else {
        Key::Num9
    }
}

} // verus!
