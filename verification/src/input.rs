//! Keyboard and mouse input: the keys the engine knows and the per-frame state of
//! every key.
//!
//! A key is *down* while it is held, *pressed* only on the frame on which it went
//! down, and *released* only on the frame on which it came back up.
use vstd::prelude::*;

verus! {

/// The number of keyboard keys whose state is kept.
pub const KEYBOARD_KEYS: usize = 111;

/// The number of mouse buttons whose state is kept.
pub const MOUSE_KEYS: usize = 6;

/// Representation of mouse buttons
#[derive(Debug, Clone, Copy, PartialEq, Eq, Hash)]
pub enum MouseKey {
    Left,
    Right,
    Middle,
    Back,
    Fowrawrds,
    Other,
}

impl MouseKey {
    /// The slot of the button in the mouse state.
    pub open spec fn spec_index(self) -> nat {
        match self {
            MouseKey::Left => 0,
            MouseKey::Right => 1,
            MouseKey::Middle => 2,
            MouseKey::Back => 3,
            MouseKey::Fowrawrds => 4,
            MouseKey::Other => 5,
        }
    }

    /// The slot of the button in the mouse state.
    pub fn index(self) -> (i: usize)
        ensures
            i == self.spec_index(),
            i < MOUSE_KEYS,
    {
        match self {
            MouseKey::Left => 0,
            MouseKey::Right => 1,
            MouseKey::Middle => 2,
            MouseKey::Back => 3,
            MouseKey::Fowrawrds => 4,
            MouseKey::Other => 5,
        }
    }
}

/// Distinct mouse buttons have distinct slots.
pub proof fn lemma_mouse_index_injective(a: MouseKey, b: MouseKey)
    ensures
        a.spec_index() == b.spec_index() ==> a == b,
{
}

/// Representation of keyboard keys
#[derive(Debug, Clone, Copy, PartialEq, Eq, Hash)]
pub enum Key {
    Key1,
    Key2,
    Key3,
    Key4,
    Key5,
    Key6,
    Key7,
    Key8,
    Key9,
    Key0,
    A,
    B,
    C,
    D,
    E,
    F,
    G,
    H,
    I,
    J,
    K,
    L,
    M,
    N,
    O,
    P,
    Q,
    R,
    S,
    T,
    U,
    V,
    W,
    X,
    Y,
    Z,
    Esc,
    F1,
    F2,
    F3,
    F4,
    F5,
    F6,
    F7,
    F8,
    F9,
    F10,
    F11,
    F12,
    F13,
    F14,
    F15,
    F16,
    F17,
    F18,
    F19,
    F20,
    F21,
    F22,
    F23,
    F24,
    ScrollLock,
    Home,
    Delete,
    End,
    PageDown,
    PageUp,
    Left,
    Up,
    Right,
    Down,
    BackSpace,
    Enter,
    Space,
    Numlock,
    Numpad0,
    Numpad1,
    Numpad2,
    Numpad3,
    Numpad4,
    Numpad5,
    Numpad6,
    Numpad7,
    Numpad8,
    Numpad9,
    NumpadAdd,
    NumpadDivide,
    NumpadDecimial,
    NumpadComma,
    NumpadEnter,
    NumpadEquals,
    NumpadMultiply,
    NumpadSubtract,
    BackSlash,
    CapsLock,
    Comma,
    Equals,
    LeftAlt,
    LeftBracket,
    LeftControl,
    LeftShift,
    Minus,
    Period,
    Plus,
    RightAlt,
    RightBracket,
    RightControl,
    RightShift,
    SemiColon,
    Slash,
    Tab,
    Unrecognized,
}

impl Key {
    /// The slot of the key in the keyboard state.
    pub open spec fn spec_index(self) -> nat {
        match self {
            Key::Key1 => 0,
            Key::Key2 => 1,
            Key::Key3 => 2,
            Key::Key4 => 3,
            Key::Key5 => 4,
            Key::Key6 => 5,
            Key::Key7 => 6,
            Key::Key8 => 7,
            Key::Key9 => 8,
            Key::Key0 => 9,
            Key::A => 10,
            Key::B => 11,
            Key::C => 12,
            Key::D => 13,
            Key::E => 14,
            Key::F => 15,
            Key::G => 16,
            Key::H => 17,
            Key::I => 18,
            Key::J => 19,
            Key::K => 20,
            Key::L => 21,
            Key::M => 22,
            Key::N => 23,
            Key::O => 24,
            Key::P => 25,
            Key::Q => 26,
            Key::R => 27,
            Key::S => 28,
            Key::T => 29,
            Key::U => 30,
            Key::V => 31,
            Key::W => 32,
            Key::X => 33,
            Key::Y => 34,
            Key::Z => 35,
            Key::Esc => 36,
            Key::F1 => 37,
            Key::F2 => 38,
            Key::F3 => 39,
            Key::F4 => 40,
            Key::F5 => 41,
            Key::F6 => 42,
            Key::F7 => 43,
            Key::F8 => 44,
            Key::F9 => 45,
            Key::F10 => 46,
            Key::F11 => 47,
            Key::F12 => 48,
            Key::F13 => 49,
            Key::F14 => 50,
            Key::F15 => 51,
            Key::F16 => 52,
            Key::F17 => 53,
            Key::F18 => 54,
            Key::F19 => 55,
            Key::F20 => 56,
            Key::F21 => 57,
            Key::F22 => 58,
            Key::F23 => 59,
            Key::F24 => 60,
            Key::ScrollLock => 61,
            Key::Home => 62,
            Key::Delete => 63,
            Key::End => 64,
            Key::PageDown => 65,
            Key::PageUp => 66,
            Key::Left => 67,
            Key::Up => 68,
            Key::Right => 69,
            Key::Down => 70,
            Key::BackSpace => 71,
            Key::Enter => 72,
            Key::Space => 73,
            Key::Numlock => 74,
            Key::Numpad0 => 75,
            Key::Numpad1 => 76,
            Key::Numpad2 => 77,
            Key::Numpad3 => 78,
            Key::Numpad4 => 79,
            Key::Numpad5 => 80,
            Key::Numpad6 => 81,
            Key::Numpad7 => 82,
            Key::Numpad8 => 83,
            Key::Numpad9 => 84,
            Key::NumpadAdd => 85,
            Key::NumpadDivide => 86,
            Key::NumpadDecimial => 87,
            Key::NumpadComma => 88,
            Key::NumpadEnter => 89,
            Key::NumpadEquals => 90,
            Key::NumpadMultiply => 91,
            Key::NumpadSubtract => 92,
            Key::BackSlash => 93,
            Key::CapsLock => 94,
            Key::Comma => 95,
            Key::Equals => 96,
            Key::LeftAlt => 97,
            Key::LeftBracket => 98,
            Key::LeftControl => 99,
            Key::LeftShift => 100,
            Key::Minus => 101,
            Key::Period => 102,
            Key::Plus => 103,
            Key::RightAlt => 104,
            Key::RightBracket => 105,
            Key::RightControl => 106,
            Key::RightShift => 107,
            Key::SemiColon => 108,
            Key::Slash => 109,
            Key::Tab => 110,
            Key::Unrecognized => 111,
        }
    }

    /// The key whose slot in the keyboard state is `i`.
    pub open spec fn spec_from_index(i: nat) -> Key {
        if i == 0 {
            Key::Key1
        } else if i == 1 {
            Key::Key2
        } else if i == 2 {
            Key::Key3
        } else if i == 3 {
            Key::Key4
        } else if i == 4 {
            Key::Key5
        } else if i == 5 {
            Key::Key6
        } else if i == 6 {
            Key::Key7
        } else if i == 7 {
            Key::Key8
        } else if i == 8 {
            Key::Key9
        } else if i == 9 {
            Key::Key0
        } else if i == 10 {
            Key::A
        } else if i == 11 {
            Key::B
        } else if i == 12 {
            Key::C
        } else if i == 13 {
            Key::D
        } else if i == 14 {
            Key::E
        } else if i == 15 {
            Key::F
        } else if i == 16 {
            Key::G
        } else if i == 17 {
            Key::H
        } else if i == 18 {
            Key::I
        } else if i == 19 {
            Key::J
        } else if i == 20 {
            Key::K
        } else if i == 21 {
            Key::L
        } else if i == 22 {
            Key::M
        } else if i == 23 {
            Key::N
        } else if i == 24 {
            Key::O
        } else if i == 25 {
            Key::P
        } else if i == 26 {
            Key::Q
        } else if i == 27 {
            Key::R
        } else if i == 28 {
            Key::S
        } else if i == 29 {
            Key::T
        } else if i == 30 {
            Key::U
        } else if i == 31 {
            Key::V
        } else if i == 32 {
            Key::W
        } else if i == 33 {
            Key::X
        } else if i == 34 {
            Key::Y
        } else if i == 35 {
            Key::Z
        } else if i == 36 {
            Key::Esc
        } else if i == 37 {
            Key::F1
        } else if i == 38 {
            Key::F2
        } else if i == 39 {
            Key::F3
        } else if i == 40 {
            Key::F4
        } else if i == 41 {
            Key::F5
        } else if i == 42 {
            Key::F6
        } else if i == 43 {
            Key::F7
        } else if i == 44 {
            Key::F8
        } else if i == 45 {
            Key::F9
        } else if i == 46 {
            Key::F10
        } else if i == 47 {
            Key::F11
        } else if i == 48 {
            Key::F12
        } else if i == 49 {
            Key::F13
        } else if i == 50 {
            Key::F14
        } else if i == 51 {
            Key::F15
        } else if i == 52 {
            Key::F16
        } else if i == 53 {
            Key::F17
        } else if i == 54 {
            Key::F18
        } else if i == 55 {
            Key::F19
        } else if i == 56 {
            Key::F20
        } else if i == 57 {
            Key::F21
        } else if i == 58 {
            Key::F22
        } else if i == 59 {
            Key::F23
        } else if i == 60 {
            Key::F24
        } else if i == 61 {
            Key::ScrollLock
        } else if i == 62 {
            Key::Home
        } else if i == 63 {
            Key::Delete
        } else if i == 64 {
            Key::End
        } else if i == 65 {
            Key::PageDown
        } else if i == 66 {
            Key::PageUp
        } else if i == 67 {
            Key::Left
        } else if i == 68 {
            Key::Up
        } else if i == 69 {
            Key::Right
        } else if i == 70 {
            Key::Down
        } else if i == 71 {
            Key::BackSpace
        } else if i == 72 {
            Key::Enter
        } else if i == 73 {
            Key::Space
        } else if i == 74 {
            Key::Numlock
        } else if i == 75 {
            Key::Numpad0
        } else if i == 76 {
            Key::Numpad1
        } else if i == 77 {
            Key::Numpad2
        } else if i == 78 {
            Key::Numpad3
        } else if i == 79 {
            Key::Numpad4
        } else if i == 80 {
            Key::Numpad5
        } else if i == 81 {
            Key::Numpad6
        } else if i == 82 {
            Key::Numpad7
        } else if i == 83 {
            Key::Numpad8
        } else if i == 84 {
            Key::Numpad9
        } else if i == 85 {
            Key::NumpadAdd
        } else if i == 86 {
            Key::NumpadDivide
        } else if i == 87 {
            Key::NumpadDecimial
        } else if i == 88 {
            Key::NumpadComma
        } else if i == 89 {
            Key::NumpadEnter
        } else if i == 90 {
            Key::NumpadEquals
        } else if i == 91 {
            Key::NumpadMultiply
        } else if i == 92 {
            Key::NumpadSubtract
        } else if i == 93 {
            Key::BackSlash
        } else if i == 94 {
            Key::CapsLock
        } else if i == 95 {
            Key::Comma
        } else if i == 96 {
            Key::Equals
        } else if i == 97 {
            Key::LeftAlt
        } else if i == 98 {
            Key::LeftBracket
        } else if i == 99 {
            Key::LeftControl
        } else if i == 100 {
            Key::LeftShift
        } else if i == 101 {
            Key::Minus
        } else if i == 102 {
            Key::Period
        } else if i == 103 {
            Key::Plus
        } else if i == 104 {
            Key::RightAlt
        } else if i == 105 {
            Key::RightBracket
        } else if i == 106 {
            Key::RightControl
        } else if i == 107 {
            Key::RightShift
        } else if i == 108 {
            Key::SemiColon
        } else if i == 109 {
            Key::Slash
        } else if i == 110 {
            Key::Tab
        } else {
            Key::Unrecognized
        }
    }

    /// The slot of the key in the keyboard state.
    pub fn index(self) -> (i: usize)
        ensures
            i == self.spec_index(),
    {
        match self {
            Key::Key1 => 0,
            Key::Key2 => 1,
            Key::Key3 => 2,
            Key::Key4 => 3,
            Key::Key5 => 4,
            Key::Key6 => 5,
            Key::Key7 => 6,
            Key::Key8 => 7,
            Key::Key9 => 8,
            Key::Key0 => 9,
            Key::A => 10,
            Key::B => 11,
            Key::C => 12,
            Key::D => 13,
            Key::E => 14,
            Key::F => 15,
            Key::G => 16,
            Key::H => 17,
            Key::I => 18,
            Key::J => 19,
            Key::K => 20,
            Key::L => 21,
            Key::M => 22,
            Key::N => 23,
            Key::O => 24,
            Key::P => 25,
            Key::Q => 26,
            Key::R => 27,
            Key::S => 28,
            Key::T => 29,
            Key::U => 30,
            Key::V => 31,
            Key::W => 32,
            Key::X => 33,
            Key::Y => 34,
            Key::Z => 35,
            Key::Esc => 36,
            Key::F1 => 37,
            Key::F2 => 38,
            Key::F3 => 39,
            Key::F4 => 40,
            Key::F5 => 41,
            Key::F6 => 42,
            Key::F7 => 43,
            Key::F8 => 44,
            Key::F9 => 45,
            Key::F10 => 46,
            Key::F11 => 47,
            Key::F12 => 48,
            Key::F13 => 49,
            Key::F14 => 50,
            Key::F15 => 51,
            Key::F16 => 52,
            Key::F17 => 53,
            Key::F18 => 54,
            Key::F19 => 55,
            Key::F20 => 56,
            Key::F21 => 57,
            Key::F22 => 58,
            Key::F23 => 59,
            Key::F24 => 60,
            Key::ScrollLock => 61,
            Key::Home => 62,
            Key::Delete => 63,
            Key::End => 64,
            Key::PageDown => 65,
            Key::PageUp => 66,
            Key::Left => 67,
            Key::Up => 68,
            Key::Right => 69,
            Key::Down => 70,
            Key::BackSpace => 71,
            Key::Enter => 72,
            Key::Space => 73,
            Key::Numlock => 74,
            Key::Numpad0 => 75,
            Key::Numpad1 => 76,
            Key::Numpad2 => 77,
            Key::Numpad3 => 78,
            Key::Numpad4 => 79,
            Key::Numpad5 => 80,
            Key::Numpad6 => 81,
            Key::Numpad7 => 82,
            Key::Numpad8 => 83,
            Key::Numpad9 => 84,
            Key::NumpadAdd => 85,
            Key::NumpadDivide => 86,
            Key::NumpadDecimial => 87,
            Key::NumpadComma => 88,
            Key::NumpadEnter => 89,
            Key::NumpadEquals => 90,
            Key::NumpadMultiply => 91,
            Key::NumpadSubtract => 92,
            Key::BackSlash => 93,
            Key::CapsLock => 94,
            Key::Comma => 95,
            Key::Equals => 96,
            Key::LeftAlt => 97,
            Key::LeftBracket => 98,
            Key::LeftControl => 99,
            Key::LeftShift => 100,
            Key::Minus => 101,
            Key::Period => 102,
            Key::Plus => 103,
            Key::RightAlt => 104,
            Key::RightBracket => 105,
            Key::RightControl => 106,
            Key::RightShift => 107,
            Key::SemiColon => 108,
            Key::Slash => 109,
            Key::Tab => 110,
            Key::Unrecognized => 111,
        }
    }

    /// Whether the engine keeps a state for this key: every key but
    /// [`Key::Unrecognized`].
    pub open spec fn is_tracked(self) -> bool {
        self.spec_index() < KEYBOARD_KEYS
    }
}

/// Each key is recovered from its slot.
pub proof fn lemma_key_index_inverse(k: Key)
    ensures
        Key::spec_from_index(k.spec_index()) == k,
{
}

/// Distinct keys have distinct slots.
pub proof fn lemma_key_index_injective(a: Key, b: Key)
    ensures
        a.spec_index() == b.spec_index() ==> a == b,
{
    lemma_key_index_inverse(a);
    lemma_key_index_inverse(b);
}

/// The only key without a state is [`Key::Unrecognized`].
pub proof fn lemma_tracked_keys(k: Key)
    ensures
        k.is_tracked() <==> k != Key::Unrecognized,
{
}

/// One input event, as the engine reads it from the window: a keyboard key that
/// went down or up (`None` when the window could not say which key it was), a mouse
/// button that went down or up, a cursor move, or anything else.
#[derive(Debug, Clone, Copy, PartialEq, Eq)]
pub enum InputEvent {
    Keyboard { key: Option<Key>, pressed: bool },
    Mouse { button: MouseKey, pressed: bool },
    CursorMoved,
    Other,
}

/// The model of an [`InputHandle`]: for each key and mouse button whether it is held
/// now and whether it was held in the previous frame, by slot.
pub struct InputState {
    pub keys_now: Seq<bool>,
    pub keys_before: Seq<bool>,
    pub mouse_now: Seq<bool>,
    pub mouse_before: Seq<bool>,
}

impl InputState {
    /// Every key and mouse button has a slot.
    pub open spec fn wf(self) -> bool {
        &&& self.keys_now.len() == KEYBOARD_KEYS
        &&& self.keys_before.len() == KEYBOARD_KEYS
        &&& self.mouse_now.len() == MOUSE_KEYS
        &&& self.mouse_before.len() == MOUSE_KEYS
    }

    /// Whether the key is held in this frame.
    pub open spec fn key_down(self, key: Key) -> bool {
        self.keys_now[key.spec_index() as int]
    }

    /// Whether the key was held in the previous frame.
    pub open spec fn key_was_down(self, key: Key) -> bool {
        self.keys_before[key.spec_index() as int]
    }

    /// Whether the key went down in this frame.
    pub open spec fn key_pressed(self, key: Key) -> bool {
        !self.key_was_down(key) && self.key_down(key)
    }

    /// Whether the key came back up in this frame.
    pub open spec fn key_released(self, key: Key) -> bool {
        self.key_was_down(key) && !self.key_down(key)
    }

    /// Whether the mouse button is held in this frame.
    pub open spec fn mouse_down(self, key: MouseKey) -> bool {
        self.mouse_now[key.spec_index() as int]
    }

    /// Whether the mouse button was held in the previous frame.
    pub open spec fn mouse_was_down(self, key: MouseKey) -> bool {
        self.mouse_before[key.spec_index() as int]
    }

    /// Whether the mouse button went down in this frame.
    pub open spec fn mouse_pressed(self, key: MouseKey) -> bool {
        !self.mouse_was_down(key) && self.mouse_down(key)
    }

    /// Whether the mouse button came back up in this frame.
    pub open spec fn mouse_released(self, key: MouseKey) -> bool {
        self.mouse_was_down(key) && !self.mouse_down(key)
    }

    /// The state once the frame has ended: what is held now was held before.
    pub open spec fn refreshed(self) -> InputState {
        InputState { keys_before: self.keys_now, mouse_before: self.mouse_now, ..self }
    }

    /// The state once the event has been recorded.
    pub open spec fn with_event(self, event: InputEvent) -> InputState {
        match event {
            InputEvent::Keyboard { key: Some(k), pressed } => InputState {
                keys_now: self.keys_now.update(k.spec_index() as int, pressed),
                ..self
            },
            InputEvent::Mouse { button, pressed } => InputState {
                mouse_now: self.mouse_now.update(button.spec_index() as int, pressed),
                ..self
            },
            _ => self,
        }
    }

    /// Whether the handle takes the event.
    pub open spec fn takes(event: InputEvent) -> bool {
        match event {
            InputEvent::Keyboard { key, .. } => key is Some,
            InputEvent::Mouse { .. } => true,
            InputEvent::CursorMoved => true,
            InputEvent::Other => false,
        }
    }
}

/// The state of every key and mouse button in this frame and in the previous one.
pub struct InputHandle {
    previous_keyboard_state: [bool; 111],
    current_keyboard_state: [bool; 111],
    previous_mouse_state: [bool; 6],
    current_mouse_state: [bool; 6],
}

impl View for InputHandle {
    type V = InputState;

    closed spec fn view(&self) -> InputState {
        InputState {
            keys_now: self.current_keyboard_state@,
            keys_before: self.previous_keyboard_state@,
            mouse_now: self.current_mouse_state@,
            mouse_before: self.previous_mouse_state@,
        }
    }
}

impl InputHandle {
    /// A handle on which nothing is or was held.
    pub fn new() -> (handle: Self)
        ensures
            handle@.wf(),
            forall|k: Key| k.is_tracked() ==> !(#[trigger] handle@.key_down(k)) && !handle@.key_was_down(k),
            forall|m: MouseKey| !(#[trigger] handle@.mouse_down(m)) && !handle@.mouse_was_down(m),
    {
        let handle = Self {
            previous_keyboard_state: [false; 111],
            current_keyboard_state: [false; 111],
            previous_mouse_state: [false; 6],
            current_mouse_state: [false; 6],
        };
        assert(handle@.wf());
        handle
    }

    /// Every key and mouse button has a slot.
    pub proof fn lemma_wf(&self)
        ensures
            self@.wf(),
    {
    }

    /// Ends a frame: what is held now becomes what was held in the previous frame.
    pub fn end_of_frame_refresh(&mut self)
        ensures
            final(self)@ == old(self)@.refreshed(),
    {
        self.previous_keyboard_state = self.current_keyboard_state;
        self.previous_mouse_state = self.current_mouse_state;
    }

    /// Records one event. Returns whether the event was an input the handle takes:
    /// a known key, a mouse button or a cursor move. The key of a keyboard event
    /// must have a state.
    pub fn process_input(&mut self, event: InputEvent) -> (taken: bool)
        requires
            event matches InputEvent::Keyboard { key: Some(k), .. } ==> k.is_tracked(),
        ensures
            taken == InputState::takes(event),
            final(self)@ == old(self)@.with_event(event),
    {
        match event {
            InputEvent::Keyboard { key, pressed } => self.process_keyboard_input(key, pressed),
            InputEvent::Mouse { button, pressed } => self.process_mouse_input(button, pressed),
            InputEvent::CursorMoved => true,
            InputEvent::Other => false,
        }
    }

    fn process_mouse_input(&mut self, key: MouseKey, pressed: bool) -> (taken: bool)
        ensures
            taken,
            final(self)@ == old(self)@.with_event(InputEvent::Mouse { button: key, pressed }),
    {
        let idx = key.index();
        self.current_mouse_state[idx] = pressed;
        true
    }

    fn process_keyboard_input(&mut self, key: Option<Key>, pressed: bool) -> (taken: bool)
        requires
            key matches Some(k) ==> k.is_tracked(),
        ensures
            taken == key is Some,
            final(self)@ == old(self)@.with_event(InputEvent::Keyboard { key, pressed }),
    {
        let key = match key {
            Some(k) => k,
            None => return false,
        };
        let index = key.index();
        self.current_keyboard_state[index] = pressed;
        true
    }

    /// Checks if a key is down.
    pub fn is_key_down(&self, key: Key) -> (down: bool)
        requires
            key.is_tracked(),
        ensures
            down == self@.key_down(key),
    {
        self.current_keyboard_state[key.index()]
    }

    /// Checks if a key is up.
    pub fn is_key_up(&self, key: Key) -> (up: bool)
        requires
            key.is_tracked(),
        ensures
            up == !self@.key_down(key),
    {
        !self.current_keyboard_state[key.index()]
    }

    /// Only returns `true` on the frame where the key is first pressed down.
    pub fn is_key_pressed(&self, key: Key) -> (pressed: bool)
        requires
            key.is_tracked(),
        ensures
            pressed == self@.key_pressed(key),
    {
        let index = key.index();
        !self.previous_keyboard_state[index] && self.current_keyboard_state[index]
    }

    /// Only returns `true` on the frame where the key first returns back up.
    pub fn is_key_released(&self, key: Key) -> (released: bool)
        requires
            key.is_tracked(),
        ensures
            released == self@.key_released(key),
    {
        let index = key.index();
        self.previous_keyboard_state[index] && !self.current_keyboard_state[index]
    }

    /// Checks if a mouse key is down.
    pub fn is_mouse_key_down(&self, key: MouseKey) -> (down: bool)
        ensures
            down == self@.mouse_down(key),
    {
        self.current_mouse_state[key.index()]
    }

    /// Checks if a mouse key is up.
    pub fn is_mouse_key_up(&self, key: MouseKey) -> (up: bool)
        ensures
            up == !self@.mouse_down(key),
    {
        !self.current_mouse_state[key.index()]
    }

    /// Only returns `true` on the frame where the mouse key is first pressed down.
    pub fn is_mouse_key_pressed(&self, key: MouseKey) -> (pressed: bool)
        ensures
            pressed == self@.mouse_pressed(key),
    {
        let index = key.index();
        !self.previous_mouse_state[index] && self.current_mouse_state[index]
    }

    /// Only returns `true` on the frame where the mouse key first returns back up.
    pub fn is_mouse_key_released(&self, key: MouseKey) -> (released: bool)
        ensures
            released == self@.mouse_released(key),
    {
        let index = key.index();
        self.previous_mouse_state[index] && !self.current_mouse_state[index]
    }
}

/// A key that is pressed is down, a key that is released is up, and no key is both
/// pressed and released in one frame.
pub proof fn lemma_edges_imply_level(s: InputState, k: Key, m: MouseKey)
    ensures
        s.key_pressed(k) ==> s.key_down(k),
        s.key_released(k) ==> !s.key_down(k),
        !(s.key_pressed(k) && s.key_released(k)),
        s.mouse_pressed(m) ==> s.mouse_down(m),
        s.mouse_released(m) ==> !s.mouse_down(m),
        !(s.mouse_pressed(m) && s.mouse_released(m)),
{
}

/// Once a frame has ended nothing counts as pressed or released, and what is held
/// stays held.
pub proof fn lemma_refresh_clears_edges(s: InputState, k: Key, m: MouseKey)
    ensures
        !s.refreshed().key_pressed(k),
        !s.refreshed().key_released(k),
        s.refreshed().key_down(k) == s.key_down(k),
        !s.refreshed().mouse_pressed(m),
        !s.refreshed().mouse_released(m),
        s.refreshed().mouse_down(m) == s.mouse_down(m),
{
}

/// A key event changes the state of that key only: the key is held exactly when the
/// event says it went down, and every other key and every mouse button is as before.
pub proof fn lemma_key_event_is_local(s: InputState, k: Key, pressed: bool, other: Key, m: MouseKey)
    requires
        s.wf(),
        k.is_tracked(),
        other.is_tracked(),
    ensures
        s.with_event(InputEvent::Keyboard { key: Some(k), pressed }).key_down(k) == pressed,
        other != k ==> s.with_event(InputEvent::Keyboard { key: Some(k), pressed }).key_down(other) == s.key_down(other),
        s.with_event(InputEvent::Keyboard { key: Some(k), pressed }).key_was_down(other) == s.key_was_down(other),
        s.with_event(InputEvent::Keyboard { key: Some(k), pressed }).mouse_down(m) == s.mouse_down(m),
{
    lemma_key_index_injective(k, other);
}

/// A mouse event changes the state of that button only.
pub proof fn lemma_mouse_event_is_local(s: InputState, m: MouseKey, pressed: bool, other: MouseKey, k: Key)
    requires
        s.wf(),
    ensures
        s.with_event(InputEvent::Mouse { button: m, pressed }).mouse_down(m) == pressed,
        other != m ==> s.with_event(InputEvent::Mouse { button: m, pressed }).mouse_down(other) == s.mouse_down(other),
        s.with_event(InputEvent::Mouse { button: m, pressed }).mouse_was_down(other) == s.mouse_was_down(other),
        s.with_event(InputEvent::Mouse { button: m, pressed }).key_down(k) == s.key_down(k),
{
    lemma_mouse_index_injective(m, other);
}

/// A key held through the end of a frame and then let go counts as released, and a
/// key that was up at the end of a frame and then goes down counts as pressed.
pub proof fn lemma_press_and_release(s: InputState, k: Key)
    requires
        s.wf(),
        k.is_tracked(),
    ensures
        !s.key_down(k) ==> s.refreshed().with_event(InputEvent::Keyboard { key: Some(k), pressed: true }).key_pressed(k),
        s.key_down(k) ==> s.refreshed().with_event(InputEvent::Keyboard { key: Some(k), pressed: false }).key_released(k),
{
}

} // verus!
