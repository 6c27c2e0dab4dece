//! All VST plugin editor related functionality.

use vstd::prelude::*;

verus! {

/// Rectangle used to specify dimensions of an editor window.
#[derive(Clone, Copy, Debug, PartialEq, Eq, Structural)]
pub struct Rect {
    /// Y value in pixels of top side.
    pub top: i16,
    /// X value in pixels of left side.
    pub left: i16,
    /// Y value in pixels of bottom side.
    pub bottom: i16,
    /// X value in pixels of right side.
    pub right: i16,
}

/// A platform independent key code. Includes modifier keys.
#[derive(Clone, Copy, Debug, PartialEq, Eq, Structural)]
pub struct KeyCode {
    /// ASCII character for the key pressed, if applicable.
    pub character: char,
    /// Key pressed. See [`Key`].
    pub key: Key,
    /// Modifier key bitflags.
    pub modifier: u8,
}

/// Allows the host to set how a parameter knob works.
#[derive(Clone, Copy, Debug, PartialEq, Eq, Structural)]
#[allow(missing_docs)]
pub enum KnobMode {
    Circular,
    CircularRelative,
    Linear,
}

impl KnobMode {
    /// The number the VST API uses for this knob mode.
    pub open spec fn spec_raw(self) -> isize {
        match self {
            KnobMode::Circular => 0,
            KnobMode::CircularRelative => 1,
            KnobMode::Linear => 2,
        }
    }

    /// Convert to the number the VST API uses for this knob mode.
    pub fn into_raw(self) -> (r: isize)
        ensures
            r == self.spec_raw(),
    {
        match self {
            KnobMode::Circular => 0,
            KnobMode::CircularRelative => 1,
            KnobMode::Linear => 2,
        }
    }

    /// Recover the knob mode a number names, if it names one.
    pub fn from_raw(v: isize) -> (r: Option<KnobMode>)
        ensures
            r == (if v == 0 {
                Some(KnobMode::Circular)
            } else if v == 1 {
                Some(KnobMode::CircularRelative)
            } else if v == 2 {
                Some(KnobMode::Linear)
            } else {
                None::<KnobMode>
            }),
    {
        match v {
            0 => Some(KnobMode::Circular),
            1 => Some(KnobMode::CircularRelative),
            2 => Some(KnobMode::Linear),
            _ => None,
        }
    }
}

/// Platform independent key codes. The number of a key is its position in
/// this list, as `into_raw` states.
#[allow(missing_docs)]
#[derive(Clone, Copy, Debug, PartialEq, Eq, Structural)]
pub enum Key {
    NoKey,
    Back,
    Tab,
    Clear,
    Return,
    Pause,
    Escape,
    Space,
    Next,
    End,
    Home,
    Left,
    Up,
    Right,
    Down,
    PageUp,
    PageDown,
    Select,
    Print,
    Enter,
    Snapshot,
    Insert,
    Delete,
    Help,
    Numpad0,
    Numpad1,
    Numpad2,
    Numpad3,
    Numpad4,
    Numpad5,
    Numpad6,
    Numpad7,
    Numpad8,
    Numpad9,
    Multiply,
    Add,
    Separator,
    Subtract,
    Decimal,
    Divide,
    F1,
    F2,
    F3,
    F4,
    F5,
    F6,
    F7,
    F8,
    F9,
    F10,
    F11,
    F12,
    Numlock,
    Scroll,
    Shift,
    Control,
    Alt,
    Equals,
}

impl Key {
    /// The number the VST API uses for this key.
    pub open spec fn spec_raw(self) -> isize {
        match self {
            Key::NoKey => 0,
            Key::Back => 1,
            Key::Tab => 2,
            Key::Clear => 3,
            Key::Return => 4,
            Key::Pause => 5,
            Key::Escape => 6,
            Key::Space => 7,
            Key::Next => 8,
            Key::End => 9,
            Key::Home => 10,
            Key::Left => 11,
            Key::Up => 12,
            Key::Right => 13,
            Key::Down => 14,
            Key::PageUp => 15,
            Key::PageDown => 16,
            Key::Select => 17,
            Key::Print => 18,
            Key::Enter => 19,
            Key::Snapshot => 20,
            Key::Insert => 21,
            Key::Delete => 22,
            Key::Help => 23,
            Key::Numpad0 => 24,
            Key::Numpad1 => 25,
            Key::Numpad2 => 26,
            Key::Numpad3 => 27,
            Key::Numpad4 => 28,
            Key::Numpad5 => 29,
            Key::Numpad6 => 30,
            Key::Numpad7 => 31,
            Key::Numpad8 => 32,
            Key::Numpad9 => 33,
            Key::Multiply => 34,
            Key::Add => 35,
            Key::Separator => 36,
            Key::Subtract => 37,
            Key::Decimal => 38,
            Key::Divide => 39,
            Key::F1 => 40,
            Key::F2 => 41,
            Key::F3 => 42,
            Key::F4 => 43,
            Key::F5 => 44,
            Key::F6 => 45,
            Key::F7 => 46,
            Key::F8 => 47,
            Key::F9 => 48,
            Key::F10 => 49,
            Key::F11 => 50,
            Key::F12 => 51,
            Key::Numlock => 52,
            Key::Scroll => 53,
            Key::Shift => 54,
            Key::Control => 55,
            Key::Alt => 56,
            Key::Equals => 57,
        }
    }

    /// Convert to the number the VST API uses for this key.
    pub fn into_raw(self) -> (r: isize)
        ensures
            r == self.spec_raw(),
    {
        match self {
            Key::NoKey => 0,
            Key::Back => 1,
            Key::Tab => 2,
            Key::Clear => 3,
            Key::Return => 4,
            Key::Pause => 5,
            Key::Escape => 6,
            Key::Space => 7,
            Key::Next => 8,
            Key::End => 9,
            Key::Home => 10,
            Key::Left => 11,
            Key::Up => 12,
            Key::Right => 13,
            Key::Down => 14,
            Key::PageUp => 15,
            Key::PageDown => 16,
            Key::Select => 17,
            Key::Print => 18,
            Key::Enter => 19,
            Key::Snapshot => 20,
            Key::Insert => 21,
            Key::Delete => 22,
            Key::Help => 23,
            Key::Numpad0 => 24,
            Key::Numpad1 => 25,
            Key::Numpad2 => 26,
            Key::Numpad3 => 27,
            Key::Numpad4 => 28,
            Key::Numpad5 => 29,
            Key::Numpad6 => 30,
            Key::Numpad7 => 31,
            Key::Numpad8 => 32,
            Key::Numpad9 => 33,
            Key::Multiply => 34,
            Key::Add => 35,
            Key::Separator => 36,
            Key::Subtract => 37,
            Key::Decimal => 38,
            Key::Divide => 39,
            Key::F1 => 40,
            Key::F2 => 41,
            Key::F3 => 42,
            Key::F4 => 43,
            Key::F5 => 44,
            Key::F6 => 45,
            Key::F7 => 46,
            Key::F8 => 47,
            Key::F9 => 48,
            Key::F10 => 49,
            Key::F11 => 50,
            Key::F12 => 51,
            Key::Numlock => 52,
            Key::Scroll => 53,
            Key::Shift => 54,
            Key::Control => 55,
            Key::Alt => 56,
            Key::Equals => 57,
        }
    }

    /// Recover the key a number names, if it names one.
    pub fn from_raw(v: isize) -> (r: Option<Key>)
        ensures
            r == Key::spec_from_raw(v),
    {
        match v {
            0 => Some(Key::NoKey),
            1 => Some(Key::Back),
            2 => Some(Key::Tab),
            3 => Some(Key::Clear),
            4 => Some(Key::Return),
            5 => Some(Key::Pause),
            6 => Some(Key::Escape),
            7 => Some(Key::Space),
            8 => Some(Key::Next),
            9 => Some(Key::End),
            10 => Some(Key::Home),
            11 => Some(Key::Left),
            12 => Some(Key::Up),
            13 => Some(Key::Right),
            14 => Some(Key::Down),
            15 => Some(Key::PageUp),
            16 => Some(Key::PageDown),
            17 => Some(Key::Select),
            18 => Some(Key::Print),
            19 => Some(Key::Enter),
            20 => Some(Key::Snapshot),
            21 => Some(Key::Insert),
            22 => Some(Key::Delete),
            23 => Some(Key::Help),
            24 => Some(Key::Numpad0),
            25 => Some(Key::Numpad1),
            26 => Some(Key::Numpad2),
            27 => Some(Key::Numpad3),
            28 => Some(Key::Numpad4),
            29 => Some(Key::Numpad5),
            30 => Some(Key::Numpad6),
            31 => Some(Key::Numpad7),
            32 => Some(Key::Numpad8),
            33 => Some(Key::Numpad9),
            34 => Some(Key::Multiply),
            35 => Some(Key::Add),
            36 => Some(Key::Separator),
            37 => Some(Key::Subtract),
            38 => Some(Key::Decimal),
            39 => Some(Key::Divide),
            40 => Some(Key::F1),
            41 => Some(Key::F2),
            42 => Some(Key::F3),
            43 => Some(Key::F4),
            44 => Some(Key::F5),
            45 => Some(Key::F6),
            46 => Some(Key::F7),
            47 => Some(Key::F8),
            48 => Some(Key::F9),
            49 => Some(Key::F10),
            50 => Some(Key::F11),
            51 => Some(Key::F12),
            52 => Some(Key::Numlock),
            53 => Some(Key::Scroll),
            54 => Some(Key::Shift),
            55 => Some(Key::Control),
            56 => Some(Key::Alt),
            57 => Some(Key::Equals),
            _ => None,
        }
    }

    /// The key a number names, if it names one.
    pub open spec fn spec_from_raw(v: isize) -> Option<Key> {
        if v == 0 {
            Some(Key::NoKey)
        } else if v == 1 {
            Some(Key::Back)
        } else if v == 2 {
            Some(Key::Tab)
        } else if v == 3 {
            Some(Key::Clear)
        } else if v == 4 {
            Some(Key::Return)
        } else if v == 5 {
            Some(Key::Pause)
        } else if v == 6 {
            Some(Key::Escape)
        } else if v == 7 {
            Some(Key::Space)
        } else if v == 8 {
            Some(Key::Next)
        } else if v == 9 {
            Some(Key::End)
        } else if v == 10 {
            Some(Key::Home)
        } else if v == 11 {
            Some(Key::Left)
        } else if v == 12 {
            Some(Key::Up)
        } else if v == 13 {
            Some(Key::Right)
        } else if v == 14 {
            Some(Key::Down)
        } else if v == 15 {
            Some(Key::PageUp)
        } else if v == 16 {
            Some(Key::PageDown)
        } else if v == 17 {
            Some(Key::Select)
        } else if v == 18 {
            Some(Key::Print)
        } else if v == 19 {
            Some(Key::Enter)
        } else if v == 20 {
            Some(Key::Snapshot)
        } else if v == 21 {
            Some(Key::Insert)
        } else if v == 22 {
            Some(Key::Delete)
        } else if v == 23 {
            Some(Key::Help)
        } else if v == 24 {
            Some(Key::Numpad0)
        } else if v == 25 {
            Some(Key::Numpad1)
        } else if v == 26 {
            Some(Key::Numpad2)
        } else if v == 27 {
            Some(Key::Numpad3)
        } else if v == 28 {
            Some(Key::Numpad4)
        } else if v == 29 {
            Some(Key::Numpad5)
        } else if v == 30 {
            Some(Key::Numpad6)
        } else if v == 31 {
            Some(Key::Numpad7)
        } else if v == 32 {
            Some(Key::Numpad8)
        } else if v == 33 {
            Some(Key::Numpad9)
        } else if v == 34 {
            Some(Key::Multiply)
        } else if v == 35 {
            Some(Key::Add)
        } else if v == 36 {
            Some(Key::Separator)
        } else if v == 37 {
            Some(Key::Subtract)
        } else if v == 38 {
            Some(Key::Decimal)
        } else if v == 39 {
            Some(Key::Divide)
        } else if v == 40 {
            Some(Key::F1)
        } else if v == 41 {
            Some(Key::F2)
        } else if v == 42 {
            Some(Key::F3)
        } else if v == 43 {
            Some(Key::F4)
        } else if v == 44 {
            Some(Key::F5)
        } else if v == 45 {
            Some(Key::F6)
        } else if v == 46 {
            Some(Key::F7)
        } else if v == 47 {
            Some(Key::F8)
        } else if v == 48 {
            Some(Key::F9)
        } else if v == 49 {
            Some(Key::F10)
        } else if v == 50 {
            Some(Key::F11)
        } else if v == 51 {
            Some(Key::F12)
        } else if v == 52 {
            Some(Key::Numlock)
        } else if v == 53 {
            Some(Key::Scroll)
        } else if v == 54 {
            Some(Key::Shift)
        } else if v == 55 {
            Some(Key::Control)
        } else if v == 56 {
            Some(Key::Alt)
        } else if v == 57 {
            Some(Key::Equals)
        } else {
            None
        }
    }
}

} // verus!
