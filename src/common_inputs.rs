//! Identifiers of common inputs, with builders for the events on them.
use vstd::prelude::*;

use crate::combinator::Sequence;
use crate::input_event::{ChangeBy, SetTo};

verus! {

/// A key of the keyboard.
#[non_exhaustive]
#[derive(Debug, Clone, Copy, PartialEq, Eq, Hash)]
pub enum Key {
    /// alt key on Linux and Windows (option key on macOS)
    Alt,
    Shift,
    Control,
    F1,
    F2,
    F3,
    F4,
    F5,
    F6,
    F7,
    F8,
    F9,
    F10,
    F11,
    F12,
    CapsLock,
    End,
    Home,
    PageUp,
    PageDown,
    Escape,
    Enter,
    Space,
    Tab,
    Backspace,
    Delete,
    UpArrow,
    DownArrow,
    LeftArrow,
    RightArrow,
}

impl Key {
    /// Set this key to pressed (`true`) or released (`false`).
    pub fn set_to(self, to: bool) -> (r: SetTo<Self, bool>)
        ensures
            r == (SetTo { input: self, to }),
    {
        SetTo::new(self, to)
    }

    /// Press this key.
    pub fn down(self) -> (r: SetTo<Self, bool>)
        ensures
            r == (SetTo { input: self, to: true }),
    {
        self.set_to(true)
    }

    /// Release this key.
    pub fn up(self) -> (r: SetTo<Self, bool>)
        ensures
            r == (SetTo { input: self, to: false }),
    {
        self.set_to(false)
    }

    /// Press this key, then release it.
    pub fn click(self) -> (r: Sequence<(SetTo<Self, bool>, SetTo<Self, bool>)>)
        ensures
            r == Sequence((SetTo { input: self, to: true }, SetTo { input: self, to: false })),
    {
        Sequence((self.down(), self.up()))
    }
}

/// A button of the mouse.
#[non_exhaustive]
#[derive(Debug, Clone, Copy, PartialEq, Eq, Hash)]
pub enum MouseButton {
    Left,
    Middle,
    Right,
}

impl MouseButton {
    /// Set this button to pressed (`true`) or released (`false`).
    pub fn set_to(self, to: bool) -> (r: SetTo<Self, bool>)
        ensures
            r == (SetTo { input: self, to }),
    {
        SetTo::new(self, to)
    }

    /// Press this button.
    pub fn down(self) -> (r: SetTo<Self, bool>)
        ensures
            r == (SetTo { input: self, to: true }),
    {
        self.set_to(true)
    }

    /// Release this button.
    pub fn up(self) -> (r: SetTo<Self, bool>)
        ensures
            r == (SetTo { input: self, to: false }),
    {
        self.set_to(false)
    }

    /// Press this button, then release it.
    pub fn click(self) -> (r: Sequence<(SetTo<Self, bool>, SetTo<Self, bool>)>)
        ensures
            r == Sequence((SetTo { input: self, to: true }, SetTo { input: self, to: false })),
    {
        Sequence((self.down(), self.up()))
    }
}

/// The key that types a character.
#[derive(Debug, Clone, Copy, PartialEq, Eq, PartialOrd, Ord, Hash)]
pub struct Char(pub char);

impl Char {
    /// Set this key to pressed (`true`) or released (`false`).
    pub fn set_to(self, to: bool) -> (r: SetTo<Self, bool>)
        ensures
            r == (SetTo { input: self, to }),
    {
        SetTo::new(self, to)
    }

    /// Press this key.
    pub fn down(self) -> (r: SetTo<Self, bool>)
        ensures
            r == (SetTo { input: self, to: true }),
    {
        self.set_to(true)
    }

    /// Release this key.
    pub fn up(self) -> (r: SetTo<Self, bool>)
        ensures
            r == (SetTo { input: self, to: false }),
    {
        self.set_to(false)
    }

    /// Press this key, then release it.
    pub fn click(self) -> (r: Sequence<(SetTo<Self, bool>, SetTo<Self, bool>)>)
        ensures
            r == Sequence((SetTo { input: self, to: true }, SetTo { input: self, to: false })),
    {
        Sequence((self.down(), self.up()))
    }
}

impl From<char> for Char {
    fn from(value: char) -> (r: Char)
        ensures
            r == Char(value),
    {
        Char(value)
    }
}

impl vstd::std_specs::convert::FromSpecImpl<char> for Char {
    open spec fn obeys_from_spec() -> bool {
        true
    }

    open spec fn from_spec(v: char) -> Char {
        Char(v)
    }
}

/// The position of the mouse pointer on the screen.
#[derive(Debug, Clone, Copy, PartialEq, Eq, Hash)]
pub struct MousePosition;

impl MousePosition {
    /// Move the pointer to the absolute position (`x`, `y`).
    pub fn move_to(self, x: i32, y: i32) -> (r: SetTo<Self, (i32, i32)>)
        ensures
            r == (SetTo { input: self, to: (x, y) }),
    {
        SetTo { input: self, to: (x, y) }
    }

    /// Move the pointer by (`x`, `y`) from where it is.
    pub fn move_by(self, x: i32, y: i32) -> (r: ChangeBy<Self, (i32, i32)>)
        ensures
            r == (ChangeBy { input: self, by: (x, y) }),
    {
        ChangeBy { input: self, by: (x, y) }
    }
}

/// The scroll wheel of the mouse.
#[derive(Debug, Clone, Copy, PartialEq, Eq, Hash)]
pub struct MouseScroll;

impl MouseScroll {
    /// Scroll the wheel by (`x`, `y`).
    pub fn scroll_by(self, x: i32, y: i32) -> (r: ChangeBy<Self, (i32, i32)>)
        ensures
            r == (ChangeBy { input: self, by: (x, y) }),
    {
        ChangeBy { input: self, by: (x, y) }
    }
}

} // verus!
