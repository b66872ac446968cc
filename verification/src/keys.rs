//! Keyboard events as the key handlers see them.

use vstd::prelude::*;

verus! {

/// The key that was pressed.
#[derive(Debug, Clone, Copy, PartialEq, Eq, Structural)]
pub enum KeyCode {
    Char(char),
    Enter,
    Esc,
    Tab,
    BackTab,
    Backspace,
    Delete,
    Insert,
    Left,
    Right,
    Up,
    Down,
    Home,
    End,
    PageUp,
    PageDown,
    Function(u8),
    Other,
}

/// The modifier keys held with it.
#[derive(Debug, Clone, Copy, PartialEq, Eq, Structural)]
pub struct KeyModifiers {
    pub shift: bool,
    pub control: bool,
    pub alt: bool,
    pub super_key: bool,
    pub hyper: bool,
    pub meta: bool,
}

impl KeyModifiers {
    pub open spec fn none_spec() -> KeyModifiers {
        KeyModifiers {
            shift: false,
            control: false,
            alt: false,
            super_key: false,
            hyper: false,
            meta: false,
        }
    }

    /// No modifier held.
    pub fn none() -> (m: KeyModifiers)
        ensures
            m == Self::none_spec(),
    {
        KeyModifiers {
            shift: false,
            control: false,
            alt: false,
            super_key: false,
            hyper: false,
            meta: false,
        }
    }

    /// Only Shift held.
    pub fn shift_only() -> (m: KeyModifiers)
        ensures
            m == (KeyModifiers { shift: true, ..Self::none_spec() }),
    {
        KeyModifiers { shift: true, ..Self::none() }
    }

    /// Only Control held.
    pub fn control_only() -> (m: KeyModifiers)
        ensures
            m == (KeyModifiers { control: true, ..Self::none_spec() }),
    {
        KeyModifiers { control: true, ..Self::none() }
    }

    pub open spec fn is_none_spec(self) -> bool {
        self == Self::none_spec()
    }

    /// No modifier is held.
    pub fn is_none(&self) -> (b: bool)
        ensures
            b == self.is_none_spec(),
    {
        !self.shift && !self.control && !self.alt && !self.super_key && !self.hyper && !self.meta
    }

    /// Shift is held and nothing else.
    pub fn is_shift_only(&self) -> (b: bool)
        ensures
            b == (*self == (KeyModifiers { shift: true, ..Self::none_spec() })),
    {
        self.shift && !self.control && !self.alt && !self.super_key && !self.hyper && !self.meta
    }
}

/// A key press.
#[derive(Debug, Clone, Copy, PartialEq, Eq, Structural)]
pub struct KeyEvent {
    pub code: KeyCode,
    pub modifiers: KeyModifiers,
}

impl KeyEvent {
    pub fn new(code: KeyCode, modifiers: KeyModifiers) -> (k: KeyEvent)
        ensures
            k.code == code,
            k.modifiers == modifiers,
    {
        KeyEvent { code, modifiers }
    }
}

} // verus!
