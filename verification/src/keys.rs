//! Key and mouse input as plain values.
use vstd::prelude::*;

verus! {

/// The key that was pressed.
#[derive(Clone, Copy, Debug, PartialEq, Eq, Structural)]
pub enum KeyCode {
    Backspace,
    Enter,
    Left,
    Right,
    Up,
    Down,
    Home,
    End,
    PageUp,
    PageDown,
    Tab,
    BackTab,
    Delete,
    Insert,
    Esc,
    Char(char),
    /// A key that the interface gives no meaning to.
    Other,
}

/// The modifier keys that were held down.
#[derive(Clone, Copy, Debug, PartialEq, Eq, Structural)]
pub struct KeyModifiers {
    pub shift: bool,
    pub control: bool,
    pub alt: bool,
    pub super_key: bool,
    pub meta: bool,
}

impl KeyModifiers {
    /// No modifier key.
    pub fn none() -> (r: KeyModifiers)
        ensures
            r == (KeyModifiers {
                shift: false,
                control: false,
                alt: false,
                super_key: false,
                meta: false,
            }),
    {
        KeyModifiers { shift: false, control: false, alt: false, super_key: false, meta: false }
    }

    /// The control key alone.
    pub fn control() -> (r: KeyModifiers)
        ensures
            r == (KeyModifiers {
                shift: false,
                control: true,
                alt: false,
                super_key: false,
                meta: false,
            }),
    {
        KeyModifiers { shift: false, control: true, alt: false, super_key: false, meta: false }
    }

    /// The shift key alone.
    pub fn shift() -> (r: KeyModifiers)
        ensures
            r == (KeyModifiers {
                shift: true,
                control: false,
                alt: false,
                super_key: false,
                meta: false,
            }),
    {
        KeyModifiers { shift: true, control: false, alt: false, super_key: false, meta: false }
    }

    /// Whether any modifier key is held down.
    pub fn any(&self) -> (r: bool)
        ensures
            r == self.some_held(),
    {
        self.shift || self.alt || self.control || self.super_key || self.meta
    }

    /// Whether any modifier key is held down.
    pub open spec fn some_held(self) -> bool {
        self.shift || self.alt || self.control || self.super_key || self.meta
    }
}

/// One key press.
#[derive(Clone, Copy, Debug, PartialEq, Eq, Structural)]
pub struct KeyEvent {
    pub code: KeyCode,
    pub modifiers: KeyModifiers,
}

impl KeyEvent {
    /// A press of `code` with `modifiers` held down.
    pub fn new(code: KeyCode, modifiers: KeyModifiers) -> (r: KeyEvent)
        ensures
            r == (KeyEvent { code, modifiers }),
    {
        KeyEvent { code, modifiers }
    }

    /// Whether this is `c` pressed with the control key.
    pub open spec fn is_ctrl(self, c: char) -> bool {
        self.modifiers.control && self.code == KeyCode::Char(c)
    }

    /// Whether this is `c` pressed with the control key.
    pub fn ctrl(&self, c: char) -> (r: bool)
        ensures
            r == self.is_ctrl(c),
    {
        self.modifiers.control && self.code == KeyCode::Char(c)
    }
}

/// What the mouse did.
#[derive(Clone, Copy, Debug, PartialEq, Eq, Structural)]
pub enum MouseEventKind {
    ScrollUp,
    ScrollDown,
    /// The left button went down.
    LeftDown,
    /// The mouse moved with the left button held down.
    LeftDrag,
    /// The left button was released.
    LeftUp,
    /// A mouse event that the interface gives no meaning to.
    Other,
}

/// One mouse event.
#[derive(Clone, Copy, Debug, PartialEq, Eq, Structural)]
pub struct MouseEvent {
    pub kind: MouseEventKind,
    pub column: u16,
    pub row: u16,
}

} // verus!
