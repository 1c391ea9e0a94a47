//! Keys and mouse events, as far as the views read them.

use vstd::prelude::*;

verus! {

/// The key of a key event.
#[derive(Clone, Copy, PartialEq, Eq, Debug, Structural)]
pub enum KeyCode {
    Up,
    Down,
    Left,
    Right,
    PageUp,
    PageDown,
    Home,
    End,
    Enter,
    Esc,
    Backspace,
    Char(char),
    Other,
}

/// A key event.
#[derive(Clone, Copy, PartialEq, Eq, Debug, Structural)]
pub struct KeyEvent {
    pub code: KeyCode,
    /// The key went down; a repeat or a release does nothing.
    pub pressed: bool,
    pub control: bool,
    pub alt: bool,
}

/// What the mouse did.
#[derive(Clone, Copy, PartialEq, Eq, Debug, Structural)]
pub enum MouseKind {
    Moved,
    ScrollUp,
    ScrollDown,
    LeftDown,
    RightDown,
    Other,
}

/// A mouse event at a cell of the pane.
#[derive(Clone, Copy, PartialEq, Eq, Debug, Structural)]
pub struct MouseEvent {
    pub kind: MouseKind,
    pub column: u16,
    pub row: u16,
}

impl KeyEvent {
    /// A pressed control key without alt: alt with control is how some keyboards spell other
    /// characters.
    pub open spec fn is_control(self, c: char) -> bool {
        self.code == KeyCode::Char(c) && self.control && !self.alt
    }
}

} // verus!
