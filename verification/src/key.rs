//! A key press as the controller sees it, already decoded.

use vstd::prelude::*;

verus! {

/// No modifier key held.
pub const NONE: u8 = 0;

/// The shift key.
pub const SHIFT: u8 = 1;

/// The control key.
pub const CONTROL: u8 = 2;

/// The alt key.
pub const ALT: u8 = 4;

/// The key that was pressed. Keys that the editor has no use for are all
/// `Other`.
#[derive(Clone, Copy, Debug, PartialEq, Eq, Structural)]
pub enum KeyCode {
    Backspace,
    Enter,
    Left,
    Right,
    Up,
    Down,
    Tab,
    Delete,
    Esc,
    Char(char),
    Other,
}

/// Whether the key went down, is held, or came up.
#[derive(Clone, Copy, Debug, PartialEq, Eq, Structural)]
pub enum KeyEventKind {
    Press,
    Repeat,
    Release,
}

/// One keyboard event. `modifiers` is a set of bits, one for each modifier
/// key held: `SHIFT`, `CONTROL`, `ALT`, and higher bits for others.
#[derive(Clone, Copy, Debug, PartialEq, Eq, Structural)]
pub struct KeyEvent {
    pub code: KeyCode,
    pub modifiers: u8,
    pub kind: KeyEventKind,
}

impl KeyEvent {
    /// The key comes as it is typed: no modifier is held, or only shift
    /// with a character, which the character already shows.
    pub open spec fn is_typed(self) -> bool {
        self.modifiers == NONE || (self.modifiers == SHIFT && self.code is Char)
    }

    /// Control and `c`, with no other modifier: the request to leave.
    pub open spec fn is_quit(self) -> bool {
        self.code == KeyCode::Char('c') && self.modifiers == CONTROL
    }

    /// A press of `code` with `modifiers` held.
    pub fn new(code: KeyCode, modifiers: u8) -> (key: KeyEvent)
        ensures
            key == (KeyEvent { code, modifiers, kind: KeyEventKind::Press }),
    {
        KeyEvent { code, modifiers, kind: KeyEventKind::Press }
    }

    /// A press of `code` alone.
    pub fn plain(code: KeyCode) -> (key: KeyEvent)
        ensures
            key == (KeyEvent { code, modifiers: NONE, kind: KeyEventKind::Press }),
    {
        KeyEvent { code, modifiers: NONE, kind: KeyEventKind::Press }
    }

    /// Whether the key comes as it is typed.
    pub fn typed(&self) -> (b: bool)
        ensures
            b == self.is_typed(),
    {
        self.modifiers == NONE || (self.modifiers == SHIFT && matches!(self.code, KeyCode::Char(_)))
    }
}

} // verus!
