//! The keys that the controller reacts to, as plain values.
use vstd::prelude::*;

verus! {

/// Which key was pressed.
#[derive(Debug, Clone, Copy, PartialEq, Eq, Structural)]
pub enum KeyCode {
    Char(char),
    Left,
    Right,
    Up,
    Down,
    Enter,
    Backspace,
    Esc,
    Tab,
    Other,
}

impl KeyCode {
    /// Whether the key is one of the four arrow keys.
    pub open spec fn is_arrow(self) -> bool {
        self is Left || self is Right || self is Up || self is Down
    }
}

/// A key event: the key, whether Control was held, and whether it was a press
/// (as opposed to a release or a repeat).
#[derive(Debug, Clone, Copy, PartialEq, Eq, Structural)]
pub struct KeyEvent {
    pub code: KeyCode,
    pub control: bool,
    pub press: bool,
}

/// What the terminal reported: a key, or some other event (mouse, resize, focus, paste).
#[derive(Debug, Clone, Copy, PartialEq, Eq, Structural)]
pub enum TerminalEvent {
    Key(KeyEvent),
    Other,
}

} // verus!
