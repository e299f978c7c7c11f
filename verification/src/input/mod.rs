//! The key events the input router consumes, as plain values.

pub mod entities;

use vstd::prelude::*;

verus! {

/// The keys the client reacts to.
pub enum KeyCode {
    Char(char),
    Enter,
    Backspace,
    Left,
    Right,
    Up,
    Down,
    Tab,
    Esc,
    Other,
}

/// One key press: the key and whether Control was held.
pub struct KeyEvent {
    pub code: KeyCode,
    pub ctrl: bool,
}

} // verus!
