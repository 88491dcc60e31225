//! Key input, as the engine sees it.

use vstd::prelude::*;

verus! {

/// One decoded key press.
#[derive(Clone, Copy, Debug, PartialEq, Eq, Structural)]
pub enum Key {
    Up,
    Down,
    Left,
    Right,
    Home,
    End,
    PageUp,
    PageDown,
    Enter,
    Tab,
    Esc,
    Backspace,
    Delete,
    Char(char),
    Ctrl(char),
}

} // verus!
