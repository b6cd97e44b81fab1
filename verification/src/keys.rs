//! The keys that the modes react to.
use vstd::prelude::*;

verus! {

/// A key press, as far as the modes tell keys apart.
#[derive(Debug, Clone, Copy, PartialEq, Eq, Structural)]
pub enum Key {
    Backspace,
    Enter,
    Left,
    Right,
    Up,
    Down,
    Tab,
    Delete,
    Esc,
    Char(char),
    Other,
}

} // verus!
