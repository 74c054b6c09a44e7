//! The keys that the two controllers react to.

use vstd::prelude::*;

verus! {

/// One key press, as far as the controllers tell keys apart.
#[derive(Clone, Copy, Debug, PartialEq, Eq, Structural)]
pub enum Key {
    Char(char),
    Enter,
    Backspace,
    Esc,
    Left,
    Right,
    Up,
    Down,
    /// Any key that no state reacts to.
    Other,
}

} // verus!
