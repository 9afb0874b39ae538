//! The input events that the state machine reacts to.

use vstd::prelude::*;

verus! {

/// A key press, reduced to what the screens tell apart.
#[derive(Clone, Copy, Debug, PartialEq, Eq)]
pub enum Key {
    Esc,
    Enter,
    Up,
    Down,
    Left,
    Right,
    Backspace,
    Char(char),
    /// Any key that no screen reacts to.
    Other,
}

/// An event of the terminal. Only key presses change anything.
#[derive(Clone, Copy, Debug, PartialEq, Eq)]
pub enum Event {
    Key(Key),
    /// Mouse, resize, focus and paste events.
    Other,
}

} // verus!
