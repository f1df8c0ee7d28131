//! Key presses, as the screens see them.

use vstd::prelude::*;

verus! {

/// A key press. `Ctrl(c)` is `c` with the control modifier held.
#[derive(Clone, Copy, Debug, PartialEq, Eq, Structural)]
pub enum Key {
    Char(char),
    Ctrl(char),
    Up,
    Down,
    Enter,
    Esc,
    Backspace,
    Tab,
    BackTab,
    Other,
}

} // verus!
