//! Plain key events the session state machines decide on.  The terminal
//! layer turns its own event type into these before calling in.

use vstd::prelude::*;

verus! {

#[derive(Clone, Copy, PartialEq, Eq, Structural)]
pub enum UiKey {
    Char(char),
    Left,
    Right,
    Up,
    Down,
    Tab,
    Enter,
    Esc,
    Other,
}

} // verus!
