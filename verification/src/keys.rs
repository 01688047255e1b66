//! The key events the core reacts to.
//!
//! The embedding application maps whatever its terminal backend
//! delivers onto this alphabet before handing it to the focus router.
//! Keys the core does not care about arrive as `Other`.

use vstd::prelude::*;

verus! {

/// One key press, as seen by the focus router and the window dispatcher.
#[derive(Clone, Copy, PartialEq, Eq, Structural, Debug)]
pub enum Key {
    Char(char),
    Up,
    Down,
    Left,
    Right,
    Home,
    End,
    Tab,
    Enter,
    Esc,
    Backspace,
    Delete,
    Other,
}

/// The two spellings of "move up": the arrow and the vi key.
pub open spec fn is_up_key(key: Key) -> bool {
    key is Up || key == Key::Char('k')
}

/// The two spellings of "move down": the arrow and the vi key.
pub open spec fn is_down_key(key: Key) -> bool {
    key is Down || key == Key::Char('j')
}

} // verus!
