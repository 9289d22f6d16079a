//! Key presses, as far as the views tell them apart.

use vstd::prelude::*;

verus! {

/// One key press.
#[derive(Clone, Copy, Debug, PartialEq, Eq, Structural)]
pub enum Key {
    /// The confirm key.
    Enter,
    /// Arrow up.
    Up,
    /// Arrow down.
    Down,
    /// A function key, by its number.
    F(u8),
    /// A character key.
    Char(char),
    /// Any other key.
    Other,
}

} // verus!
