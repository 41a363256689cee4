//! Keys that the game reacts to.

use vstd::prelude::*;

verus! {

/// A key of the keyboard, as far as the game tells keys apart.
#[derive(Clone, Copy, Debug, PartialEq, Eq, Structural)]
pub enum Key {
    Left,
    Right,
    Up,
    Down,
    Space,
    /// Any key that neither the model nor the editor reacts to.
    Other,
}

} // verus!
