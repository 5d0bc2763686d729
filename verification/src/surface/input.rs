//! The basic surface input vocabulary.

use vstd::prelude::*;

verus! {

#[derive(Debug, Clone, Copy, PartialEq, Eq, Structural)]
pub enum MouseButton {
    Left,
    Right,
    Middle,
}

#[derive(Debug, Clone, Copy, PartialEq, Eq, Structural)]
pub enum Key {
    Shift,
    Control,
    Alt,
    Space,
    Delete,
    Enter,
    Escape,
}

} // verus!
