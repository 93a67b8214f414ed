//! The typed representation of a single input action.

use vstd::prelude::*;
use crate::key::Key;
use crate::mouse_button::MouseButton;

verus! {

/// One input action together with the values that it carries.
#[derive(Copy, Clone, PartialEq, Eq, Structural, Debug)]
pub enum Command {
    /// Press a key; the flag says whether this is an automatic repeat.
    KeyDown(Key, bool),
    /// Release a key.
    KeyUp(Key),
    /// Press and release a key.
    KeyClick(Key),
    /// Move the pointer by an offset.
    MouseMoveRel(i32, i32),
    /// Move the pointer to a position.
    MouseMoveAbs(i32, i32),
    /// Place the pointer at a position without a motion event.
    MouseWarp(i32, i32),
    /// Scroll by an offset.
    MouseScroll(i32, i32),
    /// Press a mouse button, with the click count.
    MouseDown(MouseButton, u32),
    /// Release a mouse button, with the click count.
    MouseUp(MouseButton, u32),
    /// Press and release a mouse button, with the click count.
    MouseClick(MouseButton, u32),
}

} // verus!
