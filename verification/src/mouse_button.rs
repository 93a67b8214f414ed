//! The logical mouse buttons.

use vstd::prelude::*;
use crate::enumeration::Enum;

verus! {

/// A mouse button. Beside the three primary buttons, two more are named by
/// their number.
#[derive(Copy, Clone, PartialEq, Eq, Structural, Debug)]
pub enum MouseButton {
    Left,
    Middle,
    Right,
    Button4,
    Button5,
}

impl Enum for MouseButton {
    open spec fn name_spec() -> Seq<char> {
        "MouseButton"@
    }

    open spec fn count_spec() -> nat {
        5
    }

    open spec fn index_spec(self) -> nat {
        match self {
            MouseButton::Left => 0,
            MouseButton::Middle => 1,
            MouseButton::Right => 2,
            MouseButton::Button4 => 3,
            MouseButton::Button5 => 4,
        }
    }

    open spec fn from_index_spec(index: u8) -> Option<Self> {
        match index {
            0 => Some(MouseButton::Left),
            1 => Some(MouseButton::Middle),
            2 => Some(MouseButton::Right),
            3 => Some(MouseButton::Button4),
            4 => Some(MouseButton::Button5),
            _ => None,
        }
    }

    open spec fn display_name_spec(self) -> Seq<char> {
        match self {
            MouseButton::Left => "Left"@,
            MouseButton::Middle => "Middle"@,
            MouseButton::Right => "Right"@,
            MouseButton::Button4 => "Button 4"@,
            MouseButton::Button5 => "Button 5"@,
        }
    }

    open spec fn identifier_name_spec(self) -> Seq<char> {
        match self {
            MouseButton::Left => "Left"@,
            MouseButton::Middle => "Middle"@,
            MouseButton::Right => "Right"@,
            MouseButton::Button4 => "Button4"@,
            MouseButton::Button5 => "Button5"@,
        }
    }

    proof fn index_round_trip(index: u8) {
    }

    proof fn variant_round_trip(self) {
    }

    fn name() -> (s: &'static str) {
        "MouseButton"
    }

    fn count() -> (n: u8) {
        5
    }

    fn display_name(&self) -> (s: &'static str) {
        match self {
            MouseButton::Left => "Left",
            MouseButton::Middle => "Middle",
            MouseButton::Right => "Right",
            MouseButton::Button4 => "Button 4",
            MouseButton::Button5 => "Button 5",
        }
    }

    fn identifier_name(&self) -> (s: &'static str) {
        match self {
            MouseButton::Left => "Left",
            MouseButton::Middle => "Middle",
            MouseButton::Right => "Right",
            MouseButton::Button4 => "Button4",
            MouseButton::Button5 => "Button5",
        }
    }

    fn from_u8(byte: u8) -> (r: Option<Self>) {
        match byte {
            0 => Some(MouseButton::Left),
            1 => Some(MouseButton::Middle),
            2 => Some(MouseButton::Right),
            3 => Some(MouseButton::Button4),
            4 => Some(MouseButton::Button5),
            _ => None,
        }
    }

    fn into_u8(self) -> (byte: u8) {
        match self {
            MouseButton::Left => 0,
            MouseButton::Middle => 1,
            MouseButton::Right => 2,
            MouseButton::Button4 => 3,
            MouseButton::Button5 => 4,
        }
    }
}

} // verus!
