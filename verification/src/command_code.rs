//! The kinds of command of the high-level protocol.

use vstd::prelude::*;
use crate::enumeration::Enum;

verus! {

/// The kind of a command of the high-level protocol.
///
/// The order of the variants fixes their indices. The byte encoding of
/// commands numbers its own, smaller set of kinds separately.
#[derive(Copy, Clone, PartialEq, Eq, Structural, Debug)]
pub enum CommandCode {
    Delay,
    KeyDown,
    KeyUp,
    KeyClick,
    MouseMoveRel,
    MouseMoveAbs,
    MouseScroll,
    MouseDown,
    MouseUp,
    MouseClick,
    AsciiCharDown,
    AsciiCharUp,
    AsciiChar,
    AsciiString,
    UnicodeCharDown,
    UnicodeCharUp,
    UnicodeChar,
    UnicodeString,
}

impl Enum for CommandCode {
    open spec fn name_spec() -> Seq<char> {
        "CommandCode"@
    }

    open spec fn count_spec() -> nat {
        18
    }

    open spec fn index_spec(self) -> nat {
        match self {
            CommandCode::Delay => 0,
            CommandCode::KeyDown => 1,
            CommandCode::KeyUp => 2,
            CommandCode::KeyClick => 3,
            CommandCode::MouseMoveRel => 4,
            CommandCode::MouseMoveAbs => 5,
            CommandCode::MouseScroll => 6,
            CommandCode::MouseDown => 7,
            CommandCode::MouseUp => 8,
            CommandCode::MouseClick => 9,
            CommandCode::AsciiCharDown => 10,
            CommandCode::AsciiCharUp => 11,
            CommandCode::AsciiChar => 12,
            CommandCode::AsciiString => 13,
            CommandCode::UnicodeCharDown => 14,
            CommandCode::UnicodeCharUp => 15,
            CommandCode::UnicodeChar => 16,
            CommandCode::UnicodeString => 17,
        }
    }

    open spec fn from_index_spec(index: u8) -> Option<Self> {
        match index {
            0 => Some(CommandCode::Delay),
            1 => Some(CommandCode::KeyDown),
            2 => Some(CommandCode::KeyUp),
            3 => Some(CommandCode::KeyClick),
            4 => Some(CommandCode::MouseMoveRel),
            5 => Some(CommandCode::MouseMoveAbs),
            6 => Some(CommandCode::MouseScroll),
            7 => Some(CommandCode::MouseDown),
            8 => Some(CommandCode::MouseUp),
            9 => Some(CommandCode::MouseClick),
            10 => Some(CommandCode::AsciiCharDown),
            11 => Some(CommandCode::AsciiCharUp),
            12 => Some(CommandCode::AsciiChar),
            13 => Some(CommandCode::AsciiString),
            14 => Some(CommandCode::UnicodeCharDown),
            15 => Some(CommandCode::UnicodeCharUp),
            16 => Some(CommandCode::UnicodeChar),
            17 => Some(CommandCode::UnicodeString),
            _ => None,
        }
    }

    open spec fn display_name_spec(self) -> Seq<char> {
        match self {
            CommandCode::Delay => "Delay"@,
            CommandCode::KeyDown => "Key Down"@,
            CommandCode::KeyUp => "Key Up"@,
            CommandCode::KeyClick => "Key Click"@,
            CommandCode::MouseMoveRel => "Mouse Move Relative"@,
            CommandCode::MouseMoveAbs => "Mouse Move Absolute"@,
            CommandCode::MouseScroll => "Mouse Scroll"@,
            CommandCode::MouseDown => "Mouse Down"@,
            CommandCode::MouseUp => "Mouse Up"@,
            CommandCode::MouseClick => "Mouse Click"@,
            CommandCode::AsciiCharDown => "ASCII Character Down"@,
            CommandCode::AsciiCharUp => "ASCII Character Up"@,
            CommandCode::AsciiChar => "ASCII Character"@,
            CommandCode::AsciiString => "ASCII String"@,
            CommandCode::UnicodeCharDown => "Unicode Character Down"@,
            CommandCode::UnicodeCharUp => "Unicode Character Up"@,
            CommandCode::UnicodeChar => "Unicode Character"@,
            CommandCode::UnicodeString => "Unicode String"@,
        }
    }

    open spec fn identifier_name_spec(self) -> Seq<char> {
        match self {
            CommandCode::Delay => "Delay"@,
            CommandCode::KeyDown => "KeyDown"@,
            CommandCode::KeyUp => "KeyUp"@,
            CommandCode::KeyClick => "KeyClick"@,
            CommandCode::MouseMoveRel => "MouseMoveRel"@,
            CommandCode::MouseMoveAbs => "MouseMoveAbs"@,
            CommandCode::MouseScroll => "MouseScroll"@,
            CommandCode::MouseDown => "MouseDown"@,
            CommandCode::MouseUp => "MouseUp"@,
            CommandCode::MouseClick => "MouseClick"@,
            CommandCode::AsciiCharDown => "AsciiCharDown"@,
            CommandCode::AsciiCharUp => "AsciiCharUp"@,
            CommandCode::AsciiChar => "AsciiChar"@,
            CommandCode::AsciiString => "AsciiString"@,
            CommandCode::UnicodeCharDown => "UnicodeCharDown"@,
            CommandCode::UnicodeCharUp => "UnicodeCharUp"@,
            CommandCode::UnicodeChar => "UnicodeChar"@,
            CommandCode::UnicodeString => "UnicodeString"@,
        }
    }

    proof fn index_round_trip(index: u8) {
    }

    proof fn variant_round_trip(self) {
    }

    fn name() -> (s: &'static str) {
        "CommandCode"
    }

    fn count() -> (n: u8) {
        18
    }

    fn display_name(&self) -> (s: &'static str) {
        match self {
            CommandCode::Delay => "Delay",
            CommandCode::KeyDown => "Key Down",
            CommandCode::KeyUp => "Key Up",
            CommandCode::KeyClick => "Key Click",
            CommandCode::MouseMoveRel => "Mouse Move Relative",
            CommandCode::MouseMoveAbs => "Mouse Move Absolute",
            CommandCode::MouseScroll => "Mouse Scroll",
            CommandCode::MouseDown => "Mouse Down",
            CommandCode::MouseUp => "Mouse Up",
            CommandCode::MouseClick => "Mouse Click",
            CommandCode::AsciiCharDown => "ASCII Character Down",
            CommandCode::AsciiCharUp => "ASCII Character Up",
            CommandCode::AsciiChar => "ASCII Character",
            CommandCode::AsciiString => "ASCII String",
            CommandCode::UnicodeCharDown => "Unicode Character Down",
            CommandCode::UnicodeCharUp => "Unicode Character Up",
            CommandCode::UnicodeChar => "Unicode Character",
            CommandCode::UnicodeString => "Unicode String",
        }
    }

    fn identifier_name(&self) -> (s: &'static str) {
        match self {
            CommandCode::Delay => "Delay",
            CommandCode::KeyDown => "KeyDown",
            CommandCode::KeyUp => "KeyUp",
            CommandCode::KeyClick => "KeyClick",
            CommandCode::MouseMoveRel => "MouseMoveRel",
            CommandCode::MouseMoveAbs => "MouseMoveAbs",
            CommandCode::MouseScroll => "MouseScroll",
            CommandCode::MouseDown => "MouseDown",
            CommandCode::MouseUp => "MouseUp",
            CommandCode::MouseClick => "MouseClick",
            CommandCode::AsciiCharDown => "AsciiCharDown",
            CommandCode::AsciiCharUp => "AsciiCharUp",
            CommandCode::AsciiChar => "AsciiChar",
            CommandCode::AsciiString => "AsciiString",
            CommandCode::UnicodeCharDown => "UnicodeCharDown",
            CommandCode::UnicodeCharUp => "UnicodeCharUp",
            CommandCode::UnicodeChar => "UnicodeChar",
            CommandCode::UnicodeString => "UnicodeString",
        }
    }

    fn from_u8(byte: u8) -> (r: Option<Self>) {
        match byte {
            0 => Some(CommandCode::Delay),
            1 => Some(CommandCode::KeyDown),
            2 => Some(CommandCode::KeyUp),
            3 => Some(CommandCode::KeyClick),
            4 => Some(CommandCode::MouseMoveRel),
            5 => Some(CommandCode::MouseMoveAbs),
            6 => Some(CommandCode::MouseScroll),
            7 => Some(CommandCode::MouseDown),
            8 => Some(CommandCode::MouseUp),
            9 => Some(CommandCode::MouseClick),
            10 => Some(CommandCode::AsciiCharDown),
            11 => Some(CommandCode::AsciiCharUp),
            12 => Some(CommandCode::AsciiChar),
            13 => Some(CommandCode::AsciiString),
            14 => Some(CommandCode::UnicodeCharDown),
            15 => Some(CommandCode::UnicodeCharUp),
            16 => Some(CommandCode::UnicodeChar),
            17 => Some(CommandCode::UnicodeString),
            _ => None,
        }
    }

    fn into_u8(self) -> (byte: u8) {
        match self {
            CommandCode::Delay => 0,
            CommandCode::KeyDown => 1,
            CommandCode::KeyUp => 2,
            CommandCode::KeyClick => 3,
            CommandCode::MouseMoveRel => 4,
            CommandCode::MouseMoveAbs => 5,
            CommandCode::MouseScroll => 6,
            CommandCode::MouseDown => 7,
            CommandCode::MouseUp => 8,
            CommandCode::MouseClick => 9,
            CommandCode::AsciiCharDown => 10,
            CommandCode::AsciiCharUp => 11,
            CommandCode::AsciiChar => 12,
            CommandCode::AsciiString => 13,
            CommandCode::UnicodeCharDown => 14,
            CommandCode::UnicodeCharUp => 15,
            CommandCode::UnicodeChar => 16,
            CommandCode::UnicodeString => 17,
        }
    }
}

} // verus!
