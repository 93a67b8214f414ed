//! The logical keyboard keys.

use vstd::prelude::*;
use crate::enumeration::Enum;

verus! {

/// A keyboard key, named apart from any platform's key codes.
///
/// The order of the variants fixes their indices, which are part of the
/// byte encoding of commands.
#[derive(Copy, Clone, PartialEq, Eq, Structural, Debug)]
pub enum Key {
    CapsLock,
    Shift,
    Control,
    Alt,
    Meta,
    RightShift,
    RightControl,
    RightAlt,
    RightMeta,
    Fn,
    Return,
    Escape,
    Delete,
    ForwardDelete,
    Tab,
    Space,
    Minus,
    Equal,
    LeftBracket,
    RightBracket,
    Backslash,
    Semicolon,
    Quote,
    Grave,
    Comma,
    Period,
    Slash,
    UpArrow,
    RightArrow,
    DownArrow,
    LeftArrow,
    PageUp,
    PageDown,
    Home,
    End,
    A,
    B,
    C,
    D,
    E,
    F,
    G,
    H,
    I,
    J,
    K,
    L,
    M,
    N,
    O,
    P,
    Q,
    R,
    S,
    T,
    U,
    V,
    W,
    X,
    Y,
    Z,
    N0,
    N1,
    N2,
    N3,
    N4,
    N5,
    N6,
    N7,
    N8,
    N9,
    Keypad0,
    Keypad1,
    Keypad2,
    Keypad3,
    Keypad4,
    Keypad5,
    Keypad6,
    Keypad7,
    Keypad8,
    Keypad9,
    KeypadClear,
    KeypadEquals,
    KeypadDivide,
    KeypadMultiply,
    KeypadMinus,
    KeypadPlus,
    KeypadEnter,
    KeypadDecimal,
    F1,
    F2,
    F3,
    F4,
    F5,
    F6,
    F7,
    F8,
    F9,
    F10,
    F11,
    F12,
    FastForward,
    Rewind,
    PlayPause,
    VolumeUp,
    VolumeDown,
    Mute,
}

impl Enum for Key {
    open spec fn name_spec() -> Seq<char> {
        "Key"@
    }

    open spec fn count_spec() -> nat {
        107
    }

    open spec fn index_spec(self) -> nat {
        match self {
            Key::CapsLock => 0,
            Key::Shift => 1,
            Key::Control => 2,
            Key::Alt => 3,
            Key::Meta => 4,
            Key::RightShift => 5,
            Key::RightControl => 6,
            Key::RightAlt => 7,
            Key::RightMeta => 8,
            Key::Fn => 9,
            Key::Return => 10,
            Key::Escape => 11,
            Key::Delete => 12,
            Key::ForwardDelete => 13,
            Key::Tab => 14,
            Key::Space => 15,
            Key::Minus => 16,
            Key::Equal => 17,
            Key::LeftBracket => 18,
            Key::RightBracket => 19,
            Key::Backslash => 20,
            Key::Semicolon => 21,
            Key::Quote => 22,
            Key::Grave => 23,
            Key::Comma => 24,
            Key::Period => 25,
            Key::Slash => 26,
            Key::UpArrow => 27,
            Key::RightArrow => 28,
            Key::DownArrow => 29,
            Key::LeftArrow => 30,
            Key::PageUp => 31,
            Key::PageDown => 32,
            Key::Home => 33,
            Key::End => 34,
            Key::A => 35,
            Key::B => 36,
            Key::C => 37,
            Key::D => 38,
            Key::E => 39,
            Key::F => 40,
            Key::G => 41,
            Key::H => 42,
            Key::I => 43,
            Key::J => 44,
            Key::K => 45,
            Key::L => 46,
            Key::M => 47,
            Key::N => 48,
            Key::O => 49,
            Key::P => 50,
            Key::Q => 51,
            Key::R => 52,
            Key::S => 53,
            Key::T => 54,
            Key::U => 55,
            Key::V => 56,
            Key::W => 57,
            Key::X => 58,
            Key::Y => 59,
            Key::Z => 60,
            Key::N0 => 61,
            Key::N1 => 62,
            Key::N2 => 63,
            Key::N3 => 64,
            Key::N4 => 65,
            Key::N5 => 66,
            Key::N6 => 67,
            Key::N7 => 68,
            Key::N8 => 69,
            Key::N9 => 70,
            Key::Keypad0 => 71,
            Key::Keypad1 => 72,
            Key::Keypad2 => 73,
            Key::Keypad3 => 74,
            Key::Keypad4 => 75,
            Key::Keypad5 => 76,
            Key::Keypad6 => 77,
            Key::Keypad7 => 78,
            Key::Keypad8 => 79,
            Key::Keypad9 => 80,
            Key::KeypadClear => 81,
            Key::KeypadEquals => 82,
            Key::KeypadDivide => 83,
            Key::KeypadMultiply => 84,
            Key::KeypadMinus => 85,
            Key::KeypadPlus => 86,
            Key::KeypadEnter => 87,
            Key::KeypadDecimal => 88,
            Key::F1 => 89,
            Key::F2 => 90,
            Key::F3 => 91,
            Key::F4 => 92,
            Key::F5 => 93,
            Key::F6 => 94,
            Key::F7 => 95,
            Key::F8 => 96,
            Key::F9 => 97,
            Key::F10 => 98,
            Key::F11 => 99,
            Key::F12 => 100,
            Key::FastForward => 101,
            Key::Rewind => 102,
            Key::PlayPause => 103,
            Key::VolumeUp => 104,
            Key::VolumeDown => 105,
            Key::Mute => 106,
        }
    }

    open spec fn from_index_spec(index: u8) -> Option<Self> {
        match index {
            0 => Some(Key::CapsLock),
            1 => Some(Key::Shift),
            2 => Some(Key::Control),
            3 => Some(Key::Alt),
            4 => Some(Key::Meta),
            5 => Some(Key::RightShift),
            6 => Some(Key::RightControl),
            7 => Some(Key::RightAlt),
            8 => Some(Key::RightMeta),
            9 => Some(Key::Fn),
            10 => Some(Key::Return),
            11 => Some(Key::Escape),
            12 => Some(Key::Delete),
            13 => Some(Key::ForwardDelete),
            14 => Some(Key::Tab),
            15 => Some(Key::Space),
            16 => Some(Key::Minus),
            17 => Some(Key::Equal),
            18 => Some(Key::LeftBracket),
            19 => Some(Key::RightBracket),
            20 => Some(Key::Backslash),
            21 => Some(Key::Semicolon),
            22 => Some(Key::Quote),
            23 => Some(Key::Grave),
            24 => Some(Key::Comma),
            25 => Some(Key::Period),
            26 => Some(Key::Slash),
            27 => Some(Key::UpArrow),
            28 => Some(Key::RightArrow),
            29 => Some(Key::DownArrow),
            30 => Some(Key::LeftArrow),
            31 => Some(Key::PageUp),
            32 => Some(Key::PageDown),
            33 => Some(Key::Home),
            34 => Some(Key::End),
            35 => Some(Key::A),
            36 => Some(Key::B),
            37 => Some(Key::C),
            38 => Some(Key::D),
            39 => Some(Key::E),
            40 => Some(Key::F),
            41 => Some(Key::G),
            42 => Some(Key::H),
            43 => Some(Key::I),
            44 => Some(Key::J),
            45 => Some(Key::K),
            46 => Some(Key::L),
            47 => Some(Key::M),
            48 => Some(Key::N),
            49 => Some(Key::O),
            50 => Some(Key::P),
            51 => Some(Key::Q),
            52 => Some(Key::R),
            53 => Some(Key::S),
            54 => Some(Key::T),
            55 => Some(Key::U),
            56 => Some(Key::V),
            57 => Some(Key::W),
            58 => Some(Key::X),
            59 => Some(Key::Y),
            60 => Some(Key::Z),
            61 => Some(Key::N0),
            62 => Some(Key::N1),
            63 => Some(Key::N2),
            64 => Some(Key::N3),
            65 => Some(Key::N4),
            66 => Some(Key::N5),
            67 => Some(Key::N6),
            68 => Some(Key::N7),
            69 => Some(Key::N8),
            70 => Some(Key::N9),
            71 => Some(Key::Keypad0),
            72 => Some(Key::Keypad1),
            73 => Some(Key::Keypad2),
            74 => Some(Key::Keypad3),
            75 => Some(Key::Keypad4),
            76 => Some(Key::Keypad5),
            77 => Some(Key::Keypad6),
            78 => Some(Key::Keypad7),
            79 => Some(Key::Keypad8),
            80 => Some(Key::Keypad9),
            81 => Some(Key::KeypadClear),
            82 => Some(Key::KeypadEquals),
            83 => Some(Key::KeypadDivide),
            84 => Some(Key::KeypadMultiply),
            85 => Some(Key::KeypadMinus),
            86 => Some(Key::KeypadPlus),
            87 => Some(Key::KeypadEnter),
            88 => Some(Key::KeypadDecimal),
            89 => Some(Key::F1),
            90 => Some(Key::F2),
            91 => Some(Key::F3),
            92 => Some(Key::F4),
            93 => Some(Key::F5),
            94 => Some(Key::F6),
            95 => Some(Key::F7),
            96 => Some(Key::F8),
            97 => Some(Key::F9),
            98 => Some(Key::F10),
            99 => Some(Key::F11),
            100 => Some(Key::F12),
            101 => Some(Key::FastForward),
            102 => Some(Key::Rewind),
            103 => Some(Key::PlayPause),
            104 => Some(Key::VolumeUp),
            105 => Some(Key::VolumeDown),
            106 => Some(Key::Mute),
            _ => None,
        }
    }

    open spec fn display_name_spec(self) -> Seq<char> {
        match self {
            Key::CapsLock => "Caps Lock"@,
            Key::Shift => "Shift"@,
            Key::Control => "Control"@,
            Key::Alt => "Alt"@,
            Key::Meta => "Meta"@,
            Key::RightShift => "Right Shift"@,
            Key::RightControl => "Right Control"@,
            Key::RightAlt => "Right Alt"@,
            Key::RightMeta => "Right Meta"@,
            Key::Fn => "Fn"@,
            Key::Return => "Return"@,
            Key::Escape => "Escape"@,
            Key::Delete => "Delete"@,
            Key::ForwardDelete => "Forward Delete"@,
            Key::Tab => "Tab"@,
            Key::Space => "Space"@,
            Key::Minus => "Minus"@,
            Key::Equal => "Equal"@,
            Key::LeftBracket => "Left Bracket"@,
            Key::RightBracket => "Right Bracket"@,
            Key::Backslash => "Backslash"@,
            Key::Semicolon => "Semicolon"@,
            Key::Quote => "Quote"@,
            Key::Grave => "Grave"@,
            Key::Comma => "Comma"@,
            Key::Period => "Period"@,
            Key::Slash => "Slash"@,
            Key::UpArrow => "Up Arrow"@,
            Key::RightArrow => "Right Arrow"@,
            Key::DownArrow => "Down Arrow"@,
            Key::LeftArrow => "Left Arrow"@,
            Key::PageUp => "Page Up"@,
            Key::PageDown => "Page Down"@,
            Key::Home => "Home"@,
            Key::End => "End"@,
            Key::A => "A"@,
            Key::B => "B"@,
            Key::C => "C"@,
            Key::D => "D"@,
            Key::E => "E"@,
            Key::F => "F"@,
            Key::G => "G"@,
            Key::H => "H"@,
            Key::I => "I"@,
            Key::J => "J"@,
            Key::K => "K"@,
            Key::L => "L"@,
            Key::M => "M"@,
            Key::N => "N"@,
            Key::O => "O"@,
            Key::P => "P"@,
            Key::Q => "Q"@,
            Key::R => "R"@,
            Key::S => "S"@,
            Key::T => "T"@,
            Key::U => "U"@,
            Key::V => "V"@,
            Key::W => "W"@,
            Key::X => "X"@,
            Key::Y => "Y"@,
            Key::Z => "Z"@,
            Key::N0 => "0"@,
            Key::N1 => "1"@,
            Key::N2 => "2"@,
            Key::N3 => "3"@,
            Key::N4 => "4"@,
            Key::N5 => "5"@,
            Key::N6 => "6"@,
            Key::N7 => "7"@,
            Key::N8 => "8"@,
            Key::N9 => "9"@,
            Key::Keypad0 => "Keypad 0"@,
            Key::Keypad1 => "Keypad 1"@,
            Key::Keypad2 => "Keypad 2"@,
            Key::Keypad3 => "Keypad 3"@,
            Key::Keypad4 => "Keypad 4"@,
            Key::Keypad5 => "Keypad 5"@,
            Key::Keypad6 => "Keypad 6"@,
            Key::Keypad7 => "Keypad 7"@,
            Key::Keypad8 => "Keypad 8"@,
            Key::Keypad9 => "Keypad 9"@,
            Key::KeypadClear => "Keypad Clear"@,
            Key::KeypadEquals => "Keypad Equals"@,
            Key::KeypadDivide => "Keypad Divide"@,
            Key::KeypadMultiply => "Keypad Multiply"@,
            Key::KeypadMinus => "Keypad Minus"@,
            Key::KeypadPlus => "Keypad Plus"@,
            Key::KeypadEnter => "Keypad Enter"@,
            Key::KeypadDecimal => "Keypad Decimal"@,
            Key::F1 => "F1"@,
            Key::F2 => "F2"@,
            Key::F3 => "F3"@,
            Key::F4 => "F4"@,
            Key::F5 => "F5"@,
            Key::F6 => "F6"@,
            Key::F7 => "F7"@,
            Key::F8 => "F8"@,
            Key::F9 => "F9"@,
            Key::F10 => "F10"@,
            Key::F11 => "F11"@,
            Key::F12 => "F12"@,
            Key::FastForward => "Fast-Forward"@,
            Key::Rewind => "Rewind"@,
            Key::PlayPause => "Play/Pause"@,
            Key::VolumeUp => "Volume Up"@,
            Key::VolumeDown => "Volume Down"@,
            Key::Mute => "Mute"@,
        }
    }

    open spec fn identifier_name_spec(self) -> Seq<char> {
        match self {
            Key::CapsLock => "CapsLock"@,
            Key::Shift => "Shift"@,
            Key::Control => "Control"@,
            Key::Alt => "Alt"@,
            Key::Meta => "Meta"@,
            Key::RightShift => "RightShift"@,
            Key::RightControl => "RightControl"@,
            Key::RightAlt => "RightAlt"@,
            Key::RightMeta => "RightMeta"@,
            Key::Fn => "Fn"@,
            Key::Return => "Return"@,
            Key::Escape => "Escape"@,
            Key::Delete => "Delete"@,
            Key::ForwardDelete => "ForwardDelete"@,
            Key::Tab => "Tab"@,
            Key::Space => "Space"@,
            Key::Minus => "Minus"@,
            Key::Equal => "Equal"@,
            Key::LeftBracket => "LeftBracket"@,
            Key::RightBracket => "RightBracket"@,
            Key::Backslash => "Backslash"@,
            Key::Semicolon => "Semicolon"@,
            Key::Quote => "Quote"@,
            Key::Grave => "Grave"@,
            Key::Comma => "Comma"@,
            Key::Period => "Period"@,
            Key::Slash => "Slash"@,
            Key::UpArrow => "UpArrow"@,
            Key::RightArrow => "RightArrow"@,
            Key::DownArrow => "DownArrow"@,
            Key::LeftArrow => "LeftArrow"@,
            Key::PageUp => "PageUp"@,
            Key::PageDown => "PageDown"@,
            Key::Home => "Home"@,
            Key::End => "End"@,
            Key::A => "A"@,
            Key::B => "B"@,
            Key::C => "C"@,
            Key::D => "D"@,
            Key::E => "E"@,
            Key::F => "F"@,
            Key::G => "G"@,
            Key::H => "H"@,
            Key::I => "I"@,
            Key::J => "J"@,
            Key::K => "K"@,
            Key::L => "L"@,
            Key::M => "M"@,
            Key::N => "N"@,
            Key::O => "O"@,
            Key::P => "P"@,
            Key::Q => "Q"@,
            Key::R => "R"@,
            Key::S => "S"@,
            Key::T => "T"@,
            Key::U => "U"@,
            Key::V => "V"@,
            Key::W => "W"@,
            Key::X => "X"@,
            Key::Y => "Y"@,
            Key::Z => "Z"@,
            Key::N0 => "N0"@,
            Key::N1 => "N1"@,
            Key::N2 => "N2"@,
            Key::N3 => "N3"@,
            Key::N4 => "N4"@,
            Key::N5 => "N5"@,
            Key::N6 => "N6"@,
            Key::N7 => "N7"@,
            Key::N8 => "N8"@,
            Key::N9 => "N9"@,
            Key::Keypad0 => "Keypad0"@,
            Key::Keypad1 => "Keypad1"@,
            Key::Keypad2 => "Keypad2"@,
            Key::Keypad3 => "Keypad3"@,
            Key::Keypad4 => "Keypad4"@,
            Key::Keypad5 => "Keypad5"@,
            Key::Keypad6 => "Keypad6"@,
            Key::Keypad7 => "Keypad7"@,
            Key::Keypad8 => "Keypad8"@,
            Key::Keypad9 => "Keypad9"@,
            Key::KeypadClear => "KeypadClear"@,
            Key::KeypadEquals => "KeypadEquals"@,
            Key::KeypadDivide => "KeypadDivide"@,
            Key::KeypadMultiply => "KeypadMultiply"@,
            Key::KeypadMinus => "KeypadMinus"@,
            Key::KeypadPlus => "KeypadPlus"@,
            Key::KeypadEnter => "KeypadEnter"@,
            Key::KeypadDecimal => "KeypadDecimal"@,
            Key::F1 => "F1"@,
            Key::F2 => "F2"@,
            Key::F3 => "F3"@,
            Key::F4 => "F4"@,
            Key::F5 => "F5"@,
            Key::F6 => "F6"@,
            Key::F7 => "F7"@,
            Key::F8 => "F8"@,
            Key::F9 => "F9"@,
            Key::F10 => "F10"@,
            Key::F11 => "F11"@,
            Key::F12 => "F12"@,
            Key::FastForward => "FastForward"@,
            Key::Rewind => "Rewind"@,
            Key::PlayPause => "PlayPause"@,
            Key::VolumeUp => "VolumeUp"@,
            Key::VolumeDown => "VolumeDown"@,
            Key::Mute => "Mute"@,
        }
    }

    proof fn index_round_trip(index: u8) {
    }

    proof fn variant_round_trip(self) {
    }

    fn name() -> (s: &'static str) {
        "Key"
    }

    fn count() -> (n: u8) {
        107
    }

    fn display_name(&self) -> (s: &'static str) {
        match self {
            Key::CapsLock => "Caps Lock",
            Key::Shift => "Shift",
            Key::Control => "Control",
            Key::Alt => "Alt",
            Key::Meta => "Meta",
            Key::RightShift => "Right Shift",
            Key::RightControl => "Right Control",
            Key::RightAlt => "Right Alt",
            Key::RightMeta => "Right Meta",
            Key::Fn => "Fn",
            Key::Return => "Return",
            Key::Escape => "Escape",
            Key::Delete => "Delete",
            Key::ForwardDelete => "Forward Delete",
            Key::Tab => "Tab",
            Key::Space => "Space",
            Key::Minus => "Minus",
            Key::Equal => "Equal",
            Key::LeftBracket => "Left Bracket",
            Key::RightBracket => "Right Bracket",
            Key::Backslash => "Backslash",
            Key::Semicolon => "Semicolon",
            Key::Quote => "Quote",
            Key::Grave => "Grave",
            Key::Comma => "Comma",
            Key::Period => "Period",
            Key::Slash => "Slash",
            Key::UpArrow => "Up Arrow",
            Key::RightArrow => "Right Arrow",
            Key::DownArrow => "Down Arrow",
            Key::LeftArrow => "Left Arrow",
            Key::PageUp => "Page Up",
            Key::PageDown => "Page Down",
            Key::Home => "Home",
            Key::End => "End",
            Key::A => "A",
            Key::B => "B",
            Key::C => "C",
            Key::D => "D",
            Key::E => "E",
            Key::F => "F",
            Key::G => "G",
            Key::H => "H",
            Key::I => "I",
            Key::J => "J",
            Key::K => "K",
            Key::L => "L",
            Key::M => "M",
            Key::N => "N",
            Key::O => "O",
            Key::P => "P",
            Key::Q => "Q",
            Key::R => "R",
            Key::S => "S",
            Key::T => "T",
            Key::U => "U",
            Key::V => "V",
            Key::W => "W",
            Key::X => "X",
            Key::Y => "Y",
            Key::Z => "Z",
            Key::N0 => "0",
            Key::N1 => "1",
            Key::N2 => "2",
            Key::N3 => "3",
            Key::N4 => "4",
            Key::N5 => "5",
            Key::N6 => "6",
            Key::N7 => "7",
            Key::N8 => "8",
            Key::N9 => "9",
            Key::Keypad0 => "Keypad 0",
            Key::Keypad1 => "Keypad 1",
            Key::Keypad2 => "Keypad 2",
            Key::Keypad3 => "Keypad 3",
            Key::Keypad4 => "Keypad 4",
            Key::Keypad5 => "Keypad 5",
            Key::Keypad6 => "Keypad 6",
            Key::Keypad7 => "Keypad 7",
            Key::Keypad8 => "Keypad 8",
            Key::Keypad9 => "Keypad 9",
            Key::KeypadClear => "Keypad Clear",
            Key::KeypadEquals => "Keypad Equals",
            Key::KeypadDivide => "Keypad Divide",
            Key::KeypadMultiply => "Keypad Multiply",
            Key::KeypadMinus => "Keypad Minus",
            Key::KeypadPlus => "Keypad Plus",
            Key::KeypadEnter => "Keypad Enter",
            Key::KeypadDecimal => "Keypad Decimal",
            Key::F1 => "F1",
            Key::F2 => "F2",
            Key::F3 => "F3",
            Key::F4 => "F4",
            Key::F5 => "F5",
            Key::F6 => "F6",
            Key::F7 => "F7",
            Key::F8 => "F8",
            Key::F9 => "F9",
            Key::F10 => "F10",
            Key::F11 => "F11",
            Key::F12 => "F12",
            Key::FastForward => "Fast-Forward",
            Key::Rewind => "Rewind",
            Key::PlayPause => "Play/Pause",
            Key::VolumeUp => "Volume Up",
            Key::VolumeDown => "Volume Down",
            Key::Mute => "Mute",
        }
    }

    fn identifier_name(&self) -> (s: &'static str) {
        match self {
            Key::CapsLock => "CapsLock",
            Key::Shift => "Shift",
            Key::Control => "Control",
            Key::Alt => "Alt",
            Key::Meta => "Meta",
            Key::RightShift => "RightShift",
            Key::RightControl => "RightControl",
            Key::RightAlt => "RightAlt",
            Key::RightMeta => "RightMeta",
            Key::Fn => "Fn",
            Key::Return => "Return",
            Key::Escape => "Escape",
            Key::Delete => "Delete",
            Key::ForwardDelete => "ForwardDelete",
            Key::Tab => "Tab",
            Key::Space => "Space",
            Key::Minus => "Minus",
            Key::Equal => "Equal",
            Key::LeftBracket => "LeftBracket",
            Key::RightBracket => "RightBracket",
            Key::Backslash => "Backslash",
            Key::Semicolon => "Semicolon",
            Key::Quote => "Quote",
            Key::Grave => "Grave",
            Key::Comma => "Comma",
            Key::Period => "Period",
            Key::Slash => "Slash",
            Key::UpArrow => "UpArrow",
            Key::RightArrow => "RightArrow",
            Key::DownArrow => "DownArrow",
            Key::LeftArrow => "LeftArrow",
            Key::PageUp => "PageUp",
            Key::PageDown => "PageDown",
            Key::Home => "Home",
            Key::End => "End",
            Key::A => "A",
            Key::B => "B",
            Key::C => "C",
            Key::D => "D",
            Key::E => "E",
            Key::F => "F",
            Key::G => "G",
            Key::H => "H",
            Key::I => "I",
            Key::J => "J",
            Key::K => "K",
            Key::L => "L",
            Key::M => "M",
            Key::N => "N",
            Key::O => "O",
            Key::P => "P",
            Key::Q => "Q",
            Key::R => "R",
            Key::S => "S",
            Key::T => "T",
            Key::U => "U",
            Key::V => "V",
            Key::W => "W",
            Key::X => "X",
            Key::Y => "Y",
            Key::Z => "Z",
            Key::N0 => "N0",
            Key::N1 => "N1",
            Key::N2 => "N2",
            Key::N3 => "N3",
            Key::N4 => "N4",
            Key::N5 => "N5",
            Key::N6 => "N6",
            Key::N7 => "N7",
            Key::N8 => "N8",
            Key::N9 => "N9",
            Key::Keypad0 => "Keypad0",
            Key::Keypad1 => "Keypad1",
            Key::Keypad2 => "Keypad2",
            Key::Keypad3 => "Keypad3",
            Key::Keypad4 => "Keypad4",
            Key::Keypad5 => "Keypad5",
            Key::Keypad6 => "Keypad6",
            Key::Keypad7 => "Keypad7",
            Key::Keypad8 => "Keypad8",
            Key::Keypad9 => "Keypad9",
            Key::KeypadClear => "KeypadClear",
            Key::KeypadEquals => "KeypadEquals",
            Key::KeypadDivide => "KeypadDivide",
            Key::KeypadMultiply => "KeypadMultiply",
            Key::KeypadMinus => "KeypadMinus",
            Key::KeypadPlus => "KeypadPlus",
            Key::KeypadEnter => "KeypadEnter",
            Key::KeypadDecimal => "KeypadDecimal",
            Key::F1 => "F1",
            Key::F2 => "F2",
            Key::F3 => "F3",
            Key::F4 => "F4",
            Key::F5 => "F5",
            Key::F6 => "F6",
            Key::F7 => "F7",
            Key::F8 => "F8",
            Key::F9 => "F9",
            Key::F10 => "F10",
            Key::F11 => "F11",
            Key::F12 => "F12",
            Key::FastForward => "FastForward",
            Key::Rewind => "Rewind",
            Key::PlayPause => "PlayPause",
            Key::VolumeUp => "VolumeUp",
            Key::VolumeDown => "VolumeDown",
            Key::Mute => "Mute",
        }
    }

    fn from_u8(byte: u8) -> (r: Option<Self>) {
        match byte {
            0 => Some(Key::CapsLock),
            1 => Some(Key::Shift),
            2 => Some(Key::Control),
            3 => Some(Key::Alt),
            4 => Some(Key::Meta),
            5 => Some(Key::RightShift),
            6 => Some(Key::RightControl),
            7 => Some(Key::RightAlt),
            8 => Some(Key::RightMeta),
            9 => Some(Key::Fn),
            10 => Some(Key::Return),
            11 => Some(Key::Escape),
            12 => Some(Key::Delete),
            13 => Some(Key::ForwardDelete),
            14 => Some(Key::Tab),
            15 => Some(Key::Space),
            16 => Some(Key::Minus),
            17 => Some(Key::Equal),
            18 => Some(Key::LeftBracket),
            19 => Some(Key::RightBracket),
            20 => Some(Key::Backslash),
            21 => Some(Key::Semicolon),
            22 => Some(Key::Quote),
            23 => Some(Key::Grave),
            24 => Some(Key::Comma),
            25 => Some(Key::Period),
            26 => Some(Key::Slash),
            27 => Some(Key::UpArrow),
            28 => Some(Key::RightArrow),
            29 => Some(Key::DownArrow),
            30 => Some(Key::LeftArrow),
            31 => Some(Key::PageUp),
            32 => Some(Key::PageDown),
            33 => Some(Key::Home),
            34 => Some(Key::End),
            35 => Some(Key::A),
            36 => Some(Key::B),
            37 => Some(Key::C),
            38 => Some(Key::D),
            39 => Some(Key::E),
            40 => Some(Key::F),
            41 => Some(Key::G),
            42 => Some(Key::H),
            43 => Some(Key::I),
            44 => Some(Key::J),
            45 => Some(Key::K),
            46 => Some(Key::L),
            47 => Some(Key::M),
            48 => Some(Key::N),
            49 => Some(Key::O),
            50 => Some(Key::P),
            51 => Some(Key::Q),
            52 => Some(Key::R),
            53 => Some(Key::S),
            54 => Some(Key::T),
            55 => Some(Key::U),
            56 => Some(Key::V),
            57 => Some(Key::W),
            58 => Some(Key::X),
            59 => Some(Key::Y),
            60 => Some(Key::Z),
            61 => Some(Key::N0),
            62 => Some(Key::N1),
            63 => Some(Key::N2),
            64 => Some(Key::N3),
            65 => Some(Key::N4),
            66 => Some(Key::N5),
            67 => Some(Key::N6),
            68 => Some(Key::N7),
            69 => Some(Key::N8),
            70 => Some(Key::N9),
            71 => Some(Key::Keypad0),
            72 => Some(Key::Keypad1),
            73 => Some(Key::Keypad2),
            74 => Some(Key::Keypad3),
            75 => Some(Key::Keypad4),
            76 => Some(Key::Keypad5),
            77 => Some(Key::Keypad6),
            78 => Some(Key::Keypad7),
            79 => Some(Key::Keypad8),
            80 => Some(Key::Keypad9),
            81 => Some(Key::KeypadClear),
            82 => Some(Key::KeypadEquals),
            83 => Some(Key::KeypadDivide),
            84 => Some(Key::KeypadMultiply),
            85 => Some(Key::KeypadMinus),
            86 => Some(Key::KeypadPlus),
            87 => Some(Key::KeypadEnter),
            88 => Some(Key::KeypadDecimal),
            89 => Some(Key::F1),
            90 => Some(Key::F2),
            91 => Some(Key::F3),
            92 => Some(Key::F4),
            93 => Some(Key::F5),
            94 => Some(Key::F6),
            95 => Some(Key::F7),
            96 => Some(Key::F8),
            97 => Some(Key::F9),
            98 => Some(Key::F10),
            99 => Some(Key::F11),
            100 => Some(Key::F12),
            101 => Some(Key::FastForward),
            102 => Some(Key::Rewind),
            103 => Some(Key::PlayPause),
            104 => Some(Key::VolumeUp),
            105 => Some(Key::VolumeDown),
            106 => Some(Key::Mute),
            _ => None,
        }
    }

    fn into_u8(self) -> (byte: u8) {
        match self {
            Key::CapsLock => 0,
            Key::Shift => 1,
            Key::Control => 2,
            Key::Alt => 3,
            Key::Meta => 4,
            Key::RightShift => 5,
            Key::RightControl => 6,
            Key::RightAlt => 7,
            Key::RightMeta => 8,
            Key::Fn => 9,
            Key::Return => 10,
            Key::Escape => 11,
            Key::Delete => 12,
            Key::ForwardDelete => 13,
            Key::Tab => 14,
            Key::Space => 15,
            Key::Minus => 16,
            Key::Equal => 17,
            Key::LeftBracket => 18,
            Key::RightBracket => 19,
            Key::Backslash => 20,
            Key::Semicolon => 21,
            Key::Quote => 22,
            Key::Grave => 23,
            Key::Comma => 24,
            Key::Period => 25,
            Key::Slash => 26,
            Key::UpArrow => 27,
            Key::RightArrow => 28,
            Key::DownArrow => 29,
            Key::LeftArrow => 30,
            Key::PageUp => 31,
            Key::PageDown => 32,
            Key::Home => 33,
            Key::End => 34,
            Key::A => 35,
            Key::B => 36,
            Key::C => 37,
            Key::D => 38,
            Key::E => 39,
            Key::F => 40,
            Key::G => 41,
            Key::H => 42,
            Key::I => 43,
            Key::J => 44,
            Key::K => 45,
            Key::L => 46,
            Key::M => 47,
            Key::N => 48,
            Key::O => 49,
            Key::P => 50,
            Key::Q => 51,
            Key::R => 52,
            Key::S => 53,
            Key::T => 54,
            Key::U => 55,
            Key::V => 56,
            Key::W => 57,
            Key::X => 58,
            Key::Y => 59,
            Key::Z => 60,
            Key::N0 => 61,
            Key::N1 => 62,
            Key::N2 => 63,
            Key::N3 => 64,
            Key::N4 => 65,
            Key::N5 => 66,
            Key::N6 => 67,
            Key::N7 => 68,
            Key::N8 => 69,
            Key::N9 => 70,
            Key::Keypad0 => 71,
            Key::Keypad1 => 72,
            Key::Keypad2 => 73,
            Key::Keypad3 => 74,
            Key::Keypad4 => 75,
            Key::Keypad5 => 76,
            Key::Keypad6 => 77,
            Key::Keypad7 => 78,
            Key::Keypad8 => 79,
            Key::Keypad9 => 80,
            Key::KeypadClear => 81,
            Key::KeypadEquals => 82,
            Key::KeypadDivide => 83,
            Key::KeypadMultiply => 84,
            Key::KeypadMinus => 85,
            Key::KeypadPlus => 86,
            Key::KeypadEnter => 87,
            Key::KeypadDecimal => 88,
            Key::F1 => 89,
            Key::F2 => 90,
            Key::F3 => 91,
            Key::F4 => 92,
            Key::F5 => 93,
            Key::F6 => 94,
            Key::F7 => 95,
            Key::F8 => 96,
            Key::F9 => 97,
            Key::F10 => 98,
            Key::F11 => 99,
            Key::F12 => 100,
            Key::FastForward => 101,
            Key::Rewind => 102,
            Key::PlayPause => 103,
            Key::VolumeUp => 104,
            Key::VolumeDown => 105,
            Key::Mute => 106,
        }
    }
}

} // verus!
