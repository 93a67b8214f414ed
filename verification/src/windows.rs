//! Keyboard input on Windows: the virtual key code of each key, and the
//! input records for key presses and for typing characters as UTF-16.

use vstd::prelude::*;
use crate::error::GenericError;
use crate::key::Key;

verus! {

/// The type of a keyboard input record.
pub const INPUT_KEYBOARD: u32 = 1;

/// The flag of a key release.
pub const KEYEVENTF_KEYUP: u32 = 0x0002;

/// The flag of a record that carries a UTF-16 unit in place of a key code.
pub const KEYEVENTF_UNICODE: u32 = 0x0004;

/// The code given for a key that has no virtual key code.
pub const NO_KEY_CODE: u16 = 0xFF;

pub const VK_BACK: u16 = 0x08;
pub const VK_TAB: u16 = 0x09;
pub const VK_CLEAR: u16 = 0x0C;
pub const VK_RETURN: u16 = 0x0D;
pub const VK_CAPITAL: u16 = 0x14;
pub const VK_ESCAPE: u16 = 0x1B;
pub const VK_SPACE: u16 = 0x20;
pub const VK_PRIOR: u16 = 0x21;
pub const VK_NEXT: u16 = 0x22;
pub const VK_END: u16 = 0x23;
pub const VK_HOME: u16 = 0x24;
pub const VK_LEFT: u16 = 0x25;
pub const VK_UP: u16 = 0x26;
pub const VK_RIGHT: u16 = 0x27;
pub const VK_DOWN: u16 = 0x28;
pub const VK_DELETE: u16 = 0x2E;
pub const VK_0: u16 = 0x30;
pub const VK_1: u16 = 0x31;
pub const VK_2: u16 = 0x32;
pub const VK_3: u16 = 0x33;
pub const VK_4: u16 = 0x34;
pub const VK_5: u16 = 0x35;
pub const VK_6: u16 = 0x36;
pub const VK_7: u16 = 0x37;
pub const VK_8: u16 = 0x38;
pub const VK_9: u16 = 0x39;
pub const VK_A: u16 = 0x41;
pub const VK_B: u16 = 0x42;
pub const VK_C: u16 = 0x43;
pub const VK_D: u16 = 0x44;
pub const VK_E: u16 = 0x45;
pub const VK_F: u16 = 0x46;
pub const VK_G: u16 = 0x47;
pub const VK_H: u16 = 0x48;
pub const VK_I: u16 = 0x49;
pub const VK_J: u16 = 0x4A;
pub const VK_K: u16 = 0x4B;
pub const VK_L: u16 = 0x4C;
pub const VK_M: u16 = 0x4D;
pub const VK_N: u16 = 0x4E;
pub const VK_O: u16 = 0x4F;
pub const VK_P: u16 = 0x50;
pub const VK_Q: u16 = 0x51;
pub const VK_R: u16 = 0x52;
pub const VK_S: u16 = 0x53;
pub const VK_T: u16 = 0x54;
pub const VK_U: u16 = 0x55;
pub const VK_V: u16 = 0x56;
pub const VK_W: u16 = 0x57;
pub const VK_X: u16 = 0x58;
pub const VK_Y: u16 = 0x59;
pub const VK_Z: u16 = 0x5A;
pub const VK_LWIN: u16 = 0x5B;
pub const VK_RWIN: u16 = 0x5C;
pub const VK_NUMPAD0: u16 = 0x60;
pub const VK_NUMPAD1: u16 = 0x61;
pub const VK_NUMPAD2: u16 = 0x62;
pub const VK_NUMPAD3: u16 = 0x63;
pub const VK_NUMPAD4: u16 = 0x64;
pub const VK_NUMPAD5: u16 = 0x65;
pub const VK_NUMPAD6: u16 = 0x66;
pub const VK_NUMPAD7: u16 = 0x67;
pub const VK_NUMPAD8: u16 = 0x68;
pub const VK_NUMPAD9: u16 = 0x69;
pub const VK_MULTIPLY: u16 = 0x6A;
pub const VK_ADD: u16 = 0x6B;
pub const VK_DECIMAL: u16 = 0x6E;
pub const VK_DIVIDE: u16 = 0x6F;
pub const VK_F1: u16 = 0x70;
pub const VK_F2: u16 = 0x71;
pub const VK_F3: u16 = 0x72;
pub const VK_F4: u16 = 0x73;
pub const VK_F5: u16 = 0x74;
pub const VK_F6: u16 = 0x75;
pub const VK_F7: u16 = 0x76;
pub const VK_F8: u16 = 0x77;
pub const VK_F9: u16 = 0x78;
pub const VK_F10: u16 = 0x79;
pub const VK_F11: u16 = 0x7A;
pub const VK_F12: u16 = 0x7B;
pub const VK_LSHIFT: u16 = 0xA0;
pub const VK_RSHIFT: u16 = 0xA1;
pub const VK_LCONTROL: u16 = 0xA2;
pub const VK_RCONTROL: u16 = 0xA3;
pub const VK_LMENU: u16 = 0xA4;
pub const VK_RMENU: u16 = 0xA5;
pub const VK_VOLUME_MUTE: u16 = 0xAD;
pub const VK_VOLUME_DOWN: u16 = 0xAE;
pub const VK_VOLUME_UP: u16 = 0xAF;
pub const VK_MEDIA_NEXT_TRACK: u16 = 0xB0;
pub const VK_MEDIA_PREV_TRACK: u16 = 0xB1;
pub const VK_MEDIA_PLAY_PAUSE: u16 = 0xB3;
pub const VK_OEM_1: u16 = 0xBA;
pub const VK_OEM_PLUS: u16 = 0xBB;
pub const VK_OEM_COMMA: u16 = 0xBC;
pub const VK_OEM_MINUS: u16 = 0xBD;
pub const VK_OEM_PERIOD: u16 = 0xBE;
pub const VK_OEM_2: u16 = 0xBF;
pub const VK_OEM_3: u16 = 0xC0;
pub const VK_OEM_4: u16 = 0xDB;
pub const VK_OEM_5: u16 = 0xDC;
pub const VK_OEM_6: u16 = 0xDD;
pub const VK_OEM_7: u16 = 0xDE;

/// One keyboard input record: the virtual key code, the scan code or UTF-16
/// unit, and the flags.
#[derive(Copy, Clone, PartialEq, Eq, Structural, Debug)]
pub struct KeyInput {
    pub vk: u16,
    pub scan: u16,
    pub flags: u32,
}

/// The virtual key code of each key. The function key has none.
pub open spec fn key_code_of(key: Key) -> u16 {
    match key {
        Key::CapsLock => VK_CAPITAL,
        Key::Shift => VK_LSHIFT,
        Key::Control => VK_LCONTROL,
        Key::Alt => VK_LMENU,
        Key::Meta => VK_LWIN,
        Key::RightShift => VK_RSHIFT,
        Key::RightControl => VK_RCONTROL,
        Key::RightAlt => VK_RMENU,
        Key::RightMeta => VK_RWIN,
        Key::Fn => NO_KEY_CODE,
        Key::Return => VK_RETURN,
        Key::Escape => VK_ESCAPE,
        Key::Delete => VK_BACK,
        Key::ForwardDelete => VK_DELETE,
        Key::Tab => VK_TAB,
        Key::Space => VK_SPACE,
        Key::Minus => VK_OEM_MINUS,
        Key::Equal => VK_OEM_PLUS,
        Key::LeftBracket => VK_OEM_4,
        Key::RightBracket => VK_OEM_6,
        Key::Backslash => VK_OEM_5,
        Key::Semicolon => VK_OEM_1,
        Key::Quote => VK_OEM_7,
        Key::Grave => VK_OEM_3,
        Key::Comma => VK_OEM_COMMA,
        Key::Period => VK_OEM_PERIOD,
        Key::Slash => VK_OEM_2,
        Key::UpArrow => VK_UP,
        Key::RightArrow => VK_RIGHT,
        Key::DownArrow => VK_DOWN,
        Key::LeftArrow => VK_LEFT,
        Key::PageUp => VK_PRIOR,
        Key::PageDown => VK_NEXT,
        Key::Home => VK_HOME,
        Key::End => VK_END,
        Key::A => VK_A,
        Key::B => VK_B,
        Key::C => VK_C,
        Key::D => VK_D,
        Key::E => VK_E,
        Key::F => VK_F,
        Key::G => VK_G,
        Key::H => VK_H,
        Key::I => VK_I,
        Key::J => VK_J,
        Key::K => VK_K,
        Key::L => VK_L,
        Key::M => VK_M,
        Key::N => VK_N,
        Key::O => VK_O,
        Key::P => VK_P,
        Key::Q => VK_Q,
        Key::R => VK_R,
        Key::S => VK_S,
        Key::T => VK_T,
        Key::U => VK_U,
        Key::V => VK_V,
        Key::W => VK_W,
        Key::X => VK_X,
        Key::Y => VK_Y,
        Key::Z => VK_Z,
        Key::N0 => VK_0,
        Key::N1 => VK_1,
        Key::N2 => VK_2,
        Key::N3 => VK_3,
        Key::N4 => VK_4,
        Key::N5 => VK_5,
        Key::N6 => VK_6,
        Key::N7 => VK_7,
        Key::N8 => VK_8,
        Key::N9 => VK_9,
        Key::Keypad0 => VK_NUMPAD0,
        Key::Keypad1 => VK_NUMPAD1,
        Key::Keypad2 => VK_NUMPAD2,
        Key::Keypad3 => VK_NUMPAD3,
        Key::Keypad4 => VK_NUMPAD4,
        Key::Keypad5 => VK_NUMPAD5,
        Key::Keypad6 => VK_NUMPAD6,
        Key::Keypad7 => VK_NUMPAD7,
        Key::Keypad8 => VK_NUMPAD8,
        Key::Keypad9 => VK_NUMPAD9,
        Key::KeypadClear => VK_CLEAR,
        Key::KeypadEquals => VK_OEM_PLUS,
        Key::KeypadDivide => VK_DIVIDE,
        Key::KeypadMultiply => VK_MULTIPLY,
        Key::KeypadMinus => VK_OEM_MINUS,
        Key::KeypadPlus => VK_ADD,
        Key::KeypadEnter => VK_RETURN,
        Key::KeypadDecimal => VK_DECIMAL,
        Key::F1 => VK_F1,
        Key::F2 => VK_F2,
        Key::F3 => VK_F3,
        Key::F4 => VK_F4,
        Key::F5 => VK_F5,
        Key::F6 => VK_F6,
        Key::F7 => VK_F7,
        Key::F8 => VK_F8,
        Key::F9 => VK_F9,
        Key::F10 => VK_F10,
        Key::F11 => VK_F11,
        Key::F12 => VK_F12,
        Key::FastForward => VK_MEDIA_NEXT_TRACK,
        Key::Rewind => VK_MEDIA_PREV_TRACK,
        Key::PlayPause => VK_MEDIA_PLAY_PAUSE,
        Key::VolumeUp => VK_VOLUME_UP,
        Key::VolumeDown => VK_VOLUME_DOWN,
        Key::Mute => VK_VOLUME_MUTE,
    }
}

/// The virtual key code of a key.
pub fn to_key_code(key: Key) -> (code: u16)
    ensures
        code == key_code_of(key),
{
    match key {
        Key::CapsLock => VK_CAPITAL,
        Key::Shift => VK_LSHIFT,
        Key::Control => VK_LCONTROL,
        Key::Alt => VK_LMENU,
        Key::Meta => VK_LWIN,
        Key::RightShift => VK_RSHIFT,
        Key::RightControl => VK_RCONTROL,
        Key::RightAlt => VK_RMENU,
        Key::RightMeta => VK_RWIN,
        Key::Fn => NO_KEY_CODE,
        Key::Return => VK_RETURN,
        Key::Escape => VK_ESCAPE,
        Key::Delete => VK_BACK,
        Key::ForwardDelete => VK_DELETE,
        Key::Tab => VK_TAB,
        Key::Space => VK_SPACE,
        Key::Minus => VK_OEM_MINUS,
        Key::Equal => VK_OEM_PLUS,
        Key::LeftBracket => VK_OEM_4,
        Key::RightBracket => VK_OEM_6,
        Key::Backslash => VK_OEM_5,
        Key::Semicolon => VK_OEM_1,
        Key::Quote => VK_OEM_7,
        Key::Grave => VK_OEM_3,
        Key::Comma => VK_OEM_COMMA,
        Key::Period => VK_OEM_PERIOD,
        Key::Slash => VK_OEM_2,
        Key::UpArrow => VK_UP,
        Key::RightArrow => VK_RIGHT,
        Key::DownArrow => VK_DOWN,
        Key::LeftArrow => VK_LEFT,
        Key::PageUp => VK_PRIOR,
        Key::PageDown => VK_NEXT,
        Key::Home => VK_HOME,
        Key::End => VK_END,
        Key::A => VK_A,
        Key::B => VK_B,
        Key::C => VK_C,
        Key::D => VK_D,
        Key::E => VK_E,
        Key::F => VK_F,
        Key::G => VK_G,
        Key::H => VK_H,
        Key::I => VK_I,
        Key::J => VK_J,
        Key::K => VK_K,
        Key::L => VK_L,
        Key::M => VK_M,
        Key::N => VK_N,
        Key::O => VK_O,
        Key::P => VK_P,
        Key::Q => VK_Q,
        Key::R => VK_R,
        Key::S => VK_S,
        Key::T => VK_T,
        Key::U => VK_U,
        Key::V => VK_V,
        Key::W => VK_W,
        Key::X => VK_X,
        Key::Y => VK_Y,
        Key::Z => VK_Z,
        Key::N0 => VK_0,
        Key::N1 => VK_1,
        Key::N2 => VK_2,
        Key::N3 => VK_3,
        Key::N4 => VK_4,
        Key::N5 => VK_5,
        Key::N6 => VK_6,
        Key::N7 => VK_7,
        Key::N8 => VK_8,
        Key::N9 => VK_9,
        Key::Keypad0 => VK_NUMPAD0,
        Key::Keypad1 => VK_NUMPAD1,
        Key::Keypad2 => VK_NUMPAD2,
        Key::Keypad3 => VK_NUMPAD3,
        Key::Keypad4 => VK_NUMPAD4,
        Key::Keypad5 => VK_NUMPAD5,
        Key::Keypad6 => VK_NUMPAD6,
        Key::Keypad7 => VK_NUMPAD7,
        Key::Keypad8 => VK_NUMPAD8,
        Key::Keypad9 => VK_NUMPAD9,
        Key::KeypadClear => VK_CLEAR,
        Key::KeypadEquals => VK_OEM_PLUS,
        Key::KeypadDivide => VK_DIVIDE,
        Key::KeypadMultiply => VK_MULTIPLY,
        Key::KeypadMinus => VK_OEM_MINUS,
        Key::KeypadPlus => VK_ADD,
        Key::KeypadEnter => VK_RETURN,
        Key::KeypadDecimal => VK_DECIMAL,
        Key::F1 => VK_F1,
        Key::F2 => VK_F2,
        Key::F3 => VK_F3,
        Key::F4 => VK_F4,
        Key::F5 => VK_F5,
        Key::F6 => VK_F6,
        Key::F7 => VK_F7,
        Key::F8 => VK_F8,
        Key::F9 => VK_F9,
        Key::F10 => VK_F10,
        Key::F11 => VK_F11,
        Key::F12 => VK_F12,
        Key::FastForward => VK_MEDIA_NEXT_TRACK,
        Key::Rewind => VK_MEDIA_PREV_TRACK,
        Key::PlayPause => VK_MEDIA_PLAY_PAUSE,
        Key::VolumeUp => VK_VOLUME_UP,
        Key::VolumeDown => VK_VOLUME_DOWN,
        Key::Mute => VK_VOLUME_MUTE,
    }
}

/// The record of a key that goes down or up.
pub open spec fn key_input(key: Key, down: bool) -> KeyInput {
    KeyInput {
        vk: key_code_of(key),
        scan: 0,
        flags: if down {
            0
        } else {
            KEYEVENTF_KEYUP
        },
    }
}

/// The record of a key that goes down or up.
pub fn key_event(key: Key, down: bool) -> (input: KeyInput)
    ensures
        input == key_input(key, down),
{
    KeyInput {
        vk: to_key_code(key),
        scan: 0,
        flags: if down {
            0
        } else {
            KEYEVENTF_KEYUP
        },
    }
}

/// The records of a key click: the press, then the release, to be sent
/// together.
pub fn key_click(key: Key) -> (inputs: Vec<KeyInput>)
    ensures
        inputs@ == seq![key_input(key, true), key_input(key, false)],
{
    let key_code: u16 = to_key_code(key);
    let inputs = vec![
        KeyInput { vk: key_code, scan: 0, flags: 0 },
        KeyInput { vk: key_code, scan: 0, flags: KEYEVENTF_KEYUP },
    ];
    assert(inputs@ =~= seq![key_input(key, true), key_input(key, false)]);
    inputs
}

/// The record that carries one UTF-16 unit down or up.
pub open spec fn unit_input(unit: u16, down: bool) -> KeyInput {
    KeyInput {
        vk: 0,
        scan: unit,
        flags: if down {
            KEYEVENTF_UNICODE
        } else {
            KEYEVENTF_UNICODE | KEYEVENTF_KEYUP
        },
    }
}

/// The UTF-16 units of a character: the code point itself below 0x10000,
/// else a high and a low surrogate with ten bits each of the code point
/// less 0x10000.
pub open spec fn utf16_of(ch: char) -> Seq<u16> {
    let code = ch as u32 as int;
    if code < 0x10000 {
        seq![code as u16]
    } else {
        seq![
            (0xD800 + (code - 0x10000) / 0x400) as u16,
            (0xDC00 + (code - 0x10000) % 0x400) as u16,
        ]
    }
}

/// The records that type one character: all its units down, then all up.
pub open spec fn char_inputs(ch: char) -> Seq<KeyInput> {
    let units = utf16_of(ch);
    if units.len() == 1 {
        seq![unit_input(units[0], true), unit_input(units[0], false)]
    } else {
        seq![
            unit_input(units[0], true),
            unit_input(units[1], true),
            unit_input(units[0], false),
            unit_input(units[1], false),
        ]
    }
}

/// The records that type a string: those of its characters, one character
/// after the other.
pub open spec fn string_inputs(s: Seq<char>) -> Seq<KeyInput>
    decreases s.len(),
{
    if s.len() == 0 {
        Seq::empty()
    } else {
        string_inputs(s.drop_last()) + char_inputs(s.last())
    }
}

/// The record that carries one UTF-16 unit down or up.
fn unit_event(unit: u16, down: bool) -> (input: KeyInput)
    ensures
        input == unit_input(unit, down),
{
    KeyInput {
        vk: 0,
        scan: unit,
        flags: if down {
            KEYEVENTF_UNICODE
        } else {
            KEYEVENTF_UNICODE | KEYEVENTF_KEYUP
        },
    }
}

/// The UTF-16 units of a character: the first, and the second if there are
/// two.
pub fn encode_utf16(ch: char) -> (units: (u16, Option<u16>))
    ensures
        units.1.is_none() ==> utf16_of(ch) == seq![units.0],
        units.1.is_some() ==> utf16_of(ch) == seq![units.0, units.1.unwrap()],
        units.1.is_none() <==> (ch as u32) < 0x10000,
{
    let code: u32 = ch as u32;
    if code < 0x10000 {
        (code as u16, None)
    } else {
        let rest: u32 = code - 0x10000;
        ((0xD800 + rest / 0x400) as u16, Some((0xDC00 + rest % 0x400) as u16))
    }
}

/// The record of a character that goes down or up. Only a character that is
/// one UTF-16 unit has such a record; any other is not supported.
pub fn char_event<P>(ch: char, down: bool) -> (r: Result<KeyInput, GenericError<P>>)
    ensures
        (ch as u32) < 0x10000 ==> r == Ok::<KeyInput, GenericError<P>>(
            unit_input(utf16_of(ch)[0], down),
        ),
        (ch as u32) >= 0x10000 ==> r == Err::<KeyInput, GenericError<P>>(
            GenericError::UnsupportedUnicode(ch),
        ),
{
    match encode_utf16(ch) {
        (unit, None) => Ok(unit_event(unit, down)),
        (_, Some(_)) => Err(GenericError::UnsupportedUnicode(ch)),
    }
}

/// The records that type a string, to be sent together.
pub fn unicode_string(s: &str) -> (inputs: Vec<KeyInput>)
    ensures
        inputs@ == string_inputs(s@),
{
    let len: usize = s.unicode_len();
    let mut inputs: Vec<KeyInput> = Vec::new();
    let mut index: usize = 0;
    while index < len
        invariant
            len == s@.len(),
            index <= len,
            inputs@ == string_inputs(s@.subrange(0, index as int)),
        decreases len - index,
    {
        let ch: char = s.get_char(index);
        let ghost before = inputs@;
        match encode_utf16(ch) {
            (unit, None) => {
                inputs.push(unit_event(unit, true));
                inputs.push(unit_event(unit, false));
            },
            (high, Some(low)) => {
                inputs.push(unit_event(high, true));
                inputs.push(unit_event(low, true));
                inputs.push(unit_event(high, false));
                inputs.push(unit_event(low, false));
            },
        }
        proof {
            let prefix = s@.subrange(0, index + 1);
            assert(prefix.drop_last() =~= s@.subrange(0, index as int));
            assert(prefix.last() == ch);
            assert(inputs@ =~= before + char_inputs(ch));
        }
        index += 1;
    }
    assert(s@.subrange(0, len as int) =~= s@);
    inputs
}

} // verus!
