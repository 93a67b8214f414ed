//! How a logical key is delivered on macOS: the class of each key, the
//! packed value of auxiliary keys, and the rule that keeps the combined
//! modifier bits in step with the bits of the left and right keys.

use vstd::prelude::*;
use crate::iokit as io;
use crate::key::Key;

verus! {

/// The class of a key, with what its delivery needs.
#[derive(Copy, Clone, PartialEq, Eq, Structural, Debug)]
pub enum KeyCode {
    /// The caps lock key, which latches a modifier when pressed.
    CapsLock,
    /// A modifier key: its virtual key code and the mask of its own bit.
    Modifier(u8, u32),
    /// A key with a virtual key code and nothing else.
    Regular(u8),
    /// A media key: its auxiliary key type.
    Media(u8),
}

/// The class of each key.
pub open spec fn key_code_of(key: Key) -> KeyCode {
    match key {
        Key::CapsLock => KeyCode::CapsLock,
        Key::Shift => KeyCode::Modifier(io::kVK_Shift, io::NX_DEVICELSHIFTKEYMASK),
        Key::Control => KeyCode::Modifier(io::kVK_Control, io::NX_DEVICELCTLKEYMASK),
        Key::Alt => KeyCode::Modifier(io::kVK_Option, io::NX_DEVICELALTKEYMASK),
        Key::Meta => KeyCode::Modifier(io::kVK_Command, io::NX_DEVICELCMDKEYMASK),
        Key::RightShift => KeyCode::Modifier(io::kVK_RightShift, io::NX_DEVICERSHIFTKEYMASK),
        Key::RightControl => KeyCode::Modifier(io::kVK_RightControl, io::NX_DEVICERCTLKEYMASK),
        Key::RightAlt => KeyCode::Modifier(io::kVK_RightOption, io::NX_DEVICERALTKEYMASK),
        Key::RightMeta => KeyCode::Modifier(io::kVK_RightCommand, io::NX_DEVICERCMDKEYMASK),
        Key::Fn => KeyCode::Modifier(io::kVK_Function, io::NX_SECONDARYFNMASK),
        Key::Return => KeyCode::Regular(io::kVK_Return),
        Key::Escape => KeyCode::Regular(io::kVK_Escape),
        Key::Delete => KeyCode::Regular(io::kVK_Delete),
        Key::ForwardDelete => KeyCode::Regular(io::kVK_ForwardDelete),
        Key::Tab => KeyCode::Regular(io::kVK_Tab),
        Key::Space => KeyCode::Regular(io::kVK_Space),
        Key::Minus => KeyCode::Regular(io::kVK_ANSI_Minus),
        Key::Equal => KeyCode::Regular(io::kVK_ANSI_Equal),
        Key::LeftBracket => KeyCode::Regular(io::kVK_ANSI_LeftBracket),
        Key::RightBracket => KeyCode::Regular(io::kVK_ANSI_RightBracket),
        Key::Backslash => KeyCode::Regular(io::kVK_ANSI_Backslash),
        Key::Semicolon => KeyCode::Regular(io::kVK_ANSI_Semicolon),
        Key::Quote => KeyCode::Regular(io::kVK_ANSI_Quote),
        Key::Grave => KeyCode::Regular(io::kVK_ANSI_Grave),
        Key::Comma => KeyCode::Regular(io::kVK_ANSI_Comma),
        Key::Period => KeyCode::Regular(io::kVK_ANSI_Period),
        Key::Slash => KeyCode::Regular(io::kVK_ANSI_Slash),
        Key::UpArrow => KeyCode::Regular(io::kVK_UpArrow),
        Key::RightArrow => KeyCode::Regular(io::kVK_RightArrow),
        Key::DownArrow => KeyCode::Regular(io::kVK_DownArrow),
        Key::LeftArrow => KeyCode::Regular(io::kVK_LeftArrow),
        Key::PageUp => KeyCode::Regular(io::kVK_PageUp),
        Key::PageDown => KeyCode::Regular(io::kVK_PageDown),
        Key::Home => KeyCode::Regular(io::kVK_Home),
        Key::End => KeyCode::Regular(io::kVK_End),
        Key::A => KeyCode::Regular(io::kVK_ANSI_A),
        Key::B => KeyCode::Regular(io::kVK_ANSI_B),
        Key::C => KeyCode::Regular(io::kVK_ANSI_C),
        Key::D => KeyCode::Regular(io::kVK_ANSI_D),
        Key::E => KeyCode::Regular(io::kVK_ANSI_E),
        Key::F => KeyCode::Regular(io::kVK_ANSI_F),
        Key::G => KeyCode::Regular(io::kVK_ANSI_G),
        Key::H => KeyCode::Regular(io::kVK_ANSI_H),
        Key::I => KeyCode::Regular(io::kVK_ANSI_I),
        Key::J => KeyCode::Regular(io::kVK_ANSI_J),
        Key::K => KeyCode::Regular(io::kVK_ANSI_K),
        Key::L => KeyCode::Regular(io::kVK_ANSI_L),
        Key::M => KeyCode::Regular(io::kVK_ANSI_M),
        Key::N => KeyCode::Regular(io::kVK_ANSI_N),
        Key::O => KeyCode::Regular(io::kVK_ANSI_O),
        Key::P => KeyCode::Regular(io::kVK_ANSI_P),
        Key::Q => KeyCode::Regular(io::kVK_ANSI_Q),
        Key::R => KeyCode::Regular(io::kVK_ANSI_R),
        Key::S => KeyCode::Regular(io::kVK_ANSI_S),
        Key::T => KeyCode::Regular(io::kVK_ANSI_T),
        Key::U => KeyCode::Regular(io::kVK_ANSI_U),
        Key::V => KeyCode::Regular(io::kVK_ANSI_V),
        Key::W => KeyCode::Regular(io::kVK_ANSI_W),
        Key::X => KeyCode::Regular(io::kVK_ANSI_X),
        Key::Y => KeyCode::Regular(io::kVK_ANSI_Y),
        Key::Z => KeyCode::Regular(io::kVK_ANSI_Z),
        Key::N0 => KeyCode::Regular(io::kVK_ANSI_0),
        Key::N1 => KeyCode::Regular(io::kVK_ANSI_1),
        Key::N2 => KeyCode::Regular(io::kVK_ANSI_2),
        Key::N3 => KeyCode::Regular(io::kVK_ANSI_3),
        Key::N4 => KeyCode::Regular(io::kVK_ANSI_4),
        Key::N5 => KeyCode::Regular(io::kVK_ANSI_5),
        Key::N6 => KeyCode::Regular(io::kVK_ANSI_6),
        Key::N7 => KeyCode::Regular(io::kVK_ANSI_7),
        Key::N8 => KeyCode::Regular(io::kVK_ANSI_8),
        Key::N9 => KeyCode::Regular(io::kVK_ANSI_9),
        Key::Keypad0 => KeyCode::Regular(io::kVK_ANSI_Keypad0),
        Key::Keypad1 => KeyCode::Regular(io::kVK_ANSI_Keypad1),
        Key::Keypad2 => KeyCode::Regular(io::kVK_ANSI_Keypad2),
        Key::Keypad3 => KeyCode::Regular(io::kVK_ANSI_Keypad3),
        Key::Keypad4 => KeyCode::Regular(io::kVK_ANSI_Keypad4),
        Key::Keypad5 => KeyCode::Regular(io::kVK_ANSI_Keypad5),
        Key::Keypad6 => KeyCode::Regular(io::kVK_ANSI_Keypad6),
        Key::Keypad7 => KeyCode::Regular(io::kVK_ANSI_Keypad7),
        Key::Keypad8 => KeyCode::Regular(io::kVK_ANSI_Keypad8),
        Key::Keypad9 => KeyCode::Regular(io::kVK_ANSI_Keypad9),
        Key::KeypadClear => KeyCode::Regular(io::kVK_ANSI_KeypadClear),
        Key::KeypadEquals => KeyCode::Regular(io::kVK_ANSI_KeypadEquals),
        Key::KeypadDivide => KeyCode::Regular(io::kVK_ANSI_KeypadDivide),
        Key::KeypadMultiply => KeyCode::Regular(io::kVK_ANSI_KeypadMultiply),
        Key::KeypadMinus => KeyCode::Regular(io::kVK_ANSI_KeypadMinus),
        Key::KeypadPlus => KeyCode::Regular(io::kVK_ANSI_KeypadPlus),
        Key::KeypadEnter => KeyCode::Regular(io::kVK_ANSI_KeypadEnter),
        Key::KeypadDecimal => KeyCode::Regular(io::kVK_ANSI_KeypadDecimal),
        Key::F1 => KeyCode::Regular(io::kVK_F1),
        Key::F2 => KeyCode::Regular(io::kVK_F2),
        Key::F3 => KeyCode::Regular(io::kVK_F3),
        Key::F4 => KeyCode::Regular(io::kVK_F4),
        Key::F5 => KeyCode::Regular(io::kVK_F5),
        Key::F6 => KeyCode::Regular(io::kVK_F6),
        Key::F7 => KeyCode::Regular(io::kVK_F7),
        Key::F8 => KeyCode::Regular(io::kVK_F8),
        Key::F9 => KeyCode::Regular(io::kVK_F9),
        Key::F10 => KeyCode::Regular(io::kVK_F10),
        Key::F11 => KeyCode::Regular(io::kVK_F11),
        Key::F12 => KeyCode::Regular(io::kVK_F12),
        Key::FastForward => KeyCode::Media(io::NX_KEYTYPE_FAST),
        Key::Rewind => KeyCode::Media(io::NX_KEYTYPE_REWIND),
        Key::PlayPause => KeyCode::Media(io::NX_KEYTYPE_PLAY),
        Key::VolumeUp => KeyCode::Media(io::NX_KEYTYPE_SOUND_UP),
        Key::VolumeDown => KeyCode::Media(io::NX_KEYTYPE_SOUND_DOWN),
        Key::Mute => KeyCode::Media(io::NX_KEYTYPE_MUTE),
    }
}

/// The class of a key.
pub fn to_key_code(key: Key) -> (code: KeyCode)
    ensures
        code == key_code_of(key),
{
    match key {
        Key::CapsLock => KeyCode::CapsLock,
        Key::Shift => KeyCode::Modifier(io::kVK_Shift, io::NX_DEVICELSHIFTKEYMASK),
        Key::Control => KeyCode::Modifier(io::kVK_Control, io::NX_DEVICELCTLKEYMASK),
        Key::Alt => KeyCode::Modifier(io::kVK_Option, io::NX_DEVICELALTKEYMASK),
        Key::Meta => KeyCode::Modifier(io::kVK_Command, io::NX_DEVICELCMDKEYMASK),
        Key::RightShift => KeyCode::Modifier(io::kVK_RightShift, io::NX_DEVICERSHIFTKEYMASK),
        Key::RightControl => KeyCode::Modifier(io::kVK_RightControl, io::NX_DEVICERCTLKEYMASK),
        Key::RightAlt => KeyCode::Modifier(io::kVK_RightOption, io::NX_DEVICERALTKEYMASK),
        Key::RightMeta => KeyCode::Modifier(io::kVK_RightCommand, io::NX_DEVICERCMDKEYMASK),
        Key::Fn => KeyCode::Modifier(io::kVK_Function, io::NX_SECONDARYFNMASK),
        Key::Return => KeyCode::Regular(io::kVK_Return),
        Key::Escape => KeyCode::Regular(io::kVK_Escape),
        Key::Delete => KeyCode::Regular(io::kVK_Delete),
        Key::ForwardDelete => KeyCode::Regular(io::kVK_ForwardDelete),
        Key::Tab => KeyCode::Regular(io::kVK_Tab),
        Key::Space => KeyCode::Regular(io::kVK_Space),
        Key::Minus => KeyCode::Regular(io::kVK_ANSI_Minus),
        Key::Equal => KeyCode::Regular(io::kVK_ANSI_Equal),
        Key::LeftBracket => KeyCode::Regular(io::kVK_ANSI_LeftBracket),
        Key::RightBracket => KeyCode::Regular(io::kVK_ANSI_RightBracket),
        Key::Backslash => KeyCode::Regular(io::kVK_ANSI_Backslash),
        Key::Semicolon => KeyCode::Regular(io::kVK_ANSI_Semicolon),
        Key::Quote => KeyCode::Regular(io::kVK_ANSI_Quote),
        Key::Grave => KeyCode::Regular(io::kVK_ANSI_Grave),
        Key::Comma => KeyCode::Regular(io::kVK_ANSI_Comma),
        Key::Period => KeyCode::Regular(io::kVK_ANSI_Period),
        Key::Slash => KeyCode::Regular(io::kVK_ANSI_Slash),
        Key::UpArrow => KeyCode::Regular(io::kVK_UpArrow),
        Key::RightArrow => KeyCode::Regular(io::kVK_RightArrow),
        Key::DownArrow => KeyCode::Regular(io::kVK_DownArrow),
        Key::LeftArrow => KeyCode::Regular(io::kVK_LeftArrow),
        Key::PageUp => KeyCode::Regular(io::kVK_PageUp),
        Key::PageDown => KeyCode::Regular(io::kVK_PageDown),
        Key::Home => KeyCode::Regular(io::kVK_Home),
        Key::End => KeyCode::Regular(io::kVK_End),
        Key::A => KeyCode::Regular(io::kVK_ANSI_A),
        Key::B => KeyCode::Regular(io::kVK_ANSI_B),
        Key::C => KeyCode::Regular(io::kVK_ANSI_C),
        Key::D => KeyCode::Regular(io::kVK_ANSI_D),
        Key::E => KeyCode::Regular(io::kVK_ANSI_E),
        Key::F => KeyCode::Regular(io::kVK_ANSI_F),
        Key::G => KeyCode::Regular(io::kVK_ANSI_G),
        Key::H => KeyCode::Regular(io::kVK_ANSI_H),
        Key::I => KeyCode::Regular(io::kVK_ANSI_I),
        Key::J => KeyCode::Regular(io::kVK_ANSI_J),
        Key::K => KeyCode::Regular(io::kVK_ANSI_K),
        Key::L => KeyCode::Regular(io::kVK_ANSI_L),
        Key::M => KeyCode::Regular(io::kVK_ANSI_M),
        Key::N => KeyCode::Regular(io::kVK_ANSI_N),
        Key::O => KeyCode::Regular(io::kVK_ANSI_O),
        Key::P => KeyCode::Regular(io::kVK_ANSI_P),
        Key::Q => KeyCode::Regular(io::kVK_ANSI_Q),
        Key::R => KeyCode::Regular(io::kVK_ANSI_R),
        Key::S => KeyCode::Regular(io::kVK_ANSI_S),
        Key::T => KeyCode::Regular(io::kVK_ANSI_T),
        Key::U => KeyCode::Regular(io::kVK_ANSI_U),
        Key::V => KeyCode::Regular(io::kVK_ANSI_V),
        Key::W => KeyCode::Regular(io::kVK_ANSI_W),
        Key::X => KeyCode::Regular(io::kVK_ANSI_X),
        Key::Y => KeyCode::Regular(io::kVK_ANSI_Y),
        Key::Z => KeyCode::Regular(io::kVK_ANSI_Z),
        Key::N0 => KeyCode::Regular(io::kVK_ANSI_0),
        Key::N1 => KeyCode::Regular(io::kVK_ANSI_1),
        Key::N2 => KeyCode::Regular(io::kVK_ANSI_2),
        Key::N3 => KeyCode::Regular(io::kVK_ANSI_3),
        Key::N4 => KeyCode::Regular(io::kVK_ANSI_4),
        Key::N5 => KeyCode::Regular(io::kVK_ANSI_5),
        Key::N6 => KeyCode::Regular(io::kVK_ANSI_6),
        Key::N7 => KeyCode::Regular(io::kVK_ANSI_7),
        Key::N8 => KeyCode::Regular(io::kVK_ANSI_8),
        Key::N9 => KeyCode::Regular(io::kVK_ANSI_9),
        Key::Keypad0 => KeyCode::Regular(io::kVK_ANSI_Keypad0),
        Key::Keypad1 => KeyCode::Regular(io::kVK_ANSI_Keypad1),
        Key::Keypad2 => KeyCode::Regular(io::kVK_ANSI_Keypad2),
        Key::Keypad3 => KeyCode::Regular(io::kVK_ANSI_Keypad3),
        Key::Keypad4 => KeyCode::Regular(io::kVK_ANSI_Keypad4),
        Key::Keypad5 => KeyCode::Regular(io::kVK_ANSI_Keypad5),
        Key::Keypad6 => KeyCode::Regular(io::kVK_ANSI_Keypad6),
        Key::Keypad7 => KeyCode::Regular(io::kVK_ANSI_Keypad7),
        Key::Keypad8 => KeyCode::Regular(io::kVK_ANSI_Keypad8),
        Key::Keypad9 => KeyCode::Regular(io::kVK_ANSI_Keypad9),
        Key::KeypadClear => KeyCode::Regular(io::kVK_ANSI_KeypadClear),
        Key::KeypadEquals => KeyCode::Regular(io::kVK_ANSI_KeypadEquals),
        Key::KeypadDivide => KeyCode::Regular(io::kVK_ANSI_KeypadDivide),
        Key::KeypadMultiply => KeyCode::Regular(io::kVK_ANSI_KeypadMultiply),
        Key::KeypadMinus => KeyCode::Regular(io::kVK_ANSI_KeypadMinus),
        Key::KeypadPlus => KeyCode::Regular(io::kVK_ANSI_KeypadPlus),
        Key::KeypadEnter => KeyCode::Regular(io::kVK_ANSI_KeypadEnter),
        Key::KeypadDecimal => KeyCode::Regular(io::kVK_ANSI_KeypadDecimal),
        Key::F1 => KeyCode::Regular(io::kVK_F1),
        Key::F2 => KeyCode::Regular(io::kVK_F2),
        Key::F3 => KeyCode::Regular(io::kVK_F3),
        Key::F4 => KeyCode::Regular(io::kVK_F4),
        Key::F5 => KeyCode::Regular(io::kVK_F5),
        Key::F6 => KeyCode::Regular(io::kVK_F6),
        Key::F7 => KeyCode::Regular(io::kVK_F7),
        Key::F8 => KeyCode::Regular(io::kVK_F8),
        Key::F9 => KeyCode::Regular(io::kVK_F9),
        Key::F10 => KeyCode::Regular(io::kVK_F10),
        Key::F11 => KeyCode::Regular(io::kVK_F11),
        Key::F12 => KeyCode::Regular(io::kVK_F12),
        Key::FastForward => KeyCode::Media(io::NX_KEYTYPE_FAST),
        Key::Rewind => KeyCode::Media(io::NX_KEYTYPE_REWIND),
        Key::PlayPause => KeyCode::Media(io::NX_KEYTYPE_PLAY),
        Key::VolumeUp => KeyCode::Media(io::NX_KEYTYPE_SOUND_UP),
        Key::VolumeDown => KeyCode::Media(io::NX_KEYTYPE_SOUND_DOWN),
        Key::Mute => KeyCode::Media(io::NX_KEYTYPE_MUTE),
    }
}

/// The number that stands for the repeat flag in a packed value.
pub open spec fn repeat_bit(repeat: bool) -> u32 {
    if repeat {
        1
    } else {
        0
    }
}

/// The packed value of an auxiliary key event: the key type from bit 16 up,
/// the event type from bit 8 up, the repeat flag in bit 0.
pub open spec fn aux_key_spec(key_code: u8, event_type: u32, repeat: bool) -> i32 {
    (((key_code as u32) << 16) | (event_type << 8) | repeat_bit(repeat)) as i32
}

/// Packs an auxiliary key event into one 32-bit value.
pub fn aux_key(key_code: u8, event_type: u32, repeat: bool) -> (packed: i32)
    ensures
        packed == aux_key_spec(key_code, event_type, repeat),
{
    let flag: u32 = if repeat {
        1
    } else {
        0
    };
    let word: u32 = ((key_code as u32) << 16) | (event_type << 8) | flag;
    #[verifier::truncate]
    (word as i32)
}

/// For an event type that fits one byte, the three parts of a packed value
/// do not overlap: the value is their weighted sum, and each part can be read
/// back from it.
pub proof fn lemma_aux_key_parts(key_code: u8, event_type: u32, repeat: bool)
    requires
        event_type < 256,
    ensures
        aux_key_spec(key_code, event_type, repeat) == key_code * 65536 + event_type * 256
            + repeat_bit(repeat),
        (aux_key_spec(key_code, event_type, repeat) >> 16) & 0xff == key_code,
        (aux_key_spec(key_code, event_type, repeat) >> 8) & 0xff == event_type,
        aux_key_spec(key_code, event_type, repeat) & 0xff == repeat_bit(repeat),
{
    let flag = repeat_bit(repeat);
    let packed = aux_key_spec(key_code, event_type, repeat);
    assert(packed == (((key_code as u32) << 16) | (event_type << 8) | flag) as i32);
    assert(packed == key_code * 65536 + event_type * 256 + flag && (packed >> 16) & 0xff
        == key_code && (packed >> 8) & 0xff == event_type && packed & 0xff == flag)
        by (bit_vector)
        requires
            packed == (((key_code as u32) << 16) | (event_type << 8) | flag) as i32,
            event_type < 256,
            flag <= 1,
    ;
}

/// The modifiers after the combined bits `both` have been brought in step
/// with the bits `left` and `right`: set where either side is held, cleared
/// where neither is.
pub open spec fn combined(modifiers: u32, left: u32, right: u32, both: u32) -> u32 {
    if modifiers & left != 0 || modifiers & right != 0 {
        modifiers | both
    } else {
        modifiers & !both
    }
}

/// Brings the combined bits `both` in step with the bits `left` and `right`.
pub fn update_modifiers(modifiers: &mut u32, left: u32, right: u32, both: u32)
    ensures
        *final(modifiers) == combined(*old(modifiers), left, right, both),
{
    if *modifiers & left != 0 || *modifiers & right != 0 {
        *modifiers |= both;
    } else {
        *modifiers &= !both;
    }
}

} // verus!
