use tfc::windows::{
    char_event, encode_utf16, key_click, key_event, to_key_code, unicode_string, KeyInput,
};
use tfc::{GenericError, Key};

#[test]
fn virtual_key_codes() {
    assert_eq!(to_key_code(Key::CapsLock), 0x14);
    assert_eq!(to_key_code(Key::Shift), 0xA0);
    assert_eq!(to_key_code(Key::RightShift), 0xA1);
    assert_eq!(to_key_code(Key::Control), 0xA2);
    assert_eq!(to_key_code(Key::RightControl), 0xA3);
    assert_eq!(to_key_code(Key::Alt), 0xA4);
    assert_eq!(to_key_code(Key::RightAlt), 0xA5);
    assert_eq!(to_key_code(Key::Meta), 0x5B);
    assert_eq!(to_key_code(Key::RightMeta), 0x5C);
    assert_eq!(to_key_code(Key::Fn), 0xFF);
    assert_eq!(to_key_code(Key::Return), 0x0D);
    assert_eq!(to_key_code(Key::Delete), 0x08);
    assert_eq!(to_key_code(Key::ForwardDelete), 0x2E);
    assert_eq!(to_key_code(Key::A), 0x41);
    assert_eq!(to_key_code(Key::Z), 0x5A);
    assert_eq!(to_key_code(Key::N0), 0x30);
    assert_eq!(to_key_code(Key::N9), 0x39);
    assert_eq!(to_key_code(Key::Keypad0), 0x60);
    assert_eq!(to_key_code(Key::Keypad9), 0x69);
    assert_eq!(to_key_code(Key::KeypadEnter), 0x0D);
    assert_eq!(to_key_code(Key::KeypadEquals), 0xBB);
    assert_eq!(to_key_code(Key::KeypadMinus), 0xBD);
    assert_eq!(to_key_code(Key::KeypadPlus), 0x6B);
    assert_eq!(to_key_code(Key::F1), 0x70);
    assert_eq!(to_key_code(Key::F12), 0x7B);
    assert_eq!(to_key_code(Key::PlayPause), 0xB3);
    assert_eq!(to_key_code(Key::Mute), 0xAD);
    assert_eq!(to_key_code(Key::Grave), 0xC0);
    assert_eq!(to_key_code(Key::Quote), 0xDE);
}

#[test]
fn key_event_sets_the_release_flag() {
    assert_eq!(key_event(Key::A, true), KeyInput { vk: 0x41, scan: 0, flags: 0 });
    assert_eq!(key_event(Key::A, false), KeyInput { vk: 0x41, scan: 0, flags: 2 });
}

#[test]
fn windows_key_click_is_press_then_release() {
    assert_eq!(
        key_click(Key::Space),
        vec![
            KeyInput { vk: 0x20, scan: 0, flags: 0 },
            KeyInput { vk: 0x20, scan: 0, flags: 2 }
        ]
    );
}

#[test]
fn char_event_carries_the_unit() {
    assert_eq!(char_event::<u32>('a', true), Ok(KeyInput { vk: 0, scan: 0x61, flags: 4 }));
    assert_eq!(char_event::<u32>('a', false), Ok(KeyInput { vk: 0, scan: 0x61, flags: 6 }));
    assert_eq!(char_event::<u32>('€', true), Ok(KeyInput { vk: 0, scan: 0x20AC, flags: 4 }));
    assert_eq!(
        char_event::<u32>('\u{FFFF}', true),
        Ok(KeyInput { vk: 0, scan: 0xFFFF, flags: 4 })
    );
}

#[test]
fn char_event_has_no_record_for_two_units() {
    assert_eq!(char_event::<u32>('😀', true), Err(GenericError::UnsupportedUnicode('😀')));
    assert_eq!(
        char_event::<u32>('\u{10000}', false),
        Err(GenericError::UnsupportedUnicode('\u{10000}'))
    );
}

#[test]
fn encode_utf16_agrees_with_the_standard_encoder() {
    for ch in ['a', '\0', '\u{D7FF}', '\u{E000}', '\u{FFFF}', '\u{10000}', '😀', '\u{10FFFF}'] {
        let mut pair = [0u16; 2];
        let expected = ch.encode_utf16(&mut pair);
        let (first, second) = encode_utf16(ch);
        assert_eq!(first, expected[0]);
        assert_eq!(second, expected.get(1).copied());
    }
}

#[test]
fn unicode_string_of_single_units() {
    assert_eq!(
        unicode_string("hi"),
        vec![
            KeyInput { vk: 0, scan: 0x68, flags: 4 },
            KeyInput { vk: 0, scan: 0x68, flags: 6 },
            KeyInput { vk: 0, scan: 0x69, flags: 4 },
            KeyInput { vk: 0, scan: 0x69, flags: 6 },
        ]
    );
}

#[test]
fn unicode_string_of_a_surrogate_pair() {
    assert_eq!(
        unicode_string("😀"),
        vec![
            KeyInput { vk: 0, scan: 0xD83D, flags: 4 },
            KeyInput { vk: 0, scan: 0xDE00, flags: 4 },
            KeyInput { vk: 0, scan: 0xD83D, flags: 6 },
            KeyInput { vk: 0, scan: 0xDE00, flags: 6 },
        ]
    );
}

#[test]
fn unicode_string_mixed_and_empty() {
    assert_eq!(unicode_string(""), vec![]);
    let inputs = unicode_string("a😀b");
    assert_eq!(inputs.len(), 8);
    assert_eq!(inputs[0], KeyInput { vk: 0, scan: 0x61, flags: 4 });
    assert_eq!(inputs[2], KeyInput { vk: 0, scan: 0xD83D, flags: 4 });
    assert_eq!(inputs[5], KeyInput { vk: 0, scan: 0xDE00, flags: 6 });
    assert_eq!(inputs[7], KeyInput { vk: 0, scan: 0x62, flags: 6 });
}
