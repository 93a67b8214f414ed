use tfc::enumeration::variants;
use tfc::{CommandCode, Enum, EnumIterator, Key, MouseButton};

#[test]
fn names_of_the_enumerations() {
    assert_eq!(Key::name(), "Key");
    assert_eq!(CommandCode::name(), "CommandCode");
    assert_eq!(MouseButton::name(), "MouseButton");
}

#[test]
fn counts_of_the_enumerations() {
    assert_eq!(Key::count(), 107);
    assert_eq!(CommandCode::count(), 18);
    assert_eq!(MouseButton::count(), 5);
}

#[test]
fn display_and_identifier_names() {
    assert_eq!(Key::PlayPause.identifier_name(), "PlayPause");
    assert_eq!(Key::PlayPause.display_name(), "Play/Pause");
    assert_eq!(Key::CapsLock.display_name(), "Caps Lock");
    assert_eq!(Key::N7.display_name(), "7");
    assert_eq!(Key::N7.identifier_name(), "N7");
    assert_eq!(Key::KeypadEnter.display_name(), "Keypad Enter");
    assert_eq!(Key::FastForward.display_name(), "Fast-Forward");
    assert_eq!(CommandCode::MouseMoveRel.display_name(), "Mouse Move Relative");
    assert_eq!(CommandCode::MouseMoveRel.identifier_name(), "MouseMoveRel");
    assert_eq!(CommandCode::AsciiCharDown.display_name(), "ASCII Character Down");
    assert_eq!(CommandCode::UnicodeString.display_name(), "Unicode String");
    assert_eq!(MouseButton::Button4.display_name(), "Button 4");
    assert_eq!(MouseButton::Button4.identifier_name(), "Button4");
}

#[test]
fn debug_shows_the_identifier_name() {
    assert_eq!(format!("{:?}", Key::VolumeUp), Key::VolumeUp.identifier_name());
    assert_eq!(format!("{:?}", CommandCode::KeyClick), CommandCode::KeyClick.identifier_name());
}

#[test]
fn command_code_indices_are_stable() {
    assert_eq!(CommandCode::Delay.into_u8(), 0);
    assert_eq!(CommandCode::KeyDown.into_u8(), 1);
    assert_eq!(CommandCode::KeyUp.into_u8(), 2);
    assert_eq!(CommandCode::KeyClick.into_u8(), 3);
    assert_eq!(CommandCode::MouseMoveRel.into_u8(), 4);
    assert_eq!(CommandCode::MouseMoveAbs.into_u8(), 5);
    assert_eq!(CommandCode::MouseScroll.into_u8(), 6);
    assert_eq!(CommandCode::MouseDown.into_u8(), 7);
    assert_eq!(CommandCode::MouseUp.into_u8(), 8);
    assert_eq!(CommandCode::MouseClick.into_u8(), 9);
    assert_eq!(CommandCode::AsciiCharDown.into_u8(), 10);
    assert_eq!(CommandCode::AsciiCharUp.into_u8(), 11);
    assert_eq!(CommandCode::AsciiChar.into_u8(), 12);
    assert_eq!(CommandCode::AsciiString.into_u8(), 13);
    assert_eq!(CommandCode::UnicodeCharDown.into_u8(), 14);
    assert_eq!(CommandCode::UnicodeCharUp.into_u8(), 15);
    assert_eq!(CommandCode::UnicodeChar.into_u8(), 16);
    assert_eq!(CommandCode::UnicodeString.into_u8(), 17);
}

#[test]
fn key_indices_at_the_group_borders() {
    assert_eq!(Key::CapsLock.into_u8(), 0);
    assert_eq!(Key::Fn.into_u8(), 9);
    assert_eq!(Key::Return.into_u8(), 10);
    assert_eq!(Key::Slash.into_u8(), 26);
    assert_eq!(Key::End.into_u8(), 34);
    assert_eq!(Key::A.into_u8(), 35);
    assert_eq!(Key::Z.into_u8(), 60);
    assert_eq!(Key::N0.into_u8(), 61);
    assert_eq!(Key::Keypad0.into_u8(), 71);
    assert_eq!(Key::KeypadDecimal.into_u8(), 88);
    assert_eq!(Key::F1.into_u8(), 89);
    assert_eq!(Key::F12.into_u8(), 100);
    assert_eq!(Key::Mute.into_u8(), 106);
}

#[test]
fn from_u8_is_some_exactly_below_the_count() {
    for byte in 0..=255u8 {
        assert_eq!(Key::from_u8(byte).is_some(), byte < Key::count());
        assert_eq!(CommandCode::from_u8(byte).is_some(), byte < CommandCode::count());
        assert_eq!(MouseButton::from_u8(byte).is_some(), byte < MouseButton::count());
    }
}

#[test]
fn into_u8_undoes_from_u8() {
    for byte in 0..Key::count() {
        assert_eq!(Key::from_u8(byte).unwrap().into_u8(), byte);
    }
    for byte in 0..CommandCode::count() {
        assert_eq!(CommandCode::from_u8(byte).unwrap().into_u8(), byte);
    }
    for byte in 0..MouseButton::count() {
        assert_eq!(MouseButton::from_u8(byte).unwrap().into_u8(), byte);
    }
}

#[test]
fn from_u8_just_outside_the_range() {
    assert_eq!(Key::from_u8(106), Some(Key::Mute));
    assert_eq!(Key::from_u8(107), None);
    assert_eq!(CommandCode::from_u8(17), Some(CommandCode::UnicodeString));
    assert_eq!(CommandCode::from_u8(18), None);
    assert_eq!(MouseButton::from_u8(4), Some(MouseButton::Button5));
    assert_eq!(MouseButton::from_u8(5), None);
    assert_eq!(MouseButton::from_u8(255), None);
}

#[test]
fn iterator_visits_each_index_once_ascending() {
    let mut it = Key::iter();
    let mut seen: u32 = 0;
    loop {
        match it.next() {
            Some(key) => {
                assert_eq!(u32::from(key.into_u8()), seen);
                seen += 1;
            }
            None => break,
        }
    }
    assert_eq!(seen, 107);
    assert_eq!(it.next(), None);
    assert_eq!(it.next(), None);
}

#[test]
fn iterator_is_restartable() {
    let mut first = MouseButton::iter();
    assert_eq!(first.next(), Some(MouseButton::Left));
    assert_eq!(first.next(), Some(MouseButton::Middle));
    let mut second = MouseButton::iter();
    assert_eq!(second.next(), Some(MouseButton::Left));
    assert_eq!(first.next(), Some(MouseButton::Right));
}

#[test]
fn iterator_size_hint_counts_down() {
    let mut it: EnumIterator<MouseButton> = EnumIterator::new();
    assert_eq!(it.size_hint(), (5, Some(5)));
    it.next();
    assert_eq!(it.size_hint(), (4, Some(4)));
    it.next();
    it.next();
    it.next();
    it.next();
    assert_eq!(it.size_hint(), (0, Some(0)));
    assert_eq!(it.next(), None);
    assert_eq!(it.size_hint(), (0, Some(0)));
}

#[test]
fn variants_lists_all_in_order() {
    assert_eq!(
        variants::<MouseButton>(),
        vec![
            MouseButton::Left,
            MouseButton::Middle,
            MouseButton::Right,
            MouseButton::Button4,
            MouseButton::Button5
        ]
    );
    let codes = variants::<CommandCode>();
    assert_eq!(codes.len(), 18);
    assert_eq!(codes[0], CommandCode::Delay);
    assert_eq!(codes[17], CommandCode::UnicodeString);
    let keys = variants::<Key>();
    assert_eq!(keys.len(), 107);
    for (index, key) in keys.iter().enumerate() {
        assert_eq!(usize::from(key.into_u8()), index);
    }
}
