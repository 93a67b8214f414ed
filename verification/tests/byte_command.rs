use tfc::byte_command::{
    check_buffer_length, parse_byte_command, parse_command_code, parse_int, parse_key,
    parse_mouse_button, serialize_byte_command, CommandCode, ParseByteCommandError,
};
use tfc::{Command, Enum, Key, MouseButton};

#[test]
fn parse_key_down_with_repeat() {
    let key = Key::from_u8(5).unwrap();
    assert_eq!(key, Key::RightShift);
    assert_eq!(parse_byte_command(&[0, 5, 1]), Ok((Command::KeyDown(key, true), 3)));
}

#[test]
fn parse_key_down_without_repeat() {
    assert_eq!(parse_byte_command(&[0, 35, 0]), Ok((Command::KeyDown(Key::A, false), 3)));
}

#[test]
fn parse_key_down_any_nonzero_repeat_byte_is_true() {
    assert_eq!(parse_byte_command(&[0, 0, 200]), Ok((Command::KeyDown(Key::CapsLock, true), 3)));
}

#[test]
fn parse_mouse_move_rel_negative() {
    assert_eq!(
        parse_byte_command(&[3, 0xFF, 0xF6, 0, 10]),
        Ok((Command::MouseMoveRel(-10, 10), 5))
    );
}

#[test]
fn parse_mouse_click() {
    let button = MouseButton::from_u8(2).unwrap();
    assert_eq!(button, MouseButton::Right);
    assert_eq!(parse_byte_command(&[9, 2, 1]), Ok((Command::MouseClick(button, 1), 3)));
}

#[test]
fn parse_empty_buffer() {
    assert_eq!(
        parse_byte_command(&[]),
        Err(ParseByteCommandError::BufferTooShort { required: 1, actual: 0 })
    );
}

#[test]
fn parse_invalid_command_code() {
    assert_eq!(parse_byte_command(&[250]), Err(ParseByteCommandError::InvalidCommandCode(250)));
    assert_eq!(parse_byte_command(&[10, 0, 0]), Err(ParseByteCommandError::InvalidCommandCode(10)));
}

#[test]
fn parse_invalid_key() {
    assert_eq!(parse_byte_command(&[1, 107]), Err(ParseByteCommandError::InvalidKey(107)));
    assert_eq!(parse_byte_command(&[0, 255, 0]), Err(ParseByteCommandError::InvalidKey(255)));
}

#[test]
fn parse_invalid_mouse_button() {
    assert_eq!(parse_byte_command(&[7, 5, 1]), Err(ParseByteCommandError::InvalidMouseButton(5)));
}

#[test]
fn parse_truncated_buffers_report_both_lengths() {
    assert_eq!(
        parse_byte_command(&[0, 5]),
        Err(ParseByteCommandError::BufferTooShort { required: 3, actual: 2 })
    );
    assert_eq!(
        parse_byte_command(&[1]),
        Err(ParseByteCommandError::BufferTooShort { required: 2, actual: 1 })
    );
    assert_eq!(
        parse_byte_command(&[4, 0, 0, 0]),
        Err(ParseByteCommandError::BufferTooShort { required: 5, actual: 4 })
    );
    assert_eq!(
        parse_byte_command(&[8, 1]),
        Err(ParseByteCommandError::BufferTooShort { required: 3, actual: 2 })
    );
}

#[test]
fn parse_checks_length_before_key() {
    assert_eq!(
        parse_byte_command(&[0, 200]),
        Err(ParseByteCommandError::BufferTooShort { required: 3, actual: 2 })
    );
}

#[test]
fn parse_ignores_trailing_bytes() {
    assert_eq!(parse_byte_command(&[2, 14, 9, 9, 9]), Ok((Command::KeyClick(Key::Tab), 2)));
}

#[test]
fn parse_every_tag() {
    assert_eq!(parse_byte_command(&[1, 3]), Ok((Command::KeyUp(Key::Alt), 2)));
    assert_eq!(parse_byte_command(&[4, 1, 0, 0, 2]), Ok((Command::MouseMoveAbs(256, 2), 5)));
    assert_eq!(
        parse_byte_command(&[5, 0x7F, 0xFF, 0x80, 0x00]),
        Ok((Command::MouseWarp(32767, -32768), 5))
    );
    assert_eq!(parse_byte_command(&[6, 0, 0, 0xFF, 0xFF]), Ok((Command::MouseScroll(0, -1), 5)));
    assert_eq!(
        parse_byte_command(&[7, 0, 255]),
        Ok((Command::MouseDown(MouseButton::Left, 255), 3))
    );
    assert_eq!(parse_byte_command(&[8, 1, 0]), Ok((Command::MouseUp(MouseButton::Middle, 0), 3)));
}

#[test]
fn serialize_key_up() {
    let key = Key::from_u8(3).unwrap();
    assert_eq!(serialize_byte_command(&Command::KeyUp(key)), Some(vec![1, 3]));
}

#[test]
fn serialize_each_shape() {
    assert_eq!(serialize_byte_command(&Command::KeyDown(Key::RightShift, true)), Some(vec![0, 5, 1]));
    assert_eq!(serialize_byte_command(&Command::KeyDown(Key::A, false)), Some(vec![0, 35, 0]));
    assert_eq!(serialize_byte_command(&Command::KeyClick(Key::Mute)), Some(vec![2, 106]));
    assert_eq!(
        serialize_byte_command(&Command::MouseMoveRel(-10, 10)),
        Some(vec![3, 0xFF, 0xF6, 0, 10])
    );
    assert_eq!(
        serialize_byte_command(&Command::MouseWarp(32767, -32768)),
        Some(vec![5, 0x7F, 0xFF, 0x80, 0x00])
    );
    assert_eq!(
        serialize_byte_command(&Command::MouseClick(MouseButton::Right, 1)),
        Some(vec![9, 2, 1])
    );
}

#[test]
fn serialize_rejects_what_does_not_fit() {
    assert_eq!(serialize_byte_command(&Command::MouseMoveAbs(32768, 0)), None);
    assert_eq!(serialize_byte_command(&Command::MouseScroll(0, -32769)), None);
    assert_eq!(serialize_byte_command(&Command::MouseDown(MouseButton::Left, 256)), None);
}

#[test]
fn round_trip_samples() {
    let samples = vec![
        Command::KeyDown(Key::Z, true),
        Command::KeyDown(Key::F12, false),
        Command::KeyUp(Key::CapsLock),
        Command::KeyClick(Key::Keypad9),
        Command::MouseMoveRel(-1, 1),
        Command::MouseMoveAbs(1920, 1080),
        Command::MouseWarp(-32768, 32767),
        Command::MouseScroll(0, -120),
        Command::MouseDown(MouseButton::Button4, 2),
        Command::MouseUp(MouseButton::Button5, 0),
        Command::MouseClick(MouseButton::Middle, 255),
    ];
    for command in samples {
        let bytes = serialize_byte_command(&command).unwrap();
        assert_eq!(parse_byte_command(&bytes), Ok((command, bytes.len())));
    }
}

#[test]
fn round_trip_every_key() {
    for index in 0..Key::count() {
        let key = Key::from_u8(index).unwrap();
        let bytes = serialize_byte_command(&Command::KeyUp(key)).unwrap();
        assert_eq!(bytes, vec![1, index]);
        assert_eq!(parse_byte_command(&bytes), Ok((Command::KeyUp(key), 2)));
    }
}

#[test]
fn parse_int_values() {
    assert_eq!(parse_int(0, 0), 0);
    assert_eq!(parse_int(0, 10), 10);
    assert_eq!(parse_int(1, 0), 256);
    assert_eq!(parse_int(0xFF, 0xF6), -10);
    assert_eq!(parse_int(0x7F, 0xFF), 32767);
    assert_eq!(parse_int(0x80, 0x00), -32768);
    assert_eq!(parse_int(0xFF, 0xFF), -1);
}

#[test]
fn parse_single_bytes() {
    assert_eq!(parse_command_code(5), Ok(CommandCode::MouseWarp));
    assert_eq!(parse_command_code(9), Ok(CommandCode::MouseClick));
    assert_eq!(parse_command_code(10), Err(ParseByteCommandError::InvalidCommandCode(10)));
    assert_eq!(parse_key(106), Ok(Key::Mute));
    assert_eq!(parse_key(107), Err(ParseByteCommandError::InvalidKey(107)));
    assert_eq!(parse_mouse_button(4), Ok(MouseButton::Button5));
    assert_eq!(parse_mouse_button(5), Err(ParseByteCommandError::InvalidMouseButton(5)));
}

#[test]
fn check_buffer_length_cases() {
    assert_eq!(check_buffer_length(&[1, 2, 3], 3), Ok(()));
    assert_eq!(check_buffer_length(&[1, 2, 3], 0), Ok(()));
    assert_eq!(
        check_buffer_length(&[1, 2], 3),
        Err(ParseByteCommandError::BufferTooShort { required: 3, actual: 2 })
    );
}

#[test]
fn command_code_tags_and_lengths() {
    assert_eq!(CommandCode::COUNT, 10);
    assert_eq!(CommandCode::KeyDown.into_u8(), 0);
    assert_eq!(CommandCode::MouseWarp.into_u8(), 5);
    assert_eq!(CommandCode::MouseClick.into_u8(), 9);
    assert_eq!(CommandCode::KeyDown.length(), 3);
    assert_eq!(CommandCode::KeyUp.length(), 2);
    assert_eq!(CommandCode::MouseScroll.length(), 5);
    assert_eq!(CommandCode::MouseUp.length(), 3);
}
