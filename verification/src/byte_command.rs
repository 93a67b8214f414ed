//! The byte encoding of commands.
//!
//! A command is a tag byte followed by a payload whose shape the tag fixes.
//! Coordinates and offsets travel as signed 16-bit integers, high byte first.

use vstd::prelude::*;
use crate::command::Command;
use crate::enumeration::Enum;
use crate::key::Key;
use crate::mouse_button::MouseButton;

verus! {

/// The tag of an encoded command. The order of the variants fixes the tag
/// bytes, starting at zero.
#[derive(Copy, Clone, PartialEq, Eq, Structural, Debug)]
pub enum CommandCode {
    KeyDown,
    KeyUp,
    KeyClick,
    MouseMoveRel,
    MouseMoveAbs,
    MouseWarp,
    MouseScroll,
    MouseDown,
    MouseUp,
    MouseClick,
}

/// Why a buffer does not decode to a command.
#[derive(Copy, Clone, PartialEq, Eq, Structural, Debug)]
pub enum ParseByteCommandError {
    /// The tag byte names no command.
    InvalidCommandCode(u8),
    /// The key byte names no key.
    InvalidKey(u8),
    /// The button byte names no mouse button.
    InvalidMouseButton(u8),
    /// The buffer ends before the command does.
    BufferTooShort { required: usize, actual: usize },
}

impl CommandCode {
    /// The number of tags.
    pub const COUNT: u8 = 10;

    /// The tag byte.
    pub open spec fn index_spec(self) -> nat {
        match self {
            CommandCode::KeyDown => 0,
            CommandCode::KeyUp => 1,
            CommandCode::KeyClick => 2,
            CommandCode::MouseMoveRel => 3,
            CommandCode::MouseMoveAbs => 4,
            CommandCode::MouseWarp => 5,
            CommandCode::MouseScroll => 6,
            CommandCode::MouseDown => 7,
            CommandCode::MouseUp => 8,
            CommandCode::MouseClick => 9,
        }
    }

    /// The tag with the given byte, for a byte below the count.
    pub open spec fn at(byte: u8) -> CommandCode {
        match byte {
            0 => CommandCode::KeyDown,
            1 => CommandCode::KeyUp,
            2 => CommandCode::KeyClick,
            3 => CommandCode::MouseMoveRel,
            4 => CommandCode::MouseMoveAbs,
            5 => CommandCode::MouseWarp,
            6 => CommandCode::MouseScroll,
            7 => CommandCode::MouseDown,
            8 => CommandCode::MouseUp,
            _ => CommandCode::MouseClick,
        }
    }

    /// The length in bytes of a command with this tag, the tag included.
    pub open spec fn length_spec(self) -> nat {
        match self {
            CommandCode::KeyDown => 3,
            CommandCode::KeyUp => 2,
            CommandCode::KeyClick => 2,
            CommandCode::MouseMoveRel => 5,
            CommandCode::MouseMoveAbs => 5,
            CommandCode::MouseWarp => 5,
            CommandCode::MouseScroll => 5,
            CommandCode::MouseDown => 3,
            CommandCode::MouseUp => 3,
            CommandCode::MouseClick => 3,
        }
    }

    /// The tag byte of this tag.
    pub fn into_u8(self) -> (byte: u8)
        ensures
            byte == self.index_spec(),
            byte < CommandCode::COUNT,
            CommandCode::at(byte) == self,
    {
        match self {
            CommandCode::KeyDown => 0,
            CommandCode::KeyUp => 1,
            CommandCode::KeyClick => 2,
            CommandCode::MouseMoveRel => 3,
            CommandCode::MouseMoveAbs => 4,
            CommandCode::MouseWarp => 5,
            CommandCode::MouseScroll => 6,
            CommandCode::MouseDown => 7,
            CommandCode::MouseUp => 8,
            CommandCode::MouseClick => 9,
        }
    }

    /// The length in bytes of a command with this tag, the tag included.
    pub fn length(self) -> (n: usize)
        ensures
            n == self.length_spec(),
            2 <= n <= 5,
    {
        match self {
            CommandCode::KeyDown => 3,
            CommandCode::KeyUp | CommandCode::KeyClick => 2,
            CommandCode::MouseMoveRel
            | CommandCode::MouseMoveAbs
            | CommandCode::MouseWarp
            | CommandCode::MouseScroll => 5,
            CommandCode::MouseDown | CommandCode::MouseUp | CommandCode::MouseClick => 3,
        }
    }
}

/// The signed 16-bit integer whose high byte is `byte_0` and whose low byte is
/// `byte_1`, in two's complement.
pub open spec fn int_of_bytes(byte_0: u8, byte_1: u8) -> int {
    let word = byte_0 as int * 256 + byte_1 as int;
    if word >= 32768 {
        word - 65536
    } else {
        word
    }
}

/// Decodes a signed 16-bit integer, high byte first, and widens it.
pub fn parse_int(byte_0: u8, byte_1: u8) -> (value: i32)
    ensures
        value == int_of_bytes(byte_0, byte_1),
        -32768 <= value <= 32767,
{
    let high: u16 = byte_0 as u16;
    let low: u16 = byte_1 as u16;
    let word: u16 = (high << 8) | low;
    let narrow: i16 = #[verifier::truncate] (word as i16);
    assert(word == high * 256 + low) by (bit_vector)
        requires
            word == (high << 8) | low,
            high < 256,
            low < 256,
    ;
    assert(narrow == if word >= 32768 { word - 65536 } else { word as int }) by (bit_vector)
        requires
            narrow == word as i16,
    ;
    narrow as i32
}

/// The tag that a byte stands for, or the error for a byte that names none.
pub open spec fn command_code_of(byte: u8) -> Result<CommandCode, ParseByteCommandError> {
    if byte < CommandCode::COUNT {
        Ok(CommandCode::at(byte))
    } else {
        Err(ParseByteCommandError::InvalidCommandCode(byte))
    }
}

/// The key that a byte stands for, or the error for a byte that names none.
pub open spec fn key_of(byte: u8) -> Result<Key, ParseByteCommandError> {
    match Key::from_index_spec(byte) {
        Some(key) => Ok(key),
        None => Err(ParseByteCommandError::InvalidKey(byte)),
    }
}

/// The mouse button that a byte stands for, or the error for a byte that
/// names none.
pub open spec fn mouse_button_of(byte: u8) -> Result<MouseButton, ParseByteCommandError> {
    match MouseButton::from_index_spec(byte) {
        Some(button) => Ok(button),
        None => Err(ParseByteCommandError::InvalidMouseButton(byte)),
    }
}

/// What the payload of a command with tag `code` decodes to, for a buffer
/// that is long enough for that tag.
pub open spec fn payload_of(code: CommandCode, buf: Seq<u8>) -> Result<
    (Command, usize),
    ParseByteCommandError,
> {
    match code {
        CommandCode::KeyDown => match key_of(buf[1]) {
            Ok(key) => Ok((Command::KeyDown(key, buf[2] != 0), 3)),
            Err(e) => Err(e),
        },
        CommandCode::KeyUp => match key_of(buf[1]) {
            Ok(key) => Ok((Command::KeyUp(key), 2)),
            Err(e) => Err(e),
        },
        CommandCode::KeyClick => match key_of(buf[1]) {
            Ok(key) => Ok((Command::KeyClick(key), 2)),
            Err(e) => Err(e),
        },
        CommandCode::MouseMoveRel => Ok(
            (
                Command::MouseMoveRel(
                    int_of_bytes(buf[1], buf[2]) as i32,
                    int_of_bytes(buf[3], buf[4]) as i32,
                ),
                5,
            ),
        ),
        CommandCode::MouseMoveAbs => Ok(
            (
                Command::MouseMoveAbs(
                    int_of_bytes(buf[1], buf[2]) as i32,
                    int_of_bytes(buf[3], buf[4]) as i32,
                ),
                5,
            ),
        ),
        CommandCode::MouseWarp => Ok(
            (
                Command::MouseWarp(
                    int_of_bytes(buf[1], buf[2]) as i32,
                    int_of_bytes(buf[3], buf[4]) as i32,
                ),
                5,
            ),
        ),
        CommandCode::MouseScroll => Ok(
            (
                Command::MouseScroll(
                    int_of_bytes(buf[1], buf[2]) as i32,
                    int_of_bytes(buf[3], buf[4]) as i32,
                ),
                5,
            ),
        ),
        CommandCode::MouseDown => match mouse_button_of(buf[1]) {
            Ok(button) => Ok((Command::MouseDown(button, buf[2] as u32), 3)),
            Err(e) => Err(e),
        },
        CommandCode::MouseUp => match mouse_button_of(buf[1]) {
            Ok(button) => Ok((Command::MouseUp(button, buf[2] as u32), 3)),
            Err(e) => Err(e),
        },
        CommandCode::MouseClick => match mouse_button_of(buf[1]) {
            Ok(button) => Ok((Command::MouseClick(button, buf[2] as u32), 3)),
            Err(e) => Err(e),
        },
    }
}

/// What a buffer decodes to: the command at its start and the number of bytes
/// that the command takes, or the first fault found. The checks come in this
/// order: an empty buffer, the tag byte, the length that the tag asks for,
/// the key or button byte.
pub open spec fn parse_spec(buf: Seq<u8>) -> Result<(Command, usize), ParseByteCommandError> {
    if buf.len() == 0 {
        Err(ParseByteCommandError::BufferTooShort { required: 1, actual: 0 })
    } else {
        match command_code_of(buf[0]) {
            Err(e) => Err(e),
            Ok(code) => if buf.len() < code.length_spec() {
                Err(
                    ParseByteCommandError::BufferTooShort {
                        required: code.length_spec() as usize,
                        actual: buf.len() as usize,
                    },
                )
            } else {
                payload_of(code, buf)
            },
        }
    }
}

/// Decodes a tag byte.
pub fn parse_command_code(byte: u8) -> (r: Result<CommandCode, ParseByteCommandError>)
    ensures
        r == command_code_of(byte),
{
    match byte {
        0 => Ok(CommandCode::KeyDown),
        1 => Ok(CommandCode::KeyUp),
        2 => Ok(CommandCode::KeyClick),
        3 => Ok(CommandCode::MouseMoveRel),
        4 => Ok(CommandCode::MouseMoveAbs),
        5 => Ok(CommandCode::MouseWarp),
        6 => Ok(CommandCode::MouseScroll),
        7 => Ok(CommandCode::MouseDown),
        8 => Ok(CommandCode::MouseUp),
        9 => Ok(CommandCode::MouseClick),
        _ => Err(ParseByteCommandError::InvalidCommandCode(byte)),
    }
}

/// Decodes a key byte.
pub fn parse_key(byte: u8) -> (r: Result<Key, ParseByteCommandError>)
    ensures
        r == key_of(byte),
{
    match Key::from_u8(byte) {
        Some(key) => Ok(key),
        None => Err(ParseByteCommandError::InvalidKey(byte)),
    }
}

/// Decodes a mouse button byte.
pub fn parse_mouse_button(byte: u8) -> (r: Result<MouseButton, ParseByteCommandError>)
    ensures
        r == mouse_button_of(byte),
{
    match MouseButton::from_u8(byte) {
        Some(button) => Ok(button),
        None => Err(ParseByteCommandError::InvalidMouseButton(byte)),
    }
}

/// Accepts a buffer of at least `len` bytes; a shorter one is an error that
/// carries both `len` and the buffer's own length.
pub fn check_buffer_length(buf: &[u8], len: usize) -> (r: Result<(), ParseByteCommandError>)
    ensures
        buf@.len() >= len ==> r == Ok::<(), ParseByteCommandError>(()),
        buf@.len() < len ==> r == Err::<(), ParseByteCommandError>(
            ParseByteCommandError::BufferTooShort { required: len, actual: buf@.len() as usize },
        ),
{
    if buf.len() >= len {
        Ok(())
    } else {
        Err(ParseByteCommandError::BufferTooShort { required: len, actual: buf.len() })
    }
}

/// Decodes the command at the start of `buf`. On success the result holds the
/// command and the number of bytes that it took; bytes after those are not
/// looked at. The buffer is only read.
pub fn parse_byte_command(buf: &[u8]) -> (r: Result<(Command, usize), ParseByteCommandError>)
    ensures
        r == parse_spec(buf@),
{
    if buf.len() == 0 {
        return Err(ParseByteCommandError::BufferTooShort { required: 1, actual: 0 });
    }
    let code = match parse_command_code(buf[0]) {
        Ok(code) => code,
        Err(e) => {
            return Err(e);
        },
    };
    match check_buffer_length(buf, code.length()) {
        Ok(()) => {},
        Err(e) => {
            return Err(e);
        },
    }
    match code {
        CommandCode::KeyDown => match parse_key(buf[1]) {
            Ok(key) => Ok((Command::KeyDown(key, buf[2] != 0), 3)),
            Err(e) => Err(e),
        },
        CommandCode::KeyUp => match parse_key(buf[1]) {
            Ok(key) => Ok((Command::KeyUp(key), 2)),
            Err(e) => Err(e),
        },
        CommandCode::KeyClick => match parse_key(buf[1]) {
            Ok(key) => Ok((Command::KeyClick(key), 2)),
            Err(e) => Err(e),
        },
        CommandCode::MouseMoveRel => Ok(
            (Command::MouseMoveRel(parse_int(buf[1], buf[2]), parse_int(buf[3], buf[4])), 5),
        ),
        CommandCode::MouseMoveAbs => Ok(
            (Command::MouseMoveAbs(parse_int(buf[1], buf[2]), parse_int(buf[3], buf[4])), 5),
        ),
        CommandCode::MouseWarp => Ok(
            (Command::MouseWarp(parse_int(buf[1], buf[2]), parse_int(buf[3], buf[4])), 5),
        ),
        CommandCode::MouseScroll => Ok(
            (Command::MouseScroll(parse_int(buf[1], buf[2]), parse_int(buf[3], buf[4])), 5),
        ),
        CommandCode::MouseDown => match parse_mouse_button(buf[1]) {
            Ok(button) => Ok((Command::MouseDown(button, buf[2] as u32), 3)),
            Err(e) => Err(e),
        },
        CommandCode::MouseUp => match parse_mouse_button(buf[1]) {
            Ok(button) => Ok((Command::MouseUp(button, buf[2] as u32), 3)),
            Err(e) => Err(e),
        },
        CommandCode::MouseClick => match parse_mouse_button(buf[1]) {
            Ok(button) => Ok((Command::MouseClick(button, buf[2] as u32), 3)),
            Err(e) => Err(e),
        },
    }
}

/// The tag under which a command is encoded.
pub open spec fn code_of(command: Command) -> CommandCode {
    match command {
        Command::KeyDown(_, _) => CommandCode::KeyDown,
        Command::KeyUp(_) => CommandCode::KeyUp,
        Command::KeyClick(_) => CommandCode::KeyClick,
        Command::MouseMoveRel(_, _) => CommandCode::MouseMoveRel,
        Command::MouseMoveAbs(_, _) => CommandCode::MouseMoveAbs,
        Command::MouseWarp(_, _) => CommandCode::MouseWarp,
        Command::MouseScroll(_, _) => CommandCode::MouseScroll,
        Command::MouseDown(_, _) => CommandCode::MouseDown,
        Command::MouseUp(_, _) => CommandCode::MouseUp,
        Command::MouseClick(_, _) => CommandCode::MouseClick,
    }
}

/// Whether a value fits a signed 16-bit integer.
pub open spec fn fits_i16(value: int) -> bool {
    -32768 <= value <= 32767
}

/// Whether the encoding can carry a command: coordinates and offsets must fit
/// a signed 16-bit integer, a click count one byte.
pub open spec fn representable(command: Command) -> bool {
    match command {
        Command::KeyDown(_, _) | Command::KeyUp(_) | Command::KeyClick(_) => true,
        Command::MouseMoveRel(x, y)
        | Command::MouseMoveAbs(x, y)
        | Command::MouseWarp(x, y)
        | Command::MouseScroll(x, y) => fits_i16(x as int) && fits_i16(y as int),
        Command::MouseDown(_, count)
        | Command::MouseUp(_, count)
        | Command::MouseClick(_, count) => count <= 255,
    }
}

/// The unsigned 16-bit word that stands for a signed 16-bit value.
pub open spec fn word_of(value: int) -> int {
    if value < 0 {
        value + 65536
    } else {
        value
    }
}

/// The two bytes of a signed 16-bit value, high byte first.
pub open spec fn bytes_of_int(value: int) -> Seq<u8> {
    seq![(word_of(value) / 256) as u8, (word_of(value) % 256) as u8]
}

/// The payload of an encoded command: all bytes after the tag.
pub open spec fn payload_bytes(command: Command) -> Seq<u8> {
    match command {
        Command::KeyDown(key, repeat) => seq![
            key.index_spec() as u8,
            if repeat {
                1u8
            } else {
                0u8
            },
        ],
        Command::KeyUp(key) | Command::KeyClick(key) => seq![key.index_spec() as u8],
        Command::MouseMoveRel(x, y)
        | Command::MouseMoveAbs(x, y)
        | Command::MouseWarp(x, y)
        | Command::MouseScroll(x, y) => bytes_of_int(x as int) + bytes_of_int(y as int),
        Command::MouseDown(button, count)
        | Command::MouseUp(button, count)
        | Command::MouseClick(button, count) => seq![button.index_spec() as u8, count as u8],
    }
}

/// The encoding of a representable command: its tag byte, then its payload.
pub open spec fn serialize_spec(command: Command) -> Seq<u8> {
    seq![code_of(command).index_spec() as u8] + payload_bytes(command)
}

/// Appends the two bytes of a signed 16-bit value, high byte first.
fn push_int(out: &mut Vec<u8>, value: i32)
    requires
        fits_i16(value as int),
    ensures
        final(out)@ == old(out)@ + bytes_of_int(value as int),
{
    let word: i32 = if value < 0 {
        value + 65536
    } else {
        value
    };
    out.push((word / 256) as u8);
    out.push((word % 256) as u8);
    assert(out@ =~= old(out)@ + bytes_of_int(value as int));
}

/// The tag under which a command is encoded.
pub fn command_code(command: &Command) -> (code: CommandCode)
    ensures
        code == code_of(*command),
{
    match command {
        Command::KeyDown(_, _) => CommandCode::KeyDown,
        Command::KeyUp(_) => CommandCode::KeyUp,
        Command::KeyClick(_) => CommandCode::KeyClick,
        Command::MouseMoveRel(_, _) => CommandCode::MouseMoveRel,
        Command::MouseMoveAbs(_, _) => CommandCode::MouseMoveAbs,
        Command::MouseWarp(_, _) => CommandCode::MouseWarp,
        Command::MouseScroll(_, _) => CommandCode::MouseScroll,
        Command::MouseDown(_, _) => CommandCode::MouseDown,
        Command::MouseUp(_, _) => CommandCode::MouseUp,
        Command::MouseClick(_, _) => CommandCode::MouseClick,
    }
}

/// Whether the encoding can carry the command.
pub fn is_representable(command: &Command) -> (b: bool)
    ensures
        b == representable(*command),
{
    match command {
        Command::KeyDown(_, _) | Command::KeyUp(_) | Command::KeyClick(_) => true,
        Command::MouseMoveRel(x, y)
        | Command::MouseMoveAbs(x, y)
        | Command::MouseWarp(x, y)
        | Command::MouseScroll(x, y) => -32768 <= *x && *x <= 32767 && -32768 <= *y && *y
            <= 32767,
        Command::MouseDown(_, count)
        | Command::MouseUp(_, count)
        | Command::MouseClick(_, count) => *count <= 255,
    }
}

/// Encodes a command, or returns `None` for one that the encoding cannot
/// carry.
pub fn serialize_byte_command(command: &Command) -> (r: Option<Vec<u8>>)
    ensures
        r.is_some() <==> representable(*command),
        r.is_some() ==> r.unwrap()@ == serialize_spec(*command),
{
    if !is_representable(command) {
        return None;
    }
    let mut out: Vec<u8> = Vec::new();
    out.push(command_code(command).into_u8());
    match command {
        Command::KeyDown(key, repeat) => {
            out.push(key.into_u8());
            out.push(if *repeat { 1 } else { 0 });
        },
        Command::KeyUp(key) | Command::KeyClick(key) => {
            out.push(key.into_u8());
        },
        Command::MouseMoveRel(x, y)
        | Command::MouseMoveAbs(x, y)
        | Command::MouseWarp(x, y)
        | Command::MouseScroll(x, y) => {
            push_int(&mut out, *x);
            push_int(&mut out, *y);
        },
        Command::MouseDown(button, count)
        | Command::MouseUp(button, count)
        | Command::MouseClick(button, count) => {
            out.push(button.into_u8());
            out.push(*count as u8);
        },
    }
    assert(out@ =~= serialize_spec(*command));
    Some(out)
}

/// A signed 16-bit value is what its two bytes decode to.
pub proof fn lemma_int_round_trip(value: int)
    requires
        fits_i16(value),
    ensures
        int_of_bytes(bytes_of_int(value)[0], bytes_of_int(value)[1]) == value,
{
}

/// The encoding of a command is as long as its tag says.
pub proof fn lemma_serialized_length(command: Command)
    ensures
        serialize_spec(command).len() == code_of(command).length_spec(),
{
}

/// Decoding undoes encoding: a buffer that starts with the encoding of a
/// representable command decodes to that command and to the length of its
/// encoding, whatever follows in the buffer.
pub proof fn lemma_round_trip(command: Command, rest: Seq<u8>)
    requires
        representable(command),
    ensures
        parse_spec(serialize_spec(command) + rest) == Ok::<
            (Command, usize),
            ParseByteCommandError,
        >((command, serialize_spec(command).len() as usize)),
{
    let buf = serialize_spec(command) + rest;
    let code = code_of(command);
    assert(buf[0] == code.index_spec());
    assert(CommandCode::at(buf[0]) == code);
    match command {
        Command::KeyDown(key, repeat) => {
            key.variant_round_trip();
            assert(buf[1] == key.index_spec());
            assert(buf[2] == if repeat { 1u8 } else { 0u8 });
        },
        Command::KeyUp(key) | Command::KeyClick(key) => {
            key.variant_round_trip();
            assert(buf[1] == key.index_spec());
        },
        Command::MouseMoveRel(x, y)
        | Command::MouseMoveAbs(x, y)
        | Command::MouseWarp(x, y)
        | Command::MouseScroll(x, y) => {
            lemma_int_round_trip(x as int);
            lemma_int_round_trip(y as int);
            assert(buf[1] == bytes_of_int(x as int)[0]);
            assert(buf[2] == bytes_of_int(x as int)[1]);
            assert(buf[3] == bytes_of_int(y as int)[0]);
            assert(buf[4] == bytes_of_int(y as int)[1]);
        },
        Command::MouseDown(button, count)
        | Command::MouseUp(button, count)
        | Command::MouseClick(button, count) => {
            button.variant_round_trip();
            assert(buf[1] == button.index_spec());
            assert(buf[2] == count);
        },
    }
}

/// A buffer that is shorter than the command at its start is rejected as
/// too short, and the error carries the buffer's own length. The length
/// asked for is that of the tag, or one where not even the tag is there.
pub proof fn lemma_short_buffer_rejected(buf: Seq<u8>, code: CommandCode)
    requires
        buf.len() < code.length_spec(),
        buf.len() > 0 ==> buf[0] == code.index_spec(),
    ensures
        parse_spec(buf) == Err::<(Command, usize), ParseByteCommandError>(
            ParseByteCommandError::BufferTooShort {
                required: if buf.len() == 0 {
                    1
                } else {
                    code.length_spec() as usize
                },
                actual: buf.len() as usize,
            },
        ),
{
}

} // verus!
