use tfc::iokit;
use tfc::keyboard::{aux_key, to_key_code, update_modifiers, KeyCode};
use tfc::Key;

#[test]
fn caps_lock_is_the_toggle_key() {
    assert_eq!(to_key_code(Key::CapsLock), KeyCode::CapsLock);
}

#[test]
fn modifier_keys_carry_their_own_mask() {
    assert_eq!(to_key_code(Key::Shift), KeyCode::Modifier(0x38, 0x0000_0002));
    assert_eq!(to_key_code(Key::RightShift), KeyCode::Modifier(0x3C, 0x0000_0004));
    assert_eq!(to_key_code(Key::Control), KeyCode::Modifier(0x3B, 0x0000_0001));
    assert_eq!(to_key_code(Key::RightControl), KeyCode::Modifier(0x3E, 0x0000_2000));
    assert_eq!(to_key_code(Key::Alt), KeyCode::Modifier(0x3A, 0x0000_0020));
    assert_eq!(to_key_code(Key::RightAlt), KeyCode::Modifier(0x3D, 0x0000_0040));
    assert_eq!(to_key_code(Key::Meta), KeyCode::Modifier(0x37, 0x0000_0008));
    assert_eq!(to_key_code(Key::RightMeta), KeyCode::Modifier(0x36, 0x0000_0010));
    assert_eq!(to_key_code(Key::Fn), KeyCode::Modifier(0x3F, 0x0080_0000));
}

#[test]
fn regular_keys_have_a_key_code() {
    assert_eq!(to_key_code(Key::A), KeyCode::Regular(0x00));
    assert_eq!(to_key_code(Key::Z), KeyCode::Regular(0x06));
    assert_eq!(to_key_code(Key::N0), KeyCode::Regular(0x1D));
    assert_eq!(to_key_code(Key::N5), KeyCode::Regular(0x17));
    assert_eq!(to_key_code(Key::Return), KeyCode::Regular(0x24));
    assert_eq!(to_key_code(Key::Space), KeyCode::Regular(0x31));
    assert_eq!(to_key_code(Key::Delete), KeyCode::Regular(0x33));
    assert_eq!(to_key_code(Key::ForwardDelete), KeyCode::Regular(0x75));
    assert_eq!(to_key_code(Key::UpArrow), KeyCode::Regular(0x7E));
    assert_eq!(to_key_code(Key::Keypad9), KeyCode::Regular(0x5C));
    assert_eq!(to_key_code(Key::KeypadEnter), KeyCode::Regular(0x4C));
    assert_eq!(to_key_code(Key::F1), KeyCode::Regular(0x7A));
    assert_eq!(to_key_code(Key::F12), KeyCode::Regular(0x6F));
}

#[test]
fn media_keys_have_an_auxiliary_type() {
    assert_eq!(to_key_code(Key::FastForward), KeyCode::Media(19));
    assert_eq!(to_key_code(Key::Rewind), KeyCode::Media(20));
    assert_eq!(to_key_code(Key::PlayPause), KeyCode::Media(16));
    assert_eq!(to_key_code(Key::VolumeUp), KeyCode::Media(0));
    assert_eq!(to_key_code(Key::VolumeDown), KeyCode::Media(1));
    assert_eq!(to_key_code(Key::Mute), KeyCode::Media(7));
}

#[test]
fn every_regular_key_code_is_below_128() {
    for index in 0..107u8 {
        let key = <Key as tfc::Enum>::from_u8(index).unwrap();
        if let KeyCode::Regular(code) = to_key_code(key) {
            assert!(code < 128);
        }
    }
}

#[test]
fn aux_key_packs_three_fields() {
    assert_eq!(aux_key(16, 10, false), 1_051_136);
    assert_eq!(aux_key(16, 10, true), 1_051_137);
    assert_eq!(aux_key(16, 11, false), 1_051_392);
    assert_eq!(aux_key(4, 10, false), 264_704);
    assert_eq!(aux_key(0, 10, false), 2_560);
    assert_eq!(aux_key(0, 0, false), 0);
    assert_eq!(aux_key(0, 0, true), 1);
    assert_eq!(aux_key(255, 255, true), 0x00FF_FF01);
}

#[test]
fn aux_key_with_a_wide_event_type_wraps() {
    assert_eq!(aux_key(0, 0x0100_0000, false), 0);
    assert_eq!(aux_key(0, 0x0080_0000, false), i32::MIN);
    assert_eq!(aux_key(1, 0x100, false), 0x0001_0000);
}

#[test]
fn update_modifiers_sets_the_combined_bit() {
    let mut m: u32 = iokit::NX_DEVICELSHIFTKEYMASK;
    update_modifiers(
        &mut m,
        iokit::NX_DEVICELSHIFTKEYMASK,
        iokit::NX_DEVICERSHIFTKEYMASK,
        iokit::NX_SHIFTMASK,
    );
    assert_eq!(m, 0x0002_0002);
    let mut m: u32 = iokit::NX_DEVICERSHIFTKEYMASK;
    update_modifiers(
        &mut m,
        iokit::NX_DEVICELSHIFTKEYMASK,
        iokit::NX_DEVICERSHIFTKEYMASK,
        iokit::NX_SHIFTMASK,
    );
    assert_eq!(m, 0x0002_0004);
}

#[test]
fn update_modifiers_clears_the_combined_bit() {
    let mut m: u32 = iokit::NX_SHIFTMASK | iokit::NX_ALPHASHIFTMASK;
    update_modifiers(
        &mut m,
        iokit::NX_DEVICELSHIFTKEYMASK,
        iokit::NX_DEVICERSHIFTKEYMASK,
        iokit::NX_SHIFTMASK,
    );
    assert_eq!(m, iokit::NX_ALPHASHIFTMASK);
}

#[test]
fn update_modifiers_leaves_other_pairs_alone() {
    let mut m: u32 = iokit::NX_DEVICELCTLKEYMASK | iokit::NX_CONTROLMASK;
    update_modifiers(
        &mut m,
        iokit::NX_DEVICELSHIFTKEYMASK,
        iokit::NX_DEVICERSHIFTKEYMASK,
        iokit::NX_SHIFTMASK,
    );
    assert_eq!(m, 0x0004_0001);
}
