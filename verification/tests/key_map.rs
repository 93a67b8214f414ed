use tfc::GenericError;
use tfc::key_map::{
    create_key_map, modifier_state, place, single_scalar, KeyInfo, LAYOUT_SIZE,
};

fn empty_layout() -> Vec<Vec<u16>> {
    vec![Vec::new(); LAYOUT_SIZE]
}

fn units(s: &str) -> Vec<u16> {
    s.encode_utf16().collect()
}

#[test]
fn layout_of_the_wrong_size_is_refused() {
    assert!(create_key_map(&Vec::new()).is_none());
    assert!(create_key_map(&vec![Vec::new(); 511]).is_none());
    assert!(create_key_map(&vec![Vec::new(); 513]).is_none());
    assert!(create_key_map(&empty_layout()).is_some());
}

#[test]
fn line_feed_is_always_the_return_key() {
    let map = create_key_map(&empty_layout()).unwrap();
    assert_eq!(map.get('\n'), Some(KeyInfo { key_code: 0x24, modifiers: 0 }));
    let mut layout = empty_layout();
    layout[5] = units("\n");
    layout[128 + 7] = units("\n");
    let map = create_key_map(&layout).unwrap();
    assert_eq!(map.get('\n'), Some(KeyInfo { key_code: 0x24, modifiers: 0 }));
}

#[test]
fn place_in_the_table_gives_key_code_and_modifiers() {
    let mut layout = empty_layout();
    layout[0] = units("a");
    layout[127] = units("b");
    layout[128] = units("A");
    layout[2 * 128 + 3] = units("å");
    layout[3 * 128 + 127] = units("Å");
    let map = create_key_map(&layout).unwrap();
    assert_eq!(map.get('a'), Some(KeyInfo { key_code: 0, modifiers: 0 }));
    assert_eq!(map.get('b'), Some(KeyInfo { key_code: 127, modifiers: 0 }));
    assert_eq!(map.get('A'), Some(KeyInfo { key_code: 0, modifiers: 1 }));
    assert_eq!(map.get('å'), Some(KeyInfo { key_code: 3, modifiers: 2 }));
    assert_eq!(map.get('Å'), Some(KeyInfo { key_code: 127, modifiers: 3 }));
    assert_eq!(map.get('z'), None);
}

#[test]
fn first_place_wins() {
    let mut layout = empty_layout();
    layout[40] = units("x");
    layout[12] = units("x");
    layout[128 + 1] = units("x");
    let map = create_key_map(&layout).unwrap();
    assert_eq!(map.get('x'), Some(KeyInfo { key_code: 12, modifiers: 0 }));
}

#[test]
fn answers_that_are_not_one_character_are_skipped() {
    let mut layout = empty_layout();
    layout[1] = units("ab");
    layout[2] = vec![0xD800];
    layout[3] = vec![0xDC00, 0xD800];
    layout[4] = units("abc");
    layout[5] = units("c");
    let map = create_key_map(&layout).unwrap();
    assert_eq!(map.get('a'), None);
    assert_eq!(map.get('b'), None);
    assert_eq!(map.get('c'), Some(KeyInfo { key_code: 5, modifiers: 0 }));
}

#[test]
fn a_surrogate_pair_is_one_character() {
    let mut layout = empty_layout();
    layout[128 + 9] = units("😀");
    let map = create_key_map(&layout).unwrap();
    assert_eq!(map.get('😀'), Some(KeyInfo { key_code: 9, modifiers: 1 }));
}

#[test]
fn single_scalar_decodes_as_the_standard_decoder() {
    assert_eq!(single_scalar(&[]), None);
    assert_eq!(single_scalar(&[0x61]), Some(0x61));
    assert_eq!(single_scalar(&[0xD7FF]), Some(0xD7FF));
    assert_eq!(single_scalar(&[0xD800]), None);
    assert_eq!(single_scalar(&[0xDFFF]), None);
    assert_eq!(single_scalar(&[0xE000]), Some(0xE000));
    assert_eq!(single_scalar(&[0xFFFF]), Some(0xFFFF));
    assert_eq!(single_scalar(&[0xD83D, 0xDE00]), Some(0x1F600));
    assert_eq!(single_scalar(&[0xD800, 0xDC00]), Some(0x10000));
    assert_eq!(single_scalar(&[0xDBFF, 0xDFFF]), Some(0x10FFFF));
    assert_eq!(single_scalar(&[0xDC00, 0xDC00]), None);
    assert_eq!(single_scalar(&[0xD800, 0x61]), None);
    assert_eq!(single_scalar(&[0x61, 0x62]), None);
    assert_eq!(single_scalar(&[0x61, 0x62, 0x63]), None);
}

#[test]
fn single_scalar_agrees_with_decode_utf16() {
    let samples: Vec<Vec<u16>> = vec![
        vec![0x41],
        vec![0xD800],
        vec![0xD83D, 0xDE00],
        vec![0xDE00, 0xD83D],
        vec![0x41, 0x42],
        vec![0xD83D, 0xDE00, 0x41],
        vec![],
    ];
    for sample in samples {
        let decoded: Vec<_> = std::char::decode_utf16(sample.iter().cloned()).collect();
        let expected = if decoded.len() == 1 {
            decoded[0].as_ref().ok().map(|ch| *ch as u32)
        } else {
            None
        };
        assert_eq!(single_scalar(&sample), expected);
    }
}

#[test]
fn keys_for_gives_one_key_for_each_character() {
    let mut layout = empty_layout();
    layout[4] = units("h");
    layout[34] = units("i");
    layout[128 + 18] = units("!");
    let map = create_key_map(&layout).unwrap();
    assert_eq!(
        map.keys_for::<u32>("hi!\n"),
        Ok(vec![
            KeyInfo { key_code: 4, modifiers: 0 },
            KeyInfo { key_code: 34, modifiers: 0 },
            KeyInfo { key_code: 18, modifiers: 1 },
            KeyInfo { key_code: 0x24, modifiers: 0 },
        ])
    );
    assert_eq!(map.keys_for::<u32>(""), Ok(vec![]));
}

#[test]
fn keys_for_fails_as_a_whole_with_the_first_unsupported_character() {
    let mut layout = empty_layout();
    layout[4] = units("h");
    layout[34] = units("i");
    let map = create_key_map(&layout).unwrap();
    assert_eq!(map.keys_for::<u32>("hi?h!"), Err(GenericError::UnsupportedUnicode('?')));
    assert_eq!(map.keys_for::<u32>("é"), Err(GenericError::UnsupportedUnicode('é')));
    assert_eq!(map.key_for::<u32>('h'), Ok(KeyInfo { key_code: 4, modifiers: 0 }));
    assert_eq!(map.key_for::<u32>('?'), Err(GenericError::UnsupportedUnicode('?')));
}

#[test]
fn modifier_state_moves_shift_and_option_to_their_places() {
    assert_eq!(modifier_state(0), 0);
    assert_eq!(modifier_state(1), 2);
    assert_eq!(modifier_state(2), 8);
    assert_eq!(modifier_state(3), 10);
    assert_eq!(modifier_state(7), 10);
}

#[test]
fn place_walks_key_codes_then_modifier_combinations() {
    assert_eq!(place(0), Some(KeyInfo { key_code: 0, modifiers: 0 }));
    assert_eq!(place(127), Some(KeyInfo { key_code: 127, modifiers: 0 }));
    assert_eq!(place(128), Some(KeyInfo { key_code: 0, modifiers: 1 }));
    assert_eq!(place(300), Some(KeyInfo { key_code: 44, modifiers: 2 }));
    assert_eq!(place(511), Some(KeyInfo { key_code: 127, modifiers: 3 }));
    assert_eq!(place(512), None);
}
