//! The mapping from characters to the key and modifiers that type them.
//!
//! The mapping is built from a table of what the keyboard layout answers for
//! every modifier combination and every key code. A character that several
//! keys type is mapped to the first of them in the order of the table.

use vstd::prelude::*;
use std::collections::HashMap;
use crate::error::GenericError;
use crate::iokit as io;

verus! {

broadcast use vstd::std_specs::hash::group_hash_axioms;

/// The bit of the shift key in the modifiers of a [`KeyInfo`].
pub const SHIFT_BIT: u32 = 0;

/// The bit of the option key in the modifiers of a [`KeyInfo`].
pub const OPTION_BIT: u32 = 1;

/// The number of key codes that the layout is asked about.
pub const KEY_CODES: usize = 128;

/// The bit of the shift key in the modifier state that the layout is asked
/// with, before that state is shifted right by eight.
#[allow(non_upper_case_globals)]
pub const shiftKeyBit: u32 = 9;

/// The bit of the option key in the modifier state that the layout is asked
/// with, before that state is shifted right by eight.
#[allow(non_upper_case_globals)]
pub const optionKeyBit: u32 = 11;

/// The number of answers in a layout table.
pub const LAYOUT_SIZE: usize = 512;

/// The code point of the line feed character.
pub const LINE_FEED: u32 = 0x0A;

/// A key code with the modifier combination to hold while it is pressed.
#[derive(Copy, Clone, PartialEq, Eq, Structural, Debug)]
pub struct KeyInfo {
    pub key_code: u8,
    pub modifiers: u8,
}

/// The one code point that a UTF-16 string stands for, if it stands for
/// exactly one: a single unit that is no surrogate, or a high surrogate
/// followed by a low one.
pub open spec fn scalar_of(units: Seq<u16>) -> Option<u32> {
    if units.len() == 1 && !(0xD800 <= units[0] <= 0xDFFF) {
        Some(units[0] as u32)
    } else if units.len() == 2 && 0xD800 <= units[0] <= 0xDBFF && 0xDC00 <= units[1] <= 0xDFFF {
        Some((0x10000 + (units[0] - 0xD800) * 0x400 + (units[1] - 0xDC00)) as u32)
    } else {
        None
    }
}

/// The modifier state to ask the layout with for a modifier combination:
/// the shift bit and the option bit of the combination, each moved to its
/// place in the layout's own numbering.
pub open spec fn modifier_state_of(modifiers: u8) -> u32 {
    ((modifiers as u32 & 1) << 1) | ((modifiers as u32 & 2) << 2)
}

/// The key and modifiers at a place of the layout table, which lists all key
/// codes for the first modifier combination, then for the second, and so on.
pub open spec fn info_at(index: int) -> KeyInfo {
    KeyInfo { key_code: (index % 128) as u8, modifiers: (index / 128) as u8 }
}

/// The mapping after the first `n` answers of the table: each character goes
/// to the first place that answers with it.
pub open spec fn scanned(layout: Seq<Vec<u16>>, n: int) -> Map<u32, KeyInfo>
    decreases n,
{
    if n <= 0 {
        Map::empty()
    } else {
        let before = scanned(layout, n - 1);
        match scalar_of(layout[n - 1]@) {
            Some(c) => if before.contains_key(c) {
                before
            } else {
                before.insert(c, info_at(n - 1))
            },
            None => before,
        }
    }
}

/// The mapping for a layout table: what the scan of the whole table gives,
/// but with the line feed on the return key without modifiers, whatever the
/// layout answers.
pub open spec fn key_map_of(layout: Seq<Vec<u16>>) -> Map<u32, KeyInfo> {
    scanned(layout, layout.len() as int).insert(
        LINE_FEED,
        KeyInfo { key_code: io::kVK_Return, modifiers: 0 },
    )
}

/// The first place wins: the scan maps a character exactly where some place
/// among the first `n` answers with it, and maps it to the first such place.
pub proof fn lemma_first_place_wins(layout: Seq<Vec<u16>>, n: int, c: u32)
    requires
        0 <= n <= layout.len(),
    ensures
        scanned(layout, n).contains_key(c) <==> exists|i: int|
            0 <= i < n && scalar_of(#[trigger] layout[i]@) == Some(c),
        scanned(layout, n).contains_key(c) ==> exists|i: int|
            {
                &&& 0 <= i < n
                &&& scalar_of(#[trigger] layout[i]@) == Some(c)
                &&& scanned(layout, n)[c] == info_at(i)
                &&& forall|j: int| 0 <= j < i ==> scalar_of(#[trigger] layout[j]@) != Some(c)
            },
    decreases n,
{
    if n > 0 {
        lemma_first_place_wins(layout, n - 1, c);
        let before = scanned(layout, n - 1);
        if before.contains_key(c) {
            let i = choose|i: int|
                {
                    &&& 0 <= i < n - 1
                    &&& scalar_of(#[trigger] layout[i]@) == Some(c)
                    &&& before[c] == info_at(i)
                    &&& forall|j: int| 0 <= j < i ==> scalar_of(#[trigger] layout[j]@) != Some(c)
                };
            assert(0 <= i < n && scalar_of(layout[i]@) == Some(c));
        } else if scalar_of(layout[n - 1]@) == Some(c) {
            assert(scanned(layout, n)[c] == info_at(n - 1));
            assert forall|j: int| 0 <= j < n - 1 implies scalar_of(#[trigger] layout[j]@) != Some(
                c,
            ) by {
                if scalar_of(layout[j]@) == Some(c) {
                    assert(0 <= j < n - 1 && scalar_of(layout[j]@) == Some(c));
                }
            }
        } else {
            assert forall|i: int| 0 <= i < n implies scalar_of(#[trigger] layout[i]@) != Some(
                c,
            ) by {
                if i < n - 1 && scalar_of(layout[i]@) == Some(c) {
                    assert(0 <= i < n - 1 && scalar_of(layout[i]@) == Some(c));
                }
            }
        }
    }
}

/// The key code and the modifier combination of a place of the layout table,
/// or `None` for an index behind the table.
pub fn place(index: usize) -> (r: Option<KeyInfo>)
    ensures
        r.is_some() <==> index < LAYOUT_SIZE,
        r.is_some() ==> r.unwrap() == info_at(index as int),
{
    if index < LAYOUT_SIZE {
        Some(KeyInfo { key_code: (index % KEY_CODES) as u8, modifiers: (index / KEY_CODES) as u8 })
    } else {
        None
    }
}

/// The modifier state to ask the layout with for a modifier combination.
pub fn modifier_state(modifiers: u8) -> (state: u32)
    ensures
        state == modifier_state_of(modifiers),
        state == (if modifiers as u32 & 1 != 0 {
            2u32
        } else {
            0u32
        }) + (if modifiers as u32 & 2 != 0 {
            8u32
        } else {
            0u32
        }),
{
    let index: u32 = modifiers as u32;
    let shift_mask: u32 = 1u32 << SHIFT_BIT;
    let option_mask: u32 = 1u32 << OPTION_BIT;
    let shift_bit: u32 = (index & shift_mask) << (shiftKeyBit - SHIFT_BIT - 8);
    let option_bit: u32 = (index & option_mask) << (optionKeyBit - OPTION_BIT - 8);
    let state: u32 = shift_bit | option_bit;
    assert(shift_mask == 1 && option_mask == 2) by (bit_vector)
        requires
            shift_mask == 1u32 << 0u32,
            option_mask == 1u32 << 1u32,
    ;
    assert(state == (if index & 1 != 0 {
        2u32
    } else {
        0u32
    }) + (if index & 2 != 0 {
        8u32
    } else {
        0u32
    })) by (bit_vector)
        requires
            state == ((index & 1) << 1u32) | ((index & 2) << 2u32),
    ;
    state
}

/// Decodes a UTF-16 string that stands for exactly one code point.
pub fn single_scalar(units: &[u16]) -> (r: Option<u32>)
    ensures
        r == scalar_of(units@),
{
    if units.len() == 1 {
        let unit: u16 = units[0];
        if 0xD800 <= unit && unit <= 0xDFFF {
            None
        } else {
            Some(unit as u32)
        }
    } else if units.len() == 2 {
        let high: u16 = units[0];
        let low: u16 = units[1];
        if 0xD800 <= high && high <= 0xDBFF && 0xDC00 <= low && low <= 0xDFFF {
            Some(0x10000 + (high as u32 - 0xD800) * 0x400 + (low as u32 - 0xDC00))
        } else {
            None
        }
    } else {
        None
    }
}

/// Maps characters to the key and modifiers that type them.
pub struct KeyMap {
    map: HashMap<u32, KeyInfo>,
}

impl View for KeyMap {
    type V = Map<u32, KeyInfo>;

    /// The mapping, from the code point of a character.
    closed spec fn view(&self) -> Map<u32, KeyInfo> {
        self.map@
    }
}

impl KeyMap {
    /// The key and modifiers that type a character, if the layout has any.
    pub fn get(&self, ch: char) -> (r: Option<KeyInfo>)
        ensures
            r == (if self.supports(ch) {
                Some(self.info_of(ch))
            } else {
                None
            }),
    {
        let code: u32 = ch as u32;
        match self.map.get(&code) {
            Some(info) => Some(*info),
            None => None,
        }
    }

    /// Whether the layout has a key for a character.
    pub open spec fn supports(&self, ch: char) -> bool {
        self@.contains_key(ch as u32)
    }

    /// The key and modifiers that type a character which the layout has a
    /// key for.
    pub open spec fn info_of(&self, ch: char) -> KeyInfo {
        self@[ch as u32]
    }

    /// The key and modifiers that type a character, or the error that says
    /// that the layout has no key for it.
    pub fn key_for<P>(&self, ch: char) -> (r: Result<KeyInfo, GenericError<P>>)
        ensures
            self.supports(ch) ==> r == Ok::<KeyInfo, GenericError<P>>(self.info_of(ch)),
            !self.supports(ch) ==> r == Err::<KeyInfo, GenericError<P>>(
                GenericError::UnsupportedUnicode(ch),
            ),
    {
        match self.get(ch) {
            Some(info) => Ok(info),
            None => Err(GenericError::UnsupportedUnicode(ch)),
        }
    }

    /// The keys and modifiers that type the characters of a string, one for
    /// each character in order. Where the layout has no key for a character,
    /// the whole request fails with the first such character, and nothing
    /// is handed out for the characters before it.
    pub fn keys_for<P>(&self, s: &str) -> (r: Result<Vec<KeyInfo>, GenericError<P>>)
        ensures
            match r {
                Ok(infos) => {
                    &&& infos@.len() == s@.len()
                    &&& forall|i: int| 0 <= i < s@.len() ==> self.supports(#[trigger] s@[i])
                    &&& forall|i: int|
                        0 <= i < s@.len() ==> #[trigger] infos@[i] == self.info_of(s@[i])
                },
                Err(e) => exists|i: int|
                    {
                        &&& 0 <= i < s@.len()
                        &&& e == GenericError::<P>::UnsupportedUnicode(#[trigger] s@[i])
                        &&& !self.supports(s@[i])
                        &&& forall|j: int| 0 <= j < i ==> self.supports(#[trigger] s@[j])
                    },
            },
    {
        let len: usize = s.unicode_len();
        let mut infos: Vec<KeyInfo> = Vec::new();
        let mut index: usize = 0;
        while index < len
            invariant
                len == s@.len(),
                index <= len,
                infos@.len() == index,
                forall|i: int| 0 <= i < index ==> self.supports(#[trigger] s@[i]),
                forall|i: int| 0 <= i < index ==> #[trigger] infos@[i] == self.info_of(s@[i]),
            decreases len - index,
        {
            let ch: char = s.get_char(index);
            match self.get(ch) {
                Some(info) => {
                    infos.push(info);
                },
                None => {
                    assert(s@[index as int] == ch);
                    return Err(GenericError::UnsupportedUnicode(ch));
                },
            }
            index += 1;
        }
        Ok(infos)
    }
}

/// Builds the mapping from a layout table. The table holds, for each of the
/// four modifier combinations in turn, the layout's answer for each of the
/// 128 key codes, as a UTF-16 string. A table of another size is no layout
/// table and gives `None`.
pub fn create_key_map(layout: &Vec<Vec<u16>>) -> (r: Option<KeyMap>)
    ensures
        r.is_some() <==> layout@.len() == LAYOUT_SIZE,
        r.is_some() ==> r.unwrap()@ == key_map_of(layout@),
{
    if layout.len() != LAYOUT_SIZE {
        return None;
    }
    let mut map: HashMap<u32, KeyInfo> = HashMap::new();
    let mut index: usize = 0;
    while index < LAYOUT_SIZE
        invariant
            layout@.len() == LAYOUT_SIZE,
            index <= LAYOUT_SIZE,
            map@ == scanned(layout@, index as int),
        decreases LAYOUT_SIZE - index,
    {
        match single_scalar(layout[index].as_slice()) {
            Some(c) => {
                if !map.contains_key(&c) {
                    map.insert(
                        c,
                        KeyInfo {
                            key_code: (index % KEY_CODES) as u8,
                            modifiers: (index / KEY_CODES) as u8,
                        },
                    );
                }
            },
            None => {},
        }
        index += 1;
    }
    map.insert(LINE_FEED, KeyInfo { key_code: io::kVK_Return, modifiers: 0 });
    Some(KeyMap { map })
}

} // verus!
