//! Closed enumerations with a dense numeric encoding and named variants.

use vstd::prelude::*;
use std::marker::PhantomData;

verus! {

/// An enumeration whose variants are numbered densely from zero.
///
/// The variants and the indices below the count correspond one to one:
/// `from_index_spec` and `index_spec` undo each other, which the two proof
/// functions of the trait state.
pub trait Enum: Copy + Sized {
    /// The name of the enumeration itself.
    spec fn name_spec() -> Seq<char>;

    /// The number of variants.
    spec fn count_spec() -> nat;

    /// The index of a variant.
    spec fn index_spec(self) -> nat;

    /// The variant with the given index, if there is one.
    spec fn from_index_spec(index: u8) -> Option<Self>;

    /// The name of a variant as shown to people.
    spec fn display_name_spec(self) -> Seq<char>;

    /// The name of a variant as written in source text.
    spec fn identifier_name_spec(self) -> Seq<char>;

    /// An index belongs to a variant exactly where it lies below the count,
    /// and that variant has this index.
    proof fn index_round_trip(index: u8)
        ensures
            Self::from_index_spec(index).is_some() <==> index < Self::count_spec(),
            Self::from_index_spec(index).is_some() ==> Self::from_index_spec(
                index,
            ).unwrap().index_spec() == index,
    ;

    /// The index of a variant lies below the count, which fits a byte, and
    /// leads back to the variant.
    proof fn variant_round_trip(self)
        ensures
            self.index_spec() < Self::count_spec(),
            Self::count_spec() <= 255,
            Self::from_index_spec(self.index_spec() as u8) == Some(self),
    ;

    /// The name of the enumeration.
    fn name() -> (s: &'static str)
        ensures
            s@ == Self::name_spec(),
    ;

    /// The number of variants in the enumeration.
    fn count() -> (n: u8)
        ensures
            n == Self::count_spec(),
    ;

    /// The display name of this variant: the one for end users, which may
    /// hold spaces and punctuation.
    fn display_name(&self) -> (s: &'static str)
        ensures
            s@ == self.display_name_spec(),
    ;

    /// The identifier name of this variant: a stable token without spaces.
    fn identifier_name(&self) -> (s: &'static str)
        ensures
            s@ == self.identifier_name_spec(),
    ;

    /// The variant with the given index, or `None` where the byte is not
    /// below the count.
    fn from_u8(byte: u8) -> (r: Option<Self>)
        ensures
            r == Self::from_index_spec(byte),
    ;

    /// The index of this variant.
    fn into_u8(self) -> (byte: u8)
        ensures
            byte == self.index_spec(),
    ;

    /// A fresh iterator over the variants, standing before the first one.
    fn iter() -> (it: EnumIterator<Self>)
        ensures
            it.position() == 0,
    {
        EnumIterator::new()
    }
}

/// Two variants with the same index are the same variant.
pub proof fn lemma_index_injective<E: Enum>(a: E, b: E)
    requires
        a.index_spec() == b.index_spec(),
    ensures
        a == b,
{
    a.variant_round_trip();
    b.variant_round_trip();
}

/// Walks the variants of an [`Enum`] in ascending order of index.
pub struct EnumIterator<E> {
    index: u8,
    phantom: PhantomData<E>,
}

impl<E> EnumIterator<E> {
    /// The index of the variant that the next call of `next` yields.
    pub closed spec fn position(&self) -> nat {
        self.index as nat
    }

    /// An iterator that stands before the first variant.
    pub fn new() -> (it: Self)
        ensures
            it.position() == 0,
    {
        EnumIterator { index: 0, phantom: PhantomData }
    }
}

impl<E: Enum> EnumIterator<E> {
    /// Yields the variant at the current position and steps past it, or
    /// yields `None` and stays where every variant has been visited.
    pub fn next(&mut self) -> (r: Option<E>)
        ensures
            r == E::from_index_spec(old(self).position() as u8),
            r.is_some() <==> old(self).position() < E::count_spec(),
            r.is_some() ==> final(self).position() == old(self).position() + 1,
            r.is_none() ==> final(self).position() == old(self).position(),
    {
        let ret = E::from_u8(self.index);
        proof {
            E::index_round_trip(self.index);
            if ret.is_some() {
                ret.unwrap().variant_round_trip();
            }
        }
        if ret.is_some() {
            self.index += 1;
        }
        ret
    }

    /// The number of variants still to come, as a lower and an upper bound.
    pub fn size_hint(&self) -> (r: (usize, Option<usize>))
        ensures
            r.0 == remaining(E::count_spec(), self.position()),
            r.1 == Some(r.0),
    {
        let count: u8 = E::count();
        let size: usize = if count >= self.index {
            (count - self.index) as usize
        } else {
            0
        };
        (size, Some(size))
    }
}

/// How many of `count` variants are still to come at `position`.
pub open spec fn remaining(count: nat, position: nat) -> nat {
    if position <= count {
        (count - position) as nat
    } else {
        0
    }
}

/// All variants of `E` in ascending order of index: as many as the count
/// says, and at each place the variant with that index.
pub fn variants<E: Enum>() -> (v: Vec<E>)
    ensures
        v@.len() == E::count_spec(),
        forall|i: int|
            0 <= i < v@.len() ==> E::from_index_spec(i as u8) == Some(#[trigger] v@[i]),
        forall|i: int| 0 <= i < v@.len() ==> (#[trigger] v@[i]).index_spec() == i,
{
    let mut it = E::iter();
    let mut v: Vec<E> = Vec::new();
    loop
        invariant
            it.position() <= E::count_spec(),
            v@.len() == it.position(),
            forall|i: int|
                0 <= i < v@.len() ==> E::from_index_spec(i as u8) == Some(#[trigger] v@[i]),
            forall|i: int| 0 <= i < v@.len() ==> (#[trigger] v@[i]).index_spec() == i,
        ensures
            v@.len() == E::count_spec(),
        decreases E::count_spec() - it.position(),
    {
        proof {
            E::index_round_trip(it.position() as u8);
        }
        match it.next() {
            Some(e) => {
                v.push(e);
            },
            None => {
                break ;
            },
        }
    }
    v
}

} // verus!
