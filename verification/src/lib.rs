//! A quadboard is a collection of four bitboards (`u64`s, here called
//! *channels*) used to store 64 independent four-bit values, most commonly
//! information about piece positions on a chess board.
//!
//! Bit `i` of channel `k` is bit `k` of the value stored at slot `i`, so
//! each 4-bit vertical section of the four channels is one [`Nibble`].
//! Reads and writes are branch-free functions of the index and the channel
//! words.
//!
//! # Typed and untyped quadboards
//! Since a quadboard is really just four bitboards, it is effectively an
//! untyped fixed-length buffer; the [`RawQuadboard`] struct reflects this
//! usage and stores bare nibbles with no concern for their interpretation.
//! In actual use a quadboard is meant to represent a `[T; 64]` for some
//! `T`, so the [`Quadboard`] struct wraps a [`RawQuadboard`] with an
//! element type whose values are carried to and from their 4-bit codes by
//! the [`ToNibble`], [`FromNibble`] and [`EmptyNibble`] capabilities.

use core::marker::PhantomData;
use vstd::prelude::*;

pub mod index;
pub mod nibble;
pub mod raw_quadboard;

pub use crate::nibble::InvalidNibbleError;
pub use crate::nibble::Nibble;

use crate::index::Index;
use crate::nibble::lemma_nibble_of_view;
use crate::nibble::nibble_of;
use crate::raw_quadboard::RawQuadboard;

verus! {

/// The capability of an element type to encode itself as a 4-bit code.
///
/// The encoding must be total: every value of the type has a code.
pub trait ToNibble {
    /// The 4-bit code that `self` encodes to.
    spec fn to_nibble_spec(&self) -> u8;

    /// Encodes `self` as a [`Nibble`].
    fn to_nibble(&self) -> (n: Nibble)
        ensures
            n@ == self.to_nibble_spec(),
    ;
}

/// The capability of an element type to decode itself from a 4-bit code.
///
/// The decoding may be partial: a code that corresponds to no value of the
/// type decodes to an error of the type's choosing.
pub trait FromNibble: Sized {
    /// The error produced when a code decodes to no value.
    type Error;

    /// The value that `code` decodes to, if there is one.
    spec fn from_nibble_spec(code: u8) -> Option<Self>;

    /// Decodes a [`Nibble`], failing exactly on the codes that decode to
    /// no value.
    fn from_nibble(n: Nibble) -> (r: Result<Self, Self::Error>)
        ensures
            r is Ok <==> Self::from_nibble_spec(n@) is Some,
            r is Ok ==> Some(r->Ok_0) == Self::from_nibble_spec(n@),
    ;
}

/// The capability of an element type to name a canonical "empty" code,
/// used to fill a fresh [`Quadboard`].
pub trait EmptyNibble {
    /// The canonical empty code.
    spec fn empty_nibble_spec() -> u8;

    /// Returns the nibble carrying the canonical empty code.
    fn empty_nibble() -> (n: Nibble)
        ensures
            n@ == Self::empty_nibble_spec(),
    ;
}

impl ToNibble for Nibble {
    open spec fn to_nibble_spec(&self) -> u8 {
        self@
    }

    /// A nibble encodes as itself.
    fn to_nibble(&self) -> (n: Nibble) {
        *self
    }
}

impl FromNibble for Nibble {
    type Error = InvalidNibbleError;

    open spec fn from_nibble_spec(code: u8) -> Option<Nibble> {
        if code < 16 {
            Some(nibble_of(code))
        } else {
            None
        }
    }

    /// Every 4-bit code decodes, to the nibble holding it.
    fn from_nibble(n: Nibble) -> (r: Result<Nibble, InvalidNibbleError>) {
        proof {
            use_type_invariant(&n);
            lemma_nibble_of_view(n);
        }
        Ok(n)
    }
}

impl EmptyNibble for Nibble {
    open spec fn empty_nibble_spec() -> u8 {
        0
    }

    /// The canonical empty nibble is zero.
    fn empty_nibble() -> (n: Nibble) {
        Nibble::new_unchecked(0)
    }
}

/// A fixed-length 32-byte buffer of 64 `T` values, each packed into four
/// bits of the underlying [`RawQuadboard`].
#[derive(Debug, Copy, PartialEq, Eq)]
pub struct Quadboard<T> {
    inner: RawQuadboard,
    _data: PhantomData<T>,
}

impl<T> Clone for Quadboard<T> {
    /// A quadboard is cloned by copying its channel words.
    fn clone(&self) -> (r: Self)
        ensures
            r == *self,
    {
        Quadboard { inner: self.inner, _data: PhantomData }
    }
}

impl<T> View for Quadboard<T> {
    type V = Seq<u8>;

    /// A typed quadboard is viewed as the sequence of the 64 stored codes.
    closed spec fn view(&self) -> Seq<u8> {
        self.inner@
    }
}

impl<T> Quadboard<T> {
    /// The underlying raw quadboard.
    pub closed spec fn spec_raw(self) -> RawQuadboard {
        self.inner
    }

    /// A typed quadboard stores exactly what its raw quadboard stores.
    pub proof fn lemma_view_is_raw_view(self)
        ensures
            self@ == self.spec_raw()@,
            self@.len() == 64,
    {
        self.inner.lemma_view_is_channel_encoding();
    }

    /// A quadboard over the all-zero store: every slot holds code 0.
    pub fn new() -> (r: Self)
        ensures
            r@ == Seq::new(64, |i: int| 0u8),
    {
        Quadboard { inner: RawQuadboard::default(), _data: PhantomData }
    }

    /// A quadboard with every slot holding `T`'s canonical empty code.
    pub fn empty() -> (r: Self) where T: EmptyNibble
        ensures
            r@ == Seq::new(64, |i: int| T::empty_nibble_spec()),
    {
        let r = Quadboard::<T> {
            inner: RawQuadboard::splat(T::empty_nibble()),
            _data: PhantomData,
        };
        proof {
            assert(r@ =~= Seq::new(64, |i: int| T::empty_nibble_spec()));
        }
        r
    }

    /// Returns the value decoded from the slot at the given [`Index`].
    pub fn get(&self, index: Index) -> (r: Result<T, T::Error>) where T: FromNibble
        ensures
            r is Ok <==> T::from_nibble_spec(self@[index@ as int]) is Some,
            r is Ok ==> Some(r->Ok_0) == T::from_nibble_spec(self@[index@ as int]),
    {
        self.get_unchecked(index.get())
    }

    /// Reads the [`Nibble`] at slot `index` and decodes it through
    /// `T::from_nibble`, propagating the decoding's error unchanged.
    pub fn get_unchecked(&self, index: u8) -> (r: Result<T, T::Error>) where T: FromNibble
        requires
            index < 64,
        ensures
            r is Ok <==> T::from_nibble_spec(self@[index as int]) is Some,
            r is Ok ==> Some(r->Ok_0) == T::from_nibble_spec(self@[index as int]),
    {
        let nibble = self.inner.get_unchecked(index);
        T::from_nibble(nibble)
    }

    /// Encodes `value` and writes the resulting code to the slot at the
    /// given [`Index`].
    pub fn set(&mut self, index: Index, value: T) where T: ToNibble
        ensures
            final(self)@ == old(self)@.update(index@ as int, value.to_nibble_spec()),
    {
        self.set_unchecked(index.get(), value);
    }

    /// Encodes `value` through `T::to_nibble` and writes the resulting
    /// code to slot `index`.
    pub fn set_unchecked(&mut self, index: u8, value: T) where T: ToNibble
        requires
            index < 64,
        ensures
            final(self)@ == old(self)@.update(index as int, value.to_nibble_spec()),
    {
        let nibble = value.to_nibble();
        self.inner.set_unchecked(index, nibble);
    }

    /// Decodes all 64 slots eagerly, in slot order; each element is
    /// computed independently from the slot's code alone.
    pub fn to_vec(&self) -> (r: Vec<Result<T, T::Error>>) where T: FromNibble
        ensures
            r@.len() == 64,
            forall|i: int|
                0 <= i < 64 ==> ((#[trigger] r@[i]) is Ok <==> T::from_nibble_spec(self@[i])
                    is Some),
            forall|i: int|
                0 <= i < 64 ==> ((#[trigger] r@[i]) is Ok ==> Some(r@[i]->Ok_0)
                    == T::from_nibble_spec(self@[i])),
    {
        let mut out: Vec<Result<T, T::Error>> = Vec::new();
        let mut i: u8 = 0;
        while i < 64
            invariant
                i <= 64,
                out@.len() == i as int,
                forall|j: int|
                    0 <= j < i as int ==> ((#[trigger] out@[j]) is Ok <==> T::from_nibble_spec(
                        self@[j],
                    ) is Some),
                forall|j: int|
                    0 <= j < i as int ==> ((#[trigger] out@[j]) is Ok ==> Some(out@[j]->Ok_0)
                        == T::from_nibble_spec(self@[j])),
            decreases 64 - i as int,
        {
            out.push(self.get_unchecked(i));
            i = i + 1;
        }
        out
    }

    /// Returns a reference to the underlying [`RawQuadboard`].
    pub fn as_raw_quadboard(&self) -> (r: &RawQuadboard)
        ensures
            *r == self.spec_raw(),
            r@ == self@,
    {
        &self.inner
    }
}

impl<T: EmptyNibble> Default for Quadboard<T> {
    /// A default quadboard is filled with `T`'s canonical empty code.
    fn default() -> (r: Self)
        ensures
            r@ == Seq::new(64, |i: int| T::empty_nibble_spec()),
    {
        Quadboard::empty()
    }
}

/// Empty fill: in a quadboard created by [`Quadboard::empty`], every slot
/// holds the canonical empty code, so a read at any index decodes exactly
/// as that code does.
pub proof fn lemma_empty_fill<T: EmptyNibble + FromNibble>(qb: Quadboard<T>, i: int)
    requires
        qb@ == Seq::new(64, |j: int| T::empty_nibble_spec()),
        0 <= i < 64,
    ensures
        T::from_nibble_spec(qb@[i]) == T::from_nibble_spec(T::empty_nibble_spec()),
{
}

} // verus!
