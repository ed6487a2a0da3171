//! Untyped quadboards storing [`Nibble`] values.
//!
//! The four channel words form a 64-row, 4-column bit matrix: bit `i` of
//! channel `k` is bit `k` of the value stored at slot `i`. Every read and
//! write is a branch-free function of the index and the channel words.

use crate::index::Index;
use crate::nibble::Nibble;
use vstd::prelude::*;

verus! {

/// Bit `i` of the channel word, shifted down to position 0.
pub open spec fn channel_bit(word: u64, i: u64) -> u64 {
    (word >> i) & 1
}

/// Bit `k` of the 4-bit value `v`, as a channel contribution.
pub open spec fn nibble_bit(v: u8, k: u64) -> u64 {
    ((v as u64) >> k) & 1
}

/// The 4-bit value encoded at slot `i` of the four channel words: bit `i`
/// of channel `k` supplies bit `k` of the result.
pub open spec fn nibble_at(channels: Seq<u64>, i: u64) -> u8
    recommends
        channels.len() == 4,
        i < 64,
{
    (channel_bit(channels[0], i) + channel_bit(channels[1], i) * 2 + channel_bit(channels[2], i)
        * 4 + channel_bit(channels[3], i) * 8) as u8
}

/// All 64 slot values of the given channel words, in slot order.
pub open spec fn nibbles_of(channels: Seq<u64>) -> Seq<u8>
    recommends
        channels.len() == 4,
{
    Seq::new(64, |i: int| nibble_at(channels, i as u64))
}

/// The channel word with bit `i` replaced by the single bit `b`.
pub open spec fn set_bit(word: u64, i: u64, b: u64) -> u64 {
    (word & !(1u64 << i)) | (b << i)
}

/// The channel words after writing the 4-bit value `v` at slot `i`: each
/// channel `k` has its bit `i` replaced by bit `k` of `v`.
pub open spec fn channels_with_set(channels: Seq<u64>, i: u64, v: u8) -> Seq<u64>
    recommends
        channels.len() == 4,
        i < 64,
{
    Seq::new(4, |k: int| set_bit(channels[k], i, nibble_bit(v, k as u64)))
}

/// The channel word produced by copying one bit across all 64 positions.
pub open spec fn splat_word(b: u64) -> u64
    recommends
        b < 2,
{
    if b == 1 {
        u64::MAX
    } else {
        0u64
    }
}

/// A 4-bit value below 16 is recovered exactly from its four bits.
proof fn lemma_nibble_recompose(v: u8)
    by (bit_vector)
    requires
        v < 16,
    ensures
        nibble_bit(v, 0) + nibble_bit(v, 1) * 2 + nibble_bit(v, 2) * 4 + nibble_bit(v, 3) * 8
            == v,
        nibble_bit(v, 0) < 2,
        nibble_bit(v, 1) < 2,
        nibble_bit(v, 2) < 2,
        nibble_bit(v, 3) < 2,
{
}

/// Replacing bit `i` of a word leaves every other bit as it was and makes
/// bit `i` equal to the written bit.
proof fn lemma_set_bit(word: u64, i: u64, j: u64, b: u64)
    by (bit_vector)
    requires
        i < 64,
        j < 64,
        b < 2,
    ensures
        channel_bit(set_bit(word, i, b), i) == b,
        j != i ==> channel_bit(set_bit(word, i, b), j) == channel_bit(word, j),
{
}

/// Every bit of the all-ones word is one; every bit of the zero word is zero.
proof fn lemma_uniform_word_bits(i: u64)
    by (bit_vector)
    requires
        i < 64,
    ensures
        channel_bit(u64::MAX, i) == 1,
        channel_bit(0u64, i) == 0,
{
}

/// Round-trip at channel level: after writing the 4-bit value `v` at slot
/// `i`, slot `i` of the resulting channel words reads back as `v`.
pub proof fn lemma_set_round_trip(channels: Seq<u64>, i: u64, v: u8)
    requires
        channels.len() == 4,
        i < 64,
        v < 16,
    ensures
        nibble_at(channels_with_set(channels, i, v), i) == v,
{
    let cs = channels_with_set(channels, i, v);
    lemma_nibble_recompose(v);
    lemma_set_bit(channels[0], i, i, nibble_bit(v, 0));
    lemma_set_bit(channels[1], i, i, nibble_bit(v, 1));
    lemma_set_bit(channels[2], i, i, nibble_bit(v, 2));
    lemma_set_bit(channels[3], i, i, nibble_bit(v, 3));
    assert(cs[0] == set_bit(channels[0], i, nibble_bit(v, 0)));
    assert(cs[1] == set_bit(channels[1], i, nibble_bit(v, 1)));
    assert(cs[2] == set_bit(channels[2], i, nibble_bit(v, 2)));
    assert(cs[3] == set_bit(channels[3], i, nibble_bit(v, 3)));
}

/// No cross-talk at channel level: writing any 4-bit value at slot `i`
/// leaves the value read at every other slot `j` unchanged.
pub proof fn lemma_set_preserves_others(channels: Seq<u64>, i: u64, j: u64, v: u8)
    requires
        channels.len() == 4,
        i < 64,
        j < 64,
        j != i,
        v < 16,
    ensures
        nibble_at(channels_with_set(channels, i, v), j) == nibble_at(channels, j),
{
    let cs = channels_with_set(channels, i, v);
    lemma_nibble_recompose(v);
    lemma_set_bit(channels[0], i, j, nibble_bit(v, 0));
    lemma_set_bit(channels[1], i, j, nibble_bit(v, 1));
    lemma_set_bit(channels[2], i, j, nibble_bit(v, 2));
    lemma_set_bit(channels[3], i, j, nibble_bit(v, 3));
    assert(cs[0] == set_bit(channels[0], i, nibble_bit(v, 0)));
    assert(cs[1] == set_bit(channels[1], i, nibble_bit(v, 1)));
    assert(cs[2] == set_bit(channels[2], i, nibble_bit(v, 2)));
    assert(cs[3] == set_bit(channels[3], i, nibble_bit(v, 3)));
}

/// An untyped quadboard, storing 64 [`Nibble`] values in four `u64`
/// channel words.
#[derive(Debug, Clone, Copy, PartialEq, Eq)]
pub struct RawQuadboard {
    channels: [u64; 4],
}

impl View for RawQuadboard {
    type V = Seq<u8>;

    /// A quadboard is viewed as the sequence of its 64 slot values.
    closed spec fn view(&self) -> Seq<u8> {
        nibbles_of(self.channels@)
    }
}

impl RawQuadboard {
    /// The four channel words, as a sequence of length 4.
    pub closed spec fn spec_channels(self) -> Seq<u64> {
        self.channels@
    }

    /// The view of a quadboard is exactly the per-slot decoding of its
    /// channel words.
    pub proof fn lemma_view_is_channel_encoding(self)
        ensures
            self.spec_channels().len() == 4,
            self@ == nibbles_of(self.spec_channels()),
    {
    }

    /// Consumes `self` and returns an array of the underlying `u64` channels.
    pub fn into_channels(self) -> (r: [u64; 4])
        ensures
            r@ == self.spec_channels(),
    {
        self.channels
    }

    /// Returns a reference to the underlying `u64` channels.
    pub fn as_channels(&self) -> (r: &[u64; 4])
        ensures
            r@ == self.spec_channels(),
    {
        &self.channels
    }

    /// Extracts the lower four bits of `value`, in increasing order of
    /// significance.
    fn lower_nibble_bits(value: u8) -> (r: (u64, u64, u64, u64))
        requires
            value < 16,
        ensures
            r.0 == nibble_bit(value, 0),
            r.1 == nibble_bit(value, 1),
            r.2 == nibble_bit(value, 2),
            r.3 == nibble_bit(value, 3),
            r.0 < 2,
            r.1 < 2,
            r.2 < 2,
            r.3 < 2,
    {
        let bit1 = (value & 0b0001) as u64;
        let bit2 = ((value & 0b0010) >> 1) as u64;
        let bit3 = ((value & 0b0100) >> 2) as u64;
        let bit4 = (value >> 3) as u64;
        proof {
            assert((value & 0b0001) as u64 == nibble_bit(value, 0) && nibble_bit(value, 0) < 2)
                by (bit_vector);
            assert(((value & 0b0010) >> 1) as u64 == nibble_bit(value, 1) && nibble_bit(value, 1)
                < 2) by (bit_vector);
            assert(((value & 0b0100) >> 2) as u64 == nibble_bit(value, 2) && nibble_bit(value, 2)
                < 2) by (bit_vector);
            assert((value >> 3) as u64 == nibble_bit(value, 3) && nibble_bit(value, 3) < 2)
                by (bit_vector)
                requires
                    value < 16,
            ;
        }
        (bit1, bit2, bit3, bit4)
    }

    /// Creates a new [`RawQuadboard`] with every one of the 64 slots set
    /// to `value`.
    ///
    /// Each of the four bits of `value` is copied across its whole channel
    /// word by multiplying the bit with the all-ones word, so the fill is
    /// branch-free.
    pub fn splat(value: Nibble) -> (r: Self)
        ensures
            r@ == Seq::new(64, |i: int| value@),
            r.spec_channels() == Seq::new(4, |k: int| splat_word(nibble_bit(value@, k as u64))),
    {
        let v: u8 = value.get();
        let (bit1, bit2, bit3, bit4) = Self::lower_nibble_bits(v);
        let r = RawQuadboard {
            channels: [
                bit1 * u64::MAX,
                bit2 * u64::MAX,
                bit3 * u64::MAX,
                bit4 * u64::MAX,
            ],
        };
        proof {
            assert(r.spec_channels() =~= Seq::new(
                4,
                |k: int| splat_word(nibble_bit(v, k as u64)),
            ));
            assert forall|i: int| 0 <= i < 64 implies r@[i] == v by {
                let iw = i as u64;
                lemma_uniform_word_bits(iw);
                lemma_nibble_recompose(v);
                assert(nibble_at(r.spec_channels(), iw) == v);
            }
            assert(r@ =~= Seq::new(64, |i: int| value@));
        }
        r
    }

    /// Returns the [`Nibble`] at `index`.
    pub fn get(&self, index: Index) -> (r: Nibble)
        ensures
            r@ == self@[index@ as int],
    {
        self.get_unchecked(index.get())
    }

    /// Sets the value of `self` at `index` to `value`.
    pub fn set(&mut self, index: Index, value: Nibble)
        ensures
            final(self)@ == old(self)@.update(index@ as int, value@),
            final(self).spec_channels() == channels_with_set(
                old(self).spec_channels(),
                index@ as u64,
                value@,
            ),
    {
        self.set_unchecked(index.get(), value);
    }

    /// Returns the [`Nibble`] at slot `index`.
    ///
    /// Bit `index` of each channel is masked out, shifted down to bit 0,
    /// then shifted left by the channel's position; the four contributions
    /// occupy disjoint bit positions 0 to 3, so their sum is their union.
    pub fn get_unchecked(&self, index: u8) -> (r: Nibble)
        requires
            index < 64,
        ensures
            r@ == self@[index as int],
    {
        let sh: u64 = index as u64;
        let mask: u64 = 1u64 << sh;
        let bit1: u64 = (self.channels[0] & mask) >> sh;
        let bit2: u64 = (self.channels[1] & mask) >> sh;
        let bit3: u64 = (self.channels[2] & mask) >> sh;
        let bit4: u64 = (self.channels[3] & mask) >> sh;
        proof {
            let c0 = self.channels@[0];
            let c1 = self.channels@[1];
            let c2 = self.channels@[2];
            let c3 = self.channels@[3];
            assert((c0 & (1u64 << sh)) >> sh == channel_bit(c0, sh) && channel_bit(c0, sh) < 2)
                by (bit_vector)
                requires
                    sh < 64,
            ;
            assert((c1 & (1u64 << sh)) >> sh == channel_bit(c1, sh) && channel_bit(c1, sh) < 2)
                by (bit_vector)
                requires
                    sh < 64,
            ;
            assert((c2 & (1u64 << sh)) >> sh == channel_bit(c2, sh) && channel_bit(c2, sh) < 2)
                by (bit_vector)
                requires
                    sh < 64,
            ;
            assert((c3 & (1u64 << sh)) >> sh == channel_bit(c3, sh) && channel_bit(c3, sh) < 2)
                by (bit_vector)
                requires
                    sh < 64,
            ;
            assert(bit2 << 1 == bit2 * 2 && bit3 << 2 == bit3 * 4 && bit4 << 3 == bit4 * 8)
                by (bit_vector)
                requires
                    bit2 < 2 && bit3 < 2 && bit4 < 2,
            ;
        }
        let n: u64 = bit1 + (bit2 << 1) + (bit3 << 2) + (bit4 << 3);
        proof {
            assert(n == nibble_at(self.spec_channels(), sh));
        }
        Nibble::new_unchecked(n as u8)
    }

    /// Writes `value` to slot `index`.
    ///
    /// Each of the four bits of `value` is shifted up to bit `index` of its
    /// channel; a clear mask erases the old bit of every channel before the
    /// new bit is merged in.
    pub fn set_unchecked(&mut self, index: u8, value: Nibble)
        requires
            index < 64,
        ensures
            final(self)@ == old(self)@.update(index as int, value@),
            final(self).spec_channels() == channels_with_set(
                old(self).spec_channels(),
                index as u64,
                value@,
            ),
    {
        let v: u8 = value.get();
        let (bit1, bit2, bit3, bit4) = Self::lower_nibble_bits(v);
        let sh: u64 = index as u64;
        let clear_mask: u64 = !(1u64 << sh);
        self.channels = [
            (self.channels[0] & clear_mask) | (bit1 << sh),
            (self.channels[1] & clear_mask) | (bit2 << sh),
            (self.channels[2] & clear_mask) | (bit3 << sh),
            (self.channels[3] & clear_mask) | (bit4 << sh),
        ];
        proof {
            let before = old(self).spec_channels();
            let after = self.spec_channels();
            assert(after =~= channels_with_set(before, sh, v));
            assert forall|j: int| 0 <= j < 64 implies self@[j] == old(self)@.update(
                index as int,
                value@,
            )[j] by {
                let jw = j as u64;
                if jw == sh {
                    lemma_set_round_trip(before, sh, v);
                } else {
                    lemma_set_preserves_others(before, sh, jw, v);
                }
            }
            assert(self@ =~= old(self)@.update(index as int, value@));
        }
    }
}

impl Default for RawQuadboard {
    /// The all-zero quadboard: every channel word is zero, so every one of
    /// the 64 slots holds the nibble 0.
    fn default() -> (r: RawQuadboard)
        ensures
            r@ == Seq::new(64, |i: int| 0u8),
            r.spec_channels() == Seq::new(4, |k: int| 0u64),
    {
        let r = RawQuadboard { channels: [0u64, 0u64, 0u64, 0u64] };
        proof {
            assert(r.spec_channels() =~= Seq::new(4, |k: int| 0u64));
            assert forall|i: int| 0 <= i < 64 implies r@[i] == 0u8 by {
                lemma_uniform_word_bits(i as u64);
            }
            assert(r@ =~= Seq::new(64, |i: int| 0u8));
        }
        r
    }
}

} // verus!
