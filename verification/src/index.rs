//! Validated indices into a quadboard.

use vstd::prelude::*;

verus! {

/// The set of possible values that an [`Index`] may take, ranging
/// from 0 (inclusive) to 64 (exclusive).
///
/// A fieldless enum with 64 variants restricts the representation to a
/// strict subset of a byte, so the compiler can apply the niche value
/// optimisation: an `Option<Index>` takes no more storage than an
/// `Index` does.
#[derive(Debug, PartialEq, Eq, PartialOrd, Ord, Clone, Copy)]
enum AllowedIndexValue {
    _00,
    _01,
    _02,
    _03,
    _04,
    _05,
    _06,
    _07,
    _08,
    _09,
    _0A,
    _0B,
    _0C,
    _0D,
    _0E,
    _0F,
    _10,
    _11,
    _12,
    _13,
    _14,
    _15,
    _16,
    _17,
    _18,
    _19,
    _1A,
    _1B,
    _1C,
    _1D,
    _1E,
    _1F,
    _20,
    _21,
    _22,
    _23,
    _24,
    _25,
    _26,
    _27,
    _28,
    _29,
    _2A,
    _2B,
    _2C,
    _2D,
    _2E,
    _2F,
    _30,
    _31,
    _32,
    _33,
    _34,
    _35,
    _36,
    _37,
    _38,
    _39,
    _3A,
    _3B,
    _3C,
    _3D,
    _3E,
    _3F,
}

/// A valid index into a quadboard: an integer constrained to the
/// range [0, 64).
///
/// Every access that consumes an `Index` is in bounds by construction,
/// so no further checking is needed at the point of use.
#[derive(Debug, PartialEq, Eq, PartialOrd, Ord, Clone, Copy)]
pub struct Index(AllowedIndexValue);

/// The unit error produced when a numeric conversion into an [`Index`] fails.
#[derive(Debug, Clone, Copy, PartialEq, Eq)]
pub struct InvalidIndexError;

impl View for Index {
    type V = u8;

    closed spec fn view(&self) -> u8 {
        match self.0 {
            AllowedIndexValue::_00 => 0,
            AllowedIndexValue::_01 => 1,
            AllowedIndexValue::_02 => 2,
            AllowedIndexValue::_03 => 3,
            AllowedIndexValue::_04 => 4,
            AllowedIndexValue::_05 => 5,
            AllowedIndexValue::_06 => 6,
            AllowedIndexValue::_07 => 7,
            AllowedIndexValue::_08 => 8,
            AllowedIndexValue::_09 => 9,
            AllowedIndexValue::_0A => 10,
            AllowedIndexValue::_0B => 11,
            AllowedIndexValue::_0C => 12,
            AllowedIndexValue::_0D => 13,
            AllowedIndexValue::_0E => 14,
            AllowedIndexValue::_0F => 15,
            AllowedIndexValue::_10 => 16,
            AllowedIndexValue::_11 => 17,
            AllowedIndexValue::_12 => 18,
            AllowedIndexValue::_13 => 19,
            AllowedIndexValue::_14 => 20,
            AllowedIndexValue::_15 => 21,
            AllowedIndexValue::_16 => 22,
            AllowedIndexValue::_17 => 23,
            AllowedIndexValue::_18 => 24,
            AllowedIndexValue::_19 => 25,
            AllowedIndexValue::_1A => 26,
            AllowedIndexValue::_1B => 27,
            AllowedIndexValue::_1C => 28,
            AllowedIndexValue::_1D => 29,
            AllowedIndexValue::_1E => 30,
            AllowedIndexValue::_1F => 31,
            AllowedIndexValue::_20 => 32,
            AllowedIndexValue::_21 => 33,
            AllowedIndexValue::_22 => 34,
            AllowedIndexValue::_23 => 35,
            AllowedIndexValue::_24 => 36,
            AllowedIndexValue::_25 => 37,
            AllowedIndexValue::_26 => 38,
            AllowedIndexValue::_27 => 39,
            AllowedIndexValue::_28 => 40,
            AllowedIndexValue::_29 => 41,
            AllowedIndexValue::_2A => 42,
            AllowedIndexValue::_2B => 43,
            AllowedIndexValue::_2C => 44,
            AllowedIndexValue::_2D => 45,
            AllowedIndexValue::_2E => 46,
            AllowedIndexValue::_2F => 47,
            AllowedIndexValue::_30 => 48,
            AllowedIndexValue::_31 => 49,
            AllowedIndexValue::_32 => 50,
            AllowedIndexValue::_33 => 51,
            AllowedIndexValue::_34 => 52,
            AllowedIndexValue::_35 => 53,
            AllowedIndexValue::_36 => 54,
            AllowedIndexValue::_37 => 55,
            AllowedIndexValue::_38 => 56,
            AllowedIndexValue::_39 => 57,
            AllowedIndexValue::_3A => 58,
            AllowedIndexValue::_3B => 59,
            AllowedIndexValue::_3C => 60,
            AllowedIndexValue::_3D => 61,
            AllowedIndexValue::_3E => 62,
            AllowedIndexValue::_3F => 63,
        }
    }
}

/// The index whose value is `v`.
pub closed spec fn index_of(v: u8) -> Index
    recommends
        v < 64,
{
    if v == 0 {
        Index(AllowedIndexValue::_00)
    } else if v == 1 {
        Index(AllowedIndexValue::_01)
    } else if v == 2 {
        Index(AllowedIndexValue::_02)
    } else if v == 3 {
        Index(AllowedIndexValue::_03)
    } else if v == 4 {
        Index(AllowedIndexValue::_04)
    } else if v == 5 {
        Index(AllowedIndexValue::_05)
    } else if v == 6 {
        Index(AllowedIndexValue::_06)
    } else if v == 7 {
        Index(AllowedIndexValue::_07)
    } else if v == 8 {
        Index(AllowedIndexValue::_08)
    } else if v == 9 {
        Index(AllowedIndexValue::_09)
    } else if v == 10 {
        Index(AllowedIndexValue::_0A)
    } else if v == 11 {
        Index(AllowedIndexValue::_0B)
    } else if v == 12 {
        Index(AllowedIndexValue::_0C)
    } else if v == 13 {
        Index(AllowedIndexValue::_0D)
    } else if v == 14 {
        Index(AllowedIndexValue::_0E)
    } else if v == 15 {
        Index(AllowedIndexValue::_0F)
    } else if v == 16 {
        Index(AllowedIndexValue::_10)
    } else if v == 17 {
        Index(AllowedIndexValue::_11)
    } else if v == 18 {
        Index(AllowedIndexValue::_12)
    } else if v == 19 {
        Index(AllowedIndexValue::_13)
    } else if v == 20 {
        Index(AllowedIndexValue::_14)
    } else if v == 21 {
        Index(AllowedIndexValue::_15)
    } else if v == 22 {
        Index(AllowedIndexValue::_16)
    } else if v == 23 {
        Index(AllowedIndexValue::_17)
    } else if v == 24 {
        Index(AllowedIndexValue::_18)
    } else if v == 25 {
        Index(AllowedIndexValue::_19)
    } else if v == 26 {
        Index(AllowedIndexValue::_1A)
    } else if v == 27 {
        Index(AllowedIndexValue::_1B)
    } else if v == 28 {
        Index(AllowedIndexValue::_1C)
    } else if v == 29 {
        Index(AllowedIndexValue::_1D)
    } else if v == 30 {
        Index(AllowedIndexValue::_1E)
    } else if v == 31 {
        Index(AllowedIndexValue::_1F)
    } else if v == 32 {
        Index(AllowedIndexValue::_20)
    } else if v == 33 {
        Index(AllowedIndexValue::_21)
    } else if v == 34 {
        Index(AllowedIndexValue::_22)
    } else if v == 35 {
        Index(AllowedIndexValue::_23)
    } else if v == 36 {
        Index(AllowedIndexValue::_24)
    } else if v == 37 {
        Index(AllowedIndexValue::_25)
    } else if v == 38 {
        Index(AllowedIndexValue::_26)
    } else if v == 39 {
        Index(AllowedIndexValue::_27)
    } else if v == 40 {
        Index(AllowedIndexValue::_28)
    } else if v == 41 {
        Index(AllowedIndexValue::_29)
    } else if v == 42 {
        Index(AllowedIndexValue::_2A)
    } else if v == 43 {
        Index(AllowedIndexValue::_2B)
    } else if v == 44 {
        Index(AllowedIndexValue::_2C)
    } else if v == 45 {
        Index(AllowedIndexValue::_2D)
    } else if v == 46 {
        Index(AllowedIndexValue::_2E)
    } else if v == 47 {
        Index(AllowedIndexValue::_2F)
    } else if v == 48 {
        Index(AllowedIndexValue::_30)
    } else if v == 49 {
        Index(AllowedIndexValue::_31)
    } else if v == 50 {
        Index(AllowedIndexValue::_32)
    } else if v == 51 {
        Index(AllowedIndexValue::_33)
    } else if v == 52 {
        Index(AllowedIndexValue::_34)
    } else if v == 53 {
        Index(AllowedIndexValue::_35)
    } else if v == 54 {
        Index(AllowedIndexValue::_36)
    } else if v == 55 {
        Index(AllowedIndexValue::_37)
    } else if v == 56 {
        Index(AllowedIndexValue::_38)
    } else if v == 57 {
        Index(AllowedIndexValue::_39)
    } else if v == 58 {
        Index(AllowedIndexValue::_3A)
    } else if v == 59 {
        Index(AllowedIndexValue::_3B)
    } else if v == 60 {
        Index(AllowedIndexValue::_3C)
    } else if v == 61 {
        Index(AllowedIndexValue::_3D)
    } else if v == 62 {
        Index(AllowedIndexValue::_3E)
    } else {
        Index(AllowedIndexValue::_3F)
    }
}

/// An index built by [`index_of`] from an in-range value reads back
/// as that value.
pub proof fn lemma_index_of_value(v: u8)
    requires
        v < 64,
    ensures
        index_of(v)@ == v,
{
}

/// Every index lies below 64 and is [`index_of`] applied to its own value.
pub proof fn lemma_index_view(i: Index)
    ensures
        i@ < 64,
        index_of(i@) == i,
{
}

impl Index {
    /// The minimum index, holding the value 0.
    pub fn min() -> (r: Index)
        ensures
            r@ == 0,
    {
        Index(AllowedIndexValue::_00)
    }

    /// The maximum index, holding the value 63.
    pub fn max() -> (r: Index)
        ensures
            r@ == 63,
    {
        Index(AllowedIndexValue::_3F)
    }

    /// Returns the value of `self` as a `u8`.
    pub fn get(&self) -> (r: u8)
        ensures
            r == self@,
            r < 64,
    {
        match self.0 {
            AllowedIndexValue::_00 => 0u8,
            AllowedIndexValue::_01 => 1u8,
            AllowedIndexValue::_02 => 2u8,
            AllowedIndexValue::_03 => 3u8,
            AllowedIndexValue::_04 => 4u8,
            AllowedIndexValue::_05 => 5u8,
            AllowedIndexValue::_06 => 6u8,
            AllowedIndexValue::_07 => 7u8,
            AllowedIndexValue::_08 => 8u8,
            AllowedIndexValue::_09 => 9u8,
            AllowedIndexValue::_0A => 10u8,
            AllowedIndexValue::_0B => 11u8,
            AllowedIndexValue::_0C => 12u8,
            AllowedIndexValue::_0D => 13u8,
            AllowedIndexValue::_0E => 14u8,
            AllowedIndexValue::_0F => 15u8,
            AllowedIndexValue::_10 => 16u8,
            AllowedIndexValue::_11 => 17u8,
            AllowedIndexValue::_12 => 18u8,
            AllowedIndexValue::_13 => 19u8,
            AllowedIndexValue::_14 => 20u8,
            AllowedIndexValue::_15 => 21u8,
            AllowedIndexValue::_16 => 22u8,
            AllowedIndexValue::_17 => 23u8,
            AllowedIndexValue::_18 => 24u8,
            AllowedIndexValue::_19 => 25u8,
            AllowedIndexValue::_1A => 26u8,
            AllowedIndexValue::_1B => 27u8,
            AllowedIndexValue::_1C => 28u8,
            AllowedIndexValue::_1D => 29u8,
            AllowedIndexValue::_1E => 30u8,
            AllowedIndexValue::_1F => 31u8,
            AllowedIndexValue::_20 => 32u8,
            AllowedIndexValue::_21 => 33u8,
            AllowedIndexValue::_22 => 34u8,
            AllowedIndexValue::_23 => 35u8,
            AllowedIndexValue::_24 => 36u8,
            AllowedIndexValue::_25 => 37u8,
            AllowedIndexValue::_26 => 38u8,
            AllowedIndexValue::_27 => 39u8,
            AllowedIndexValue::_28 => 40u8,
            AllowedIndexValue::_29 => 41u8,
            AllowedIndexValue::_2A => 42u8,
            AllowedIndexValue::_2B => 43u8,
            AllowedIndexValue::_2C => 44u8,
            AllowedIndexValue::_2D => 45u8,
            AllowedIndexValue::_2E => 46u8,
            AllowedIndexValue::_2F => 47u8,
            AllowedIndexValue::_30 => 48u8,
            AllowedIndexValue::_31 => 49u8,
            AllowedIndexValue::_32 => 50u8,
            AllowedIndexValue::_33 => 51u8,
            AllowedIndexValue::_34 => 52u8,
            AllowedIndexValue::_35 => 53u8,
            AllowedIndexValue::_36 => 54u8,
            AllowedIndexValue::_37 => 55u8,
            AllowedIndexValue::_38 => 56u8,
            AllowedIndexValue::_39 => 57u8,
            AllowedIndexValue::_3A => 58u8,
            AllowedIndexValue::_3B => 59u8,
            AllowedIndexValue::_3C => 60u8,
            AllowedIndexValue::_3D => 61u8,
            AllowedIndexValue::_3E => 62u8,
            AllowedIndexValue::_3F => 63u8,
        }
    }

    /// Constructs an [`Index`] from a value already known to be below 64.
    pub fn new_unchecked(value: u8) -> (r: Index)
        requires
            value < 64,
        ensures
            r@ == value,
            r == index_of(value),
    {
        if value == 0 {
            Index(AllowedIndexValue::_00)
        } else if value == 1 {
            Index(AllowedIndexValue::_01)
        } else if value == 2 {
            Index(AllowedIndexValue::_02)
        } else if value == 3 {
            Index(AllowedIndexValue::_03)
        } else if value == 4 {
            Index(AllowedIndexValue::_04)
        } else if value == 5 {
            Index(AllowedIndexValue::_05)
        } else if value == 6 {
            Index(AllowedIndexValue::_06)
        } else if value == 7 {
            Index(AllowedIndexValue::_07)
        } else if value == 8 {
            Index(AllowedIndexValue::_08)
        } else if value == 9 {
            Index(AllowedIndexValue::_09)
        } else if value == 10 {
            Index(AllowedIndexValue::_0A)
        } else if value == 11 {
            Index(AllowedIndexValue::_0B)
        } else if value == 12 {
            Index(AllowedIndexValue::_0C)
        } else if value == 13 {
            Index(AllowedIndexValue::_0D)
        } else if value == 14 {
            Index(AllowedIndexValue::_0E)
        } else if value == 15 {
            Index(AllowedIndexValue::_0F)
        } else if value == 16 {
            Index(AllowedIndexValue::_10)
        } else if value == 17 {
            Index(AllowedIndexValue::_11)
        } else if value == 18 {
            Index(AllowedIndexValue::_12)
        } else if value == 19 {
            Index(AllowedIndexValue::_13)
        } else if value == 20 {
            Index(AllowedIndexValue::_14)
        } else if value == 21 {
            Index(AllowedIndexValue::_15)
        } else if value == 22 {
            Index(AllowedIndexValue::_16)
        } else if value == 23 {
            Index(AllowedIndexValue::_17)
        } else if value == 24 {
            Index(AllowedIndexValue::_18)
        } else if value == 25 {
            Index(AllowedIndexValue::_19)
        } else if value == 26 {
            Index(AllowedIndexValue::_1A)
        } else if value == 27 {
            Index(AllowedIndexValue::_1B)
        } else if value == 28 {
            Index(AllowedIndexValue::_1C)
        } else if value == 29 {
            Index(AllowedIndexValue::_1D)
        } else if value == 30 {
            Index(AllowedIndexValue::_1E)
        } else if value == 31 {
            Index(AllowedIndexValue::_1F)
        } else if value == 32 {
            Index(AllowedIndexValue::_20)
        } else if value == 33 {
            Index(AllowedIndexValue::_21)
        } else if value == 34 {
            Index(AllowedIndexValue::_22)
        } else if value == 35 {
            Index(AllowedIndexValue::_23)
        } else if value == 36 {
            Index(AllowedIndexValue::_24)
        } else if value == 37 {
            Index(AllowedIndexValue::_25)
        } else if value == 38 {
            Index(AllowedIndexValue::_26)
        } else if value == 39 {
            Index(AllowedIndexValue::_27)
        } else if value == 40 {
            Index(AllowedIndexValue::_28)
        } else if value == 41 {
            Index(AllowedIndexValue::_29)
        } else if value == 42 {
            Index(AllowedIndexValue::_2A)
        } else if value == 43 {
            Index(AllowedIndexValue::_2B)
        } else if value == 44 {
            Index(AllowedIndexValue::_2C)
        } else if value == 45 {
            Index(AllowedIndexValue::_2D)
        } else if value == 46 {
            Index(AllowedIndexValue::_2E)
        } else if value == 47 {
            Index(AllowedIndexValue::_2F)
        } else if value == 48 {
            Index(AllowedIndexValue::_30)
        } else if value == 49 {
            Index(AllowedIndexValue::_31)
        } else if value == 50 {
            Index(AllowedIndexValue::_32)
        } else if value == 51 {
            Index(AllowedIndexValue::_33)
        } else if value == 52 {
            Index(AllowedIndexValue::_34)
        } else if value == 53 {
            Index(AllowedIndexValue::_35)
        } else if value == 54 {
            Index(AllowedIndexValue::_36)
        } else if value == 55 {
            Index(AllowedIndexValue::_37)
        } else if value == 56 {
            Index(AllowedIndexValue::_38)
        } else if value == 57 {
            Index(AllowedIndexValue::_39)
        } else if value == 58 {
            Index(AllowedIndexValue::_3A)
        } else if value == 59 {
            Index(AllowedIndexValue::_3B)
        } else if value == 60 {
            Index(AllowedIndexValue::_3C)
        } else if value == 61 {
            Index(AllowedIndexValue::_3D)
        } else if value == 62 {
            Index(AllowedIndexValue::_3E)
        } else {
            Index(AllowedIndexValue::_3F)
        }
    }

    /// Checks whether `value` can be converted into an [`Index`]: true
    /// exactly when `value` is below 64.
    ///
    /// A `u8` below 64 is precisely one whose two upper bits are clear,
    /// so a single mask-and-compare decides validity.
    pub fn is_valid_index(value: u8) -> (r: bool)
        ensures
            r <==> value < 64,
    {
        proof {
            assert((value & 0b11000000) == 0 <==> value < 64) by (bit_vector);
        }
        (value & 0b11000000) == 0u8
    }
}

impl TryFrom<u8> for Index {
    type Error = InvalidIndexError;

    /// Succeeds exactly on values below 64, returning the index holding
    /// the given value.
    fn try_from(value: u8) -> (r: Result<Index, InvalidIndexError>)
        ensures
            value < 64 <==> r is Ok,
            r is Ok ==> r->Ok_0 == index_of(value),
            r is Ok ==> r->Ok_0@ == value,
    {
        if Index::is_valid_index(value) {
            Ok(Index::new_unchecked(value))
        } else {
            Err(InvalidIndexError)
        }
    }
}

impl vstd::std_specs::convert::TryFromSpecImpl<u8> for Index {
    open spec fn obeys_try_from_spec() -> bool {
        true
    }

    open spec fn try_from_spec(v: u8) -> Result<Index, InvalidIndexError> {
        if v < 64 {
            Ok(index_of(v))
        } else {
            Err(InvalidIndexError)
        }
    }
}

impl From<Index> for u8 {
    /// Returns the value of the index, always below 64.
    fn from(value: Index) -> (r: u8)
        ensures
            r == value@,
    {
        value.get()
    }
}

impl vstd::std_specs::convert::FromSpecImpl<Index> for u8 {
    open spec fn obeys_from_spec() -> bool {
        true
    }

    open spec fn from_spec(v: Index) -> u8 {
        v@
    }
}

} // verus!
