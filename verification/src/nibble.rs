//! Four-bit unsigned values, the unit of storage of a quadboard.

use vstd::prelude::*;

verus! {

/// A four-bit unsigned value, ranging from 0 to 15 inclusive.
///
/// Each slot of a quadboard holds exactly one nibble; the checked
/// constructor is the only public way to build one from an arbitrary
/// byte, so every `Nibble` in existence stays inside the range.
#[derive(Debug, Clone, Copy, PartialEq, Eq)]
pub struct Nibble {
    value: u8,
}

/// The unit error produced when a numeric conversion into a [`Nibble`] fails.
#[derive(Debug, Clone, Copy, PartialEq, Eq)]
pub struct InvalidNibbleError;

impl View for Nibble {
    type V = u8;

    closed spec fn view(&self) -> u8 {
        self.value
    }
}

/// The nibble whose stored value is `v`.
pub closed spec fn nibble_of(v: u8) -> Nibble
    recommends
        v < 16,
{
    Nibble { value: v }
}

/// A nibble built by [`nibble_of`] reads back as the given value.
pub proof fn lemma_nibble_of_value(v: u8)
    ensures
        nibble_of(v)@ == v,
{
}

/// Every nibble is [`nibble_of`] applied to its own value.
pub proof fn lemma_nibble_of_view(n: Nibble)
    ensures
        nibble_of(n@) == n,
{
}

impl Nibble {
    /// Every nibble's value fits in four bits; exec code may assume this
    /// of any nibble through `use_type_invariant`.
    #[verifier::type_invariant]
    pub open spec fn in_range(self) -> bool {
        self@ < 16
    }

    /// Returns the value of `self` as a `u8`.
    pub fn get(&self) -> (r: u8)
        ensures
            r == self@,
            r < 16,
    {
        proof {
            use_type_invariant(self);
        }
        self.value
    }

    /// Constructs a [`Nibble`] directly from a value already known to
    /// fit in four bits.
    pub fn new_unchecked(value: u8) -> (r: Nibble)
        requires
            value < 16,
        ensures
            r@ == value,
            r == nibble_of(value),
    {
        Nibble { value }
    }
}

impl TryFrom<u8> for Nibble {
    type Error = InvalidNibbleError;

    /// Succeeds exactly on values below 16, returning the nibble that
    /// stores the given value.
    fn try_from(value: u8) -> (r: Result<Nibble, InvalidNibbleError>)
        ensures
            value < 16 <==> r is Ok,
            r is Ok ==> r->Ok_0 == nibble_of(value),
            r is Ok ==> r->Ok_0@ == value,
    {
        if value < 16 {
            Ok(Nibble { value })
        } else {
            Err(InvalidNibbleError)
        }
    }
}

impl vstd::std_specs::convert::TryFromSpecImpl<u8> for Nibble {
    open spec fn obeys_try_from_spec() -> bool {
        true
    }

    open spec fn try_from_spec(v: u8) -> Result<Nibble, InvalidNibbleError> {
        if v < 16 {
            Ok(nibble_of(v))
        } else {
            Err(InvalidNibbleError)
        }
    }
}

} // verus!
