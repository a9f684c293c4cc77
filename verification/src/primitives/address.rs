//! AXI address newtype.

use vstd::prelude::*;

use crate::error::Error;
use crate::text::{digits, push_digits};

verus! {

/// A 32-bit AXI address.
#[derive(Debug, Clone, Copy, PartialEq, Eq, Hash, PartialOrd, Ord, Structural)]
pub struct AxiAddress(u32);

impl View for AxiAddress {
    type V = u32;

    closed spec fn view(&self) -> u32 {
        self.0
    }
}

/// Two addresses with the same view are equal.
pub proof fn lemma_address_view_injective(a: AxiAddress, b: AxiAddress)
    requires
        a@ == b@,
    ensures
        a == b,
{
}

/// How an address is written: `0x` and eight lowercase hexadecimal digits.
pub open spec fn address_text(v: u32) -> Seq<char> {
    "0x"@ + digits(v as nat, 16, 8)
}

impl AxiAddress {
    /// The address as text, as in `0x40000000`.
    pub fn to_string(&self) -> (r: String)
        ensures
            r@ == address_text(self@),
    {
        let mut s = String::new();
        s.append("0x");
        push_digits(&mut s, self.0 as u64, 16, 8);
        proof {
            assert(s@ =~= address_text(self@));
        }
        s
    }

    /// The zero address.
    pub fn zero() -> (r: Self)
        ensures
            r@ == 0,
    {
        AxiAddress(0)
    }

    /// Create a new AXI address.
    pub fn new(value: u32) -> (r: Self)
        ensures
            r@ == value,
    {
        AxiAddress(value)
    }

    /// The raw 32-bit address value.
    pub fn value(self) -> (r: u32)
        ensures
            r == self@,
    {
        self.0
    }

    /// Whether this address is a multiple of `alignment`; every address is
    /// aligned to 0.
    pub fn is_aligned(self, alignment: u32) -> (r: bool)
        ensures
            r == (alignment == 0 || self@ % alignment == 0),
    {
        if alignment == 0 {
            true
        } else {
            self.0 % alignment == 0
        }
    }

    /// Offset this address by `delta` bytes; fails when the sum does not fit
    /// in 32 bits.
    pub fn offset(self, delta: u32) -> (r: Result<Self, Error>)
        ensures
            self@ + delta <= u32::MAX ==> (r matches Ok(a) && a@ == self@ + delta),
            self@ + delta > u32::MAX ==> (r matches Err(Error::InvalidAddress { addr })
                && addr == self@),
    {
        match self.0.checked_add(delta) {
            Some(v) => Ok(AxiAddress(v)),
            None => Err(Error::InvalidAddress { addr: self.0 }),
        }
    }
}

} // verus!
