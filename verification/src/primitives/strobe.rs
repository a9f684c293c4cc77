//! Write strobe newtype.
//!
//! The write strobe indicates which byte lanes of the data bus
//! carry valid data.  For a 32-bit bus, the strobe is 4 bits;
//! for a 64-bit bus, 8 bits.

use vstd::prelude::*;
use vstd::arithmetic::power2::pow2;

use crate::text::{digits, push_digits};

verus! {

/// Write strobe (byte-enable mask). Bit `i` enables byte lane `i`.
#[derive(Debug, Clone, Copy, PartialEq, Eq, Hash, Structural)]
pub struct WriteStrobe(u8);

impl View for WriteStrobe {
    type V = u8;

    closed spec fn view(&self) -> u8 {
        self.0
    }
}

/// Two strobes with the same view are equal.
pub proof fn lemma_strobe_view_injective(a: WriteStrobe, b: WriteStrobe)
    requires
        a@ == b@,
    ensures
        a == b,
{
}

/// How a strobe is written: `WSTRB(0x`, two hexadecimal digits and `)`.
pub open spec fn strobe_text(v: u8) -> Seq<char> {
    "WSTRB(0x"@ + digits(v as nat, 16, 2) + ")"@
}

impl WriteStrobe {
    /// The strobe as text, as in `WSTRB(0x0f)`.
    pub fn to_string(&self) -> (r: String)
        ensures
            r@ == strobe_text(self@),
    {
        let mut s = String::new();
        s.append("WSTRB(0x");
        push_digits(&mut s, self.0 as u64, 16, 2);
        s.append(")");
        proof {
            assert(s@ =~= strobe_text(self@));
        }
        s
    }

    /// All byte lanes of a 32-bit bus.
    pub fn all_32() -> (r: Self)
        ensures
            r@ == 0x0F,
    {
        WriteStrobe(0x0F)
    }

    /// All byte lanes of a 64-bit bus.
    pub fn all_64() -> (r: Self)
        ensures
            r@ == 0xFF,
    {
        WriteStrobe(0xFF)
    }

    /// Create a write strobe from a raw byte mask.
    pub fn new(mask: u8) -> (r: Self)
        ensures
            r@ == mask,
    {
        WriteStrobe(mask)
    }

    /// The raw mask value.
    pub fn mask(self) -> (r: u8)
        ensures
            r == self@,
    {
        self.0
    }

    /// Whether exactly the lowest `width_bytes` lanes are enabled, that is,
    /// whether the mask equals 2^width_bytes - 1.
    pub fn is_full(self, width_bytes: u8) -> (r: bool)
        requires
            width_bytes < 16,
        ensures
            r == (self@ + 1 == pow2(width_bytes as nat)),
    {
        proof {
            vstd::bits::lemma_u16_pow2_no_overflow(width_bytes as nat);
            vstd::bits::lemma_u16_shl_is_mul(1, width_bytes as u16);
        }
        let full_mask: u16 = (1u16 << width_bytes) - 1;
        self.0 as u16 == full_mask
    }
}

} // verus!
