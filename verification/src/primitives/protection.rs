//! AXI protection type newtype.
//!
//! The 3-bit AWPROT/ARPROT field encodes access permissions:
//! bit 0 = privileged, bit 1 = non-secure, bit 2 = instruction.

use vstd::prelude::*;

use crate::text::{digits, push_digits};

verus! {

/// AXI protection type (3-bit field).
#[derive(Debug, Clone, Copy, PartialEq, Eq, Hash, Structural)]
pub struct AxiProt(u8);

impl View for AxiProt {
    type V = u8;

    closed spec fn view(&self) -> u8 {
        self.0
    }
}

/// Two protection fields with the same view are equal.
pub proof fn lemma_prot_view_injective(a: AxiProt, b: AxiProt)
    requires
        a@ == b@,
    ensures
        a == b,
{
}

/// How a protection field is written: `PROT(0b` and its three bits.
pub open spec fn prot_text(v: u8) -> Seq<char> {
    "PROT(0b"@ + digits(v as nat, 2, 3) + ")"@
}

impl AxiProt {
    /// The field as text, as in `PROT(0b101)`.
    pub fn to_string(&self) -> (r: String)
        ensures
            r@ == prot_text(self@),
    {
        let mut s = String::new();
        s.append("PROT(0b");
        push_digits(&mut s, self.0 as u64, 2, 3);
        s.append(")");
        proof {
            assert(s@ =~= prot_text(self@));
        }
        s
    }

    /// Only the low three bits are ever held.
    #[verifier::type_invariant]
    closed spec fn inv(self) -> bool {
        self.0 < 8
    }

    /// Default: unprivileged, secure, data access.
    pub fn default_prot() -> (r: Self)
        ensures
            r@ == 0,
    {
        AxiProt(0)
    }

    /// Create from a raw value, keeping its low three bits.
    pub fn new(value: u8) -> (r: Self)
        ensures
            r@ == value % 8,
    {
        assert(value & 7 == value % 8) by (bit_vector);
        AxiProt(value & 0b111)
    }

    /// The raw 3-bit value.
    pub fn value(self) -> (r: u8)
        ensures
            r == self@,
            r < 8,
    {
        proof {
            use_type_invariant(&self);
        }
        self.0
    }

    /// Whether this is a privileged access (bit 0).
    pub fn privileged(self) -> (r: bool)
        ensures
            r == (self@ & 1 != 0),
    {
        self.0 & 0b001 != 0
    }

    /// Whether this is a non-secure access (bit 1).
    pub fn non_secure(self) -> (r: bool)
        ensures
            r == (self@ & 2 != 0),
    {
        self.0 & 0b010 != 0
    }

    /// Whether this is an instruction access (bit 2).
    pub fn instruction(self) -> (r: bool)
        ensures
            r == (self@ & 4 != 0),
    {
        self.0 & 0b100 != 0
    }
}

} // verus!
