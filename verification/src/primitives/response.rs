//! AXI response codes per AMBA spec.

use vstd::prelude::*;

use crate::error::Error;

verus! {

/// AXI response code (2-bit field).
#[derive(Debug, Clone, Copy, PartialEq, Eq, Hash, Structural)]
pub enum AxiResponse {
    /// Normal access success.
    Okay,
    /// Slave error.
    SlvErr,
    /// Decode error (no slave at address).
    DecErr,
}

/// The 2-bit BRESP/RRESP encoding of a response.
pub open spec fn response_code(r: AxiResponse) -> u8 {
    match r {
        AxiResponse::Okay => 0,
        AxiResponse::SlvErr => 2,
        AxiResponse::DecErr => 3,
    }
}

/// The response that a 2-bit code stands for; the reserved code 1 stands
/// for none.
pub open spec fn response_of_code(code: u8) -> Option<AxiResponse> {
    if code == 0 {
        Some(AxiResponse::Okay)
    } else if code == 2 {
        Some(AxiResponse::SlvErr)
    } else if code == 3 {
        Some(AxiResponse::DecErr)
    } else {
        None
    }
}

/// The name of a response: `OKAY`, `SLVERR` or `DECERR`.
pub open spec fn response_text(r: AxiResponse) -> Seq<char> {
    match r {
        AxiResponse::Okay => "OKAY"@,
        AxiResponse::SlvErr => "SLVERR"@,
        AxiResponse::DecErr => "DECERR"@,
    }
}

impl AxiResponse {
    /// The name of the response.
    pub fn to_string(&self) -> (r: String)
        ensures
            r@ == response_text(*self),
    {
        let mut s = String::new();
        match self {
            AxiResponse::Okay => s.append("OKAY"),
            AxiResponse::SlvErr => s.append("SLVERR"),
            AxiResponse::DecErr => s.append("DECERR"),
        }
        proof {
            assert(s@ =~= response_text(*self));
        }
        s
    }

    /// Decode from the low two bits of the BRESP/RRESP field; the reserved
    /// code `0b01` is an error.
    pub fn from_bits(bits: u8) -> (r: Result<Self, Error>)
        ensures
            response_of_code(bits % 4) matches Some(resp) ==> r == Ok::<AxiResponse, Error>(resp),
            response_of_code(bits % 4) is None ==> (r matches Err(Error::InvalidResponse { code })
                && code == 1),
    {
        assert(bits & 3 == bits % 4) by (bit_vector);
        let low = bits & 0b11;
        if low == 0b00 {
            Ok(AxiResponse::Okay)
        } else if low == 0b10 {
            Ok(AxiResponse::SlvErr)
        } else if low == 0b11 {
            Ok(AxiResponse::DecErr)
        } else {
            Err(Error::InvalidResponse { code: low })
        }
    }

    /// Encode to the 2-bit field.
    pub fn to_bits(self) -> (r: u8)
        ensures
            r == response_code(self),
    {
        match self {
            AxiResponse::Okay => 0b00,
            AxiResponse::SlvErr => 0b10,
            AxiResponse::DecErr => 0b11,
        }
    }

    /// Whether this response indicates success.
    pub fn is_okay(self) -> (r: bool)
        ensures
            r == (self == AxiResponse::Okay),
    {
        match self {
            AxiResponse::Okay => true,
            _ => false,
        }
    }
}

/// Decoding the encoding of a response gives the response back.
pub proof fn lemma_response_code_round_trip(r: AxiResponse)
    ensures
        response_code(r) < 4,
        response_of_code(response_code(r)) == Some(r),
{
}

/// A code that decodes re-encodes to itself: the encoding is a bijection
/// between the three responses and the codes other than 1.
pub proof fn lemma_response_code_decodes_back(code: u8)
    requires
        code < 4,
    ensures
        response_of_code(code) matches Some(r) ==> response_code(r) == code,
        response_of_code(code) is None <==> code == 1,
{
}

} // verus!
