//! Tensor product for AXI-Lite channel independence.
//!
//! Per the AMBA spec, independent transactions may be reordered.  Two writes
//! to different addresses are independent: `A ⊗ B`, and the braiding
//! `A ⊗ B -> B ⊗ A` does not change their effect.  A write then a read is
//! sequential composition `Write ; Read`.

use vstd::prelude::*;

use crate::axi_lite::sim::golden::{lemma_writes_commute, RegisterFile, RegisterFileModel};
use crate::axi_lite::transaction::{
    AxiLiteReadRequest, AxiLiteReadResult, AxiLiteWriteRequest, AxiLiteWriteResult,
};
use crate::error::Error;
use crate::primitives::response::AxiResponse;

verus! {

/// The register file and both responses after write `a` then write `b`.
pub open spec fn tensor_writes(m: RegisterFileModel, a: AxiLiteWriteRequest, b: AxiLiteWriteRequest) -> (
    RegisterFileModel,
    AxiResponse,
    AxiResponse,
) {
    let (m1, ra) = m.write(a.spec_addr()@, a.spec_data());
    let (m2, rb) = m1.write(b.spec_addr()@, b.spec_data());
    (m2, ra, rb)
}

/// The message of the error for a write that was not answered OKAY.
pub open spec fn rejected_write_text() -> Seq<char> {
    "write not acknowledged with OKAY"@
}

/// The message of the error for a read that was not answered OKAY.
pub open spec fn rejected_read_text() -> Seq<char> {
    "read not acknowledged with OKAY"@
}

pub(crate) fn rejected_write() -> (e: Error)
    ensures
        e matches Error::AxiLite(msg) && msg@ == rejected_write_text(),
{
    let msg = String::from_str("write not acknowledged with OKAY");
    proof {
        reveal_strlit("write not acknowledged with OKAY");
    }
    Error::AxiLite(msg)
}

pub(crate) fn rejected_read() -> (e: Error)
    ensures
        e matches Error::AxiLite(msg) && msg@ == rejected_read_text(),
{
    let msg = String::from_str("read not acknowledged with OKAY");
    proof {
        reveal_strlit("read not acknowledged with OKAY");
    }
    Error::AxiLite(msg)
}

/// Tensor product of two AXI-Lite write transactions, performed `a` first.
/// An error when either write is not answered OKAY (it targets an address
/// outside the register window); otherwise the register file after both
/// writes and their responses.
pub fn axi_write_tensor(rf: RegisterFile, a: AxiLiteWriteRequest, b: AxiLiteWriteRequest) -> (r:
    Result<(RegisterFile, AxiLiteWriteResult, AxiLiteWriteResult), Error>)
    ensures
        r is Err <==> (tensor_writes(rf@, a, b).1 != AxiResponse::Okay || tensor_writes(rf@, a, b).2
            != AxiResponse::Okay),
        r matches Err(e) ==> (e matches Error::AxiLite(msg) && msg@ == rejected_write_text()),
        r matches Ok((rf2, ra, rb)) ==> (rf2@, ra.spec_resp(), rb.spec_resp()) == tensor_writes(
            rf@,
            a,
            b,
        ),
{
    let (rf, result_a) = rf.write(a);
    if !result_a.resp().is_okay() {
        return Err(rejected_write());
    }
    let (rf, result_b) = rf.write(b);
    if !result_b.resp().is_okay() {
        return Err(rejected_write());
    }
    Ok((rf, result_a, result_b))
}

/// Sequential composition: a write, then a read of the register file the
/// write left.  An error when the write or the read is not answered OKAY
/// (its address is outside the register window).
pub fn axi_write_then_read(
    rf: RegisterFile,
    write: AxiLiteWriteRequest,
    read: AxiLiteReadRequest,
) -> (r: Result<(RegisterFile, AxiLiteWriteResult, AxiLiteReadResult), Error>)
    ensures
        ({
            let (m1, wresp) = rf@.write(write.spec_addr()@, write.spec_data());
            let (rdata, rresp) = m1.read(read.spec_addr()@);
            &&& r is Err <==> (wresp != AxiResponse::Okay || rresp != AxiResponse::Okay)
            &&& wresp != AxiResponse::Okay ==> (r matches Err(e) && e matches Error::AxiLite(msg)
                && msg@ == rejected_write_text())
            &&& (wresp == AxiResponse::Okay && rresp != AxiResponse::Okay) ==> (r matches Err(e)
                && e matches Error::AxiLite(msg) && msg@ == rejected_read_text())
            &&& r matches Ok((rf2, wr, rd)) ==> {
                &&& rf2@ == m1
                &&& wr.spec_resp() == wresp
                &&& rd.spec_data() == rdata
                &&& rd.spec_resp() == rresp
            }
        }),
{
    let (rf, wr) = rf.write(write);
    if !wr.resp().is_okay() {
        return Err(rejected_write());
    }
    let (rf, rd) = rf.read(read);
    if !rd.resp().is_okay() {
        return Err(rejected_read());
    }
    Ok((rf, wr, rd))
}

/// The symmetric braiding `(A, B) -> (B, A)`.
pub open spec fn braided<A, B>(pair: (A, B)) -> (B, A) {
    (pair.1, pair.0)
}

/// Braiding (swap): reorder two independent components.
pub fn axi_braid<A, B>(pair: (A, B)) -> (r: (B, A))
    ensures
        r == braided(pair),
{
    (pair.1, pair.0)
}

/// Braiding twice is the identity.
pub proof fn lemma_braid_involution<A, B>(pair: (A, B))
    ensures
        braided(braided(pair)) == pair,
{
}

/// Independence of writes to different addresses: performing them in
/// either order leaves the same register file, and each write gets the same
/// response, so braiding the pair of writes braids the pair of responses.
pub proof fn lemma_tensor_braid_independent(
    m: RegisterFileModel,
    a: AxiLiteWriteRequest,
    b: AxiLiteWriteRequest,
)
    requires
        a.spec_addr()@ != b.spec_addr()@,
    ensures
        tensor_writes(m, a, b).0 == tensor_writes(m, b, a).0,
        tensor_writes(m, a, b).1 == tensor_writes(m, b, a).2,
        tensor_writes(m, a, b).2 == tensor_writes(m, b, a).1,
{
    lemma_writes_commute(m, a.spec_addr()@, a.spec_data(), b.spec_addr()@, b.spec_data());
}

} // verus!
