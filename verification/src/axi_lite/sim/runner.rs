//! A sequence of AXI-Lite operations run against the golden register file.

use vstd::prelude::*;

use crate::axi_lite::sim::golden::{RegisterFile, RegisterFileModel};
use crate::axi_lite::transaction::{AxiLiteReadRequest, AxiLiteWriteRequest};
use crate::axi_lite::transaction::{AxiLiteReadResult, AxiLiteWriteResult};
use crate::primitives::response::AxiResponse;

verus! {

/// One AXI-Lite operation.
#[derive(Debug, Clone)]
pub enum AxiLiteOp {
    /// Write operation.
    Write(AxiLiteWriteRequest),
    /// Read operation.
    Read(AxiLiteReadRequest),
}

/// Result of a single AXI-Lite operation.
#[derive(Debug, Clone, PartialEq, Eq, Structural)]
pub enum AxiLiteOpResult {
    /// Write result.
    Write(AxiLiteWriteResult),
    /// Read result.
    Read(AxiLiteReadResult),
}

/// What an operation reported: a write's response, or a read's data and
/// response.
pub enum OpOutcome {
    Written(AxiResponse),
    ReadBack(u64, AxiResponse),
}

/// The outcome an operation result carries.
pub open spec fn outcome_of(r: AxiLiteOpResult) -> OpOutcome {
    match r {
        AxiLiteOpResult::Write(w) => OpOutcome::Written(w.spec_resp()),
        AxiLiteOpResult::Read(d) => OpOutcome::ReadBack(d.spec_data(), d.spec_resp()),
    }
}

/// The register file after the operations, in order, and what each
/// reported.
pub open spec fn run_ops(m: RegisterFileModel, ops: Seq<AxiLiteOp>) -> (
    RegisterFileModel,
    Seq<OpOutcome>,
)
    decreases ops.len(),
{
    if ops.len() == 0 {
        (m, Seq::empty())
    } else {
        let (m1, outs) = run_ops(m, ops.drop_last());
        match ops.last() {
            AxiLiteOp::Write(req) => {
                let (m2, resp) = m1.write(req.spec_addr()@, req.spec_data());
                (m2, outs.push(OpOutcome::Written(resp)))
            },
            AxiLiteOp::Read(req) => {
                let (d, resp) = m1.read(req.spec_addr()@);
                (m1, outs.push(OpOutcome::ReadBack(d, resp)))
            },
        }
    }
}

/// The register file every run starts from: empty, 4 KB at base 0.
pub open spec fn fresh_register_file() -> RegisterFileModel {
    RegisterFileModel { regs: Map::empty(), base: 0, size: 4096 }
}

proof fn lemma_run_ops_len(m: RegisterFileModel, ops: Seq<AxiLiteOp>)
    ensures
        run_ops(m, ops).1.len() == ops.len(),
    decreases ops.len(),
{
    if ops.len() > 0 {
        lemma_run_ops_len(m, ops.drop_last());
    }
}

/// Process a sequence of operations, in order, against a fresh register
/// file, giving one result per operation.
pub fn run_axi_lite_ops(ops: &Vec<AxiLiteOp>) -> (r: Vec<AxiLiteOpResult>)
    ensures
        r@.len() == ops@.len(),
        forall|i: int|
            0 <= i < r@.len() ==> outcome_of(#[trigger] r@[i]) == run_ops(
                fresh_register_file(),
                ops@,
            ).1[i],
{
    let mut rf = RegisterFile::new();
    let mut results: Vec<AxiLiteOpResult> = Vec::with_capacity(ops.len());
    let n = ops.len();
    for k in 0..n
        invariant
            n == ops@.len(),
            results@.len() == k,
            rf@ == run_ops(fresh_register_file(), ops@.take(k as int)).0,
            forall|i: int|
                0 <= i < k ==> outcome_of(#[trigger] results@[i]) == run_ops(
                    fresh_register_file(),
                    ops@.take(k as int),
                ).1[i],
    {
        proof {
            assert(ops@.take(k + 1).drop_last() =~= ops@.take(k as int));
            assert(ops@.take(k + 1).last() == ops@[k as int]);
            lemma_run_ops_len(fresh_register_file(), ops@.take(k as int));
        }
        let result = match &ops[k] {
            AxiLiteOp::Write(req) => {
                let (next, wr) = rf.write(*req);
                rf = next;
                AxiLiteOpResult::Write(wr)
            },
            AxiLiteOp::Read(req) => {
                let (next, rd) = rf.read(*req);
                rf = next;
                AxiLiteOpResult::Read(rd)
            },
        };
        results.push(result);
    }
    proof {
        assert(ops@.take(n as int) =~= ops@);
    }
    results
}

} // verus!
