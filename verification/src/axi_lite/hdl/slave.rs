//! AXI-Lite slave register file: the clocked state machine.
//!
//! A 16-register slave that answers AXI-Lite reads and writes.  Registers
//! are 32 bits wide at 4-byte-aligned offsets 0x00 through 0x3C; address
//! bits [5:2] select the register.  The write channels (AW+W+B) and the
//! read channels (AR+R) have independent state machines.
//!
//! `axi_lite_slave_step` computes one clock cycle: the outputs driven in the
//! current state and the state registered at the next clock edge.

use vstd::prelude::*;

verus! {

/// Write FSM: waiting for address and data.
pub const WR_IDLE: u8 = 0;
/// Write FSM: address latched, waiting for data.
pub const WR_GOT_ADDR: u8 = 1;
/// Write FSM: data latched, waiting for address.
pub const WR_GOT_DATA: u8 = 2;
/// Write FSM: register written, response offered.
pub const WR_RESP: u8 = 3;

/// Read FSM: waiting for an address.
pub const RD_IDLE: u8 = 0;
/// Read FSM: address latched, data offered.
pub const RD_GOT_ADDR: u8 = 1;
/// Read FSM: data offered until the master takes it.
pub const RD_RESP: u8 = 2;

/// The registered state of the slave.
#[derive(Debug, Clone, Copy)]
pub struct AxiLiteSlaveState {
    /// Write FSM state.
    pub wr_state: u8,
    /// Read FSM state.
    pub rd_state: u8,
    /// Latched write address.
    pub wr_addr_reg: u32,
    /// Latched write data.
    pub wr_data_reg: u32,
    /// Latched read address.
    pub rd_addr_reg: u32,
    /// The sixteen registers.
    pub regs: [u32; 16],
}

/// The mathematical model of the slave's state.
pub struct SlaveModel {
    pub wr_state: u8,
    pub rd_state: u8,
    pub wr_addr_reg: u32,
    pub wr_data_reg: u32,
    pub rd_addr_reg: u32,
    pub regs: Seq<u32>,
}

impl View for AxiLiteSlaveState {
    type V = SlaveModel;

    open spec fn view(&self) -> SlaveModel {
        SlaveModel {
            wr_state: self.wr_state,
            rd_state: self.rd_state,
            wr_addr_reg: self.wr_addr_reg,
            wr_data_reg: self.wr_data_reg,
            rd_addr_reg: self.rd_addr_reg,
            regs: self.regs@,
        }
    }
}

/// Signals the slave samples from the bus.
#[derive(Debug, Clone, Copy, PartialEq, Eq, Structural)]
pub struct AxiLiteSlaveInputs {
    pub awaddr: u32,
    pub awvalid: bool,
    pub wdata: u32,
    pub wstrb: u8,
    pub wvalid: bool,
    pub bready: bool,
    pub araddr: u32,
    pub arvalid: bool,
    pub rready: bool,
}

/// Signals the slave drives onto the bus.
#[derive(Debug, Clone, Copy, PartialEq, Eq, Structural)]
pub struct AxiLiteSlaveOutputs {
    pub awready: bool,
    pub wready: bool,
    pub bresp: u8,
    pub bvalid: bool,
    pub arready: bool,
    pub rdata: u32,
    pub rresp: u8,
    pub rvalid: bool,
}

/// The register an address selects: address bits [5:2].
pub open spec fn slave_reg_index(addr: u32) -> int {
    ((addr / 4) % 16) as int
}

/// The value a register index reads: the register, or 0 past the sixteenth.
pub open spec fn slave_reg_value(regs: Seq<u32>, idx: int) -> u32 {
    if 0 <= idx < 16 {
        regs[idx]
    } else {
        0
    }
}

/// Whether the read FSM is offering data.
pub open spec fn slave_read_valid(rd_state: u8) -> bool {
    rd_state == RD_GOT_ADDR || rd_state == RD_RESP
}

/// What the slave drives in a state: ready where the FSMs wait for a channel,
/// valid where they offer a response, OKAY responses, and read data from the
/// register the latched read address selects.
pub open spec fn slave_outputs(s: SlaveModel) -> AxiLiteSlaveOutputs {
    AxiLiteSlaveOutputs {
        awready: s.wr_state == WR_IDLE || s.wr_state == WR_GOT_DATA,
        wready: s.wr_state == WR_IDLE || s.wr_state == WR_GOT_ADDR,
        bresp: 0,
        bvalid: s.wr_state == WR_RESP,
        arready: s.rd_state == RD_IDLE,
        rdata: if slave_read_valid(s.rd_state) {
            slave_reg_value(s.regs, slave_reg_index(s.rd_addr_reg))
        } else {
            0
        },
        rresp: 0,
        rvalid: slave_read_valid(s.rd_state),
    }
}

/// Whether the write FSM takes the write address this cycle.
pub open spec fn slave_takes_addr(s: SlaveModel, i: AxiLiteSlaveInputs) -> bool {
    (s.wr_state == WR_IDLE || s.wr_state == WR_GOT_DATA) && i.awvalid
}

/// Whether the write FSM takes the write data this cycle.
pub open spec fn slave_takes_data(s: SlaveModel, i: AxiLiteSlaveInputs) -> bool {
    (s.wr_state == WR_IDLE || s.wr_state == WR_GOT_ADDR) && i.wvalid
}

/// The next write FSM state.
pub open spec fn slave_next_wr_state(s: SlaveModel, i: AxiLiteSlaveInputs) -> u8 {
    if s.wr_state == WR_IDLE {
        if i.awvalid && i.wvalid {
            WR_RESP
        } else if i.awvalid {
            WR_GOT_ADDR
        } else if i.wvalid {
            WR_GOT_DATA
        } else {
            WR_IDLE
        }
    } else if s.wr_state == WR_GOT_ADDR {
        if i.wvalid { WR_RESP } else { WR_GOT_ADDR }
    } else if s.wr_state == WR_GOT_DATA {
        if i.awvalid { WR_RESP } else { WR_GOT_DATA }
    } else if s.wr_state == WR_RESP {
        if i.bready { WR_IDLE } else { WR_RESP }
    } else {
        WR_IDLE
    }
}

/// The next read FSM state.
pub open spec fn slave_next_rd_state(s: SlaveModel, i: AxiLiteSlaveInputs) -> u8 {
    if s.rd_state == RD_IDLE {
        if i.arvalid { RD_GOT_ADDR } else { RD_IDLE }
    } else if s.rd_state == RD_GOT_ADDR {
        RD_RESP
    } else if s.rd_state == RD_RESP {
        if i.rready { RD_IDLE } else { RD_RESP }
    } else {
        RD_IDLE
    }
}

/// The state after one clock edge: channels are latched when taken, and the
/// register selected by the latched write address holds the latched data
/// while the write FSM is in its response state.
pub open spec fn slave_next(s: SlaveModel, i: AxiLiteSlaveInputs) -> SlaveModel {
    SlaveModel {
        wr_state: slave_next_wr_state(s, i),
        rd_state: slave_next_rd_state(s, i),
        wr_addr_reg: if slave_takes_addr(s, i) { i.awaddr } else { s.wr_addr_reg },
        wr_data_reg: if slave_takes_data(s, i) { i.wdata } else { s.wr_data_reg },
        rd_addr_reg: if s.rd_state == RD_IDLE && i.arvalid { i.araddr } else { s.rd_addr_reg },
        regs: if s.wr_state == WR_RESP {
            s.regs.update(slave_reg_index(s.wr_addr_reg), s.wr_data_reg)
        } else {
            s.regs
        },
    }
}

/// The register index an address selects, computed on the bus value.
fn reg_index_of(addr: u32) -> (r: u64)
    ensures
        r == slave_reg_index(addr),
        r < 16,
{
    let a: u64 = addr as u64;
    assert((a >> 2u64) & 0x0Fu64 == (a / 4) % 16) by (bit_vector);
    (a >> 2) & 0x0F
}

impl AxiLiteSlaveState {
    /// The reset state: both FSMs idle, all registers zero.
    pub fn new() -> (r: Self)
        ensures
            r@.wr_state == WR_IDLE,
            r@.rd_state == RD_IDLE,
            r@.wr_addr_reg == 0,
            r@.wr_data_reg == 0,
            r@.rd_addr_reg == 0,
            r@.regs == Seq::new(16, |i: int| 0u32),
    {
        let r = AxiLiteSlaveState {
            wr_state: WR_IDLE,
            rd_state: RD_IDLE,
            wr_addr_reg: 0,
            wr_data_reg: 0,
            rd_addr_reg: 0,
            regs: [0u32; 16],
        };
        assert(r@.regs =~= Seq::new(16, |i: int| 0u32));
        r
    }

    /// Read a register by index; indices past the sixteenth read 0.
    pub fn read_reg(&self, idx: u64) -> (r: u32)
        ensures
            r == slave_reg_value(self@.regs, idx as int),
    {
        if idx < 16 {
            self.regs[idx as usize]
        } else {
            0
        }
    }

    /// Write a register by index; indices past the sixteenth change nothing.
    pub fn write_reg(&mut self, idx: u64, data: u32)
        ensures
            final(self)@.regs == (if idx < 16 {
                old(self)@.regs.update(idx as int, data)
            } else {
                old(self)@.regs
            }),
            final(self)@.wr_state == old(self)@.wr_state,
            final(self)@.rd_state == old(self)@.rd_state,
            final(self)@.wr_addr_reg == old(self)@.wr_addr_reg,
            final(self)@.wr_data_reg == old(self)@.wr_data_reg,
            final(self)@.rd_addr_reg == old(self)@.rd_addr_reg,
    {
        if idx < 16 {
            self.regs[idx as usize] = data;
        }
    }
}

/// One clock cycle of the slave: the outputs it drives in `state`, and the
/// state it holds after the clock edge given the sampled `inputs`.
pub fn axi_lite_slave_step(state: &AxiLiteSlaveState, inputs: &AxiLiteSlaveInputs) -> (r: (
    AxiLiteSlaveState,
    AxiLiteSlaveOutputs,
))
    ensures
        r.0@ == slave_next(state@, *inputs),
        r.1 == slave_outputs(state@),
{
    let mut next = *state;
    let mut out = AxiLiteSlaveOutputs {
        awready: false,
        wready: false,
        bresp: 0,
        bvalid: false,
        arready: false,
        rdata: 0,
        rresp: 0,
        rvalid: false,
    };

    // Write FSM
    let wr = state.wr_state;
    if wr == WR_IDLE {
        out.awready = true;
        out.wready = true;
        if inputs.awvalid {
            next.wr_addr_reg = inputs.awaddr;
            next.wr_state = WR_GOT_ADDR;
        }
        if inputs.wvalid {
            next.wr_data_reg = inputs.wdata;
            if inputs.awvalid {
                next.wr_state = WR_RESP;
            } else {
                next.wr_state = WR_GOT_DATA;
            }
        }
    } else if wr == WR_GOT_ADDR {
        out.wready = true;
        if inputs.wvalid {
            next.wr_data_reg = inputs.wdata;
            next.wr_state = WR_RESP;
        }
    } else if wr == WR_GOT_DATA {
        out.awready = true;
        if inputs.awvalid {
            next.wr_addr_reg = inputs.awaddr;
            next.wr_state = WR_RESP;
        }
    } else if wr == WR_RESP {
        let idx = reg_index_of(state.wr_addr_reg);
        next.write_reg(idx, state.wr_data_reg);
        out.bvalid = true;
        if inputs.bready {
            next.wr_state = WR_IDLE;
        }
    } else {
        next.wr_state = WR_IDLE;
    }

    // Read FSM
    let rd = state.rd_state;
    if rd == RD_IDLE {
        out.arready = true;
        if inputs.arvalid {
            next.rd_addr_reg = inputs.araddr;
            next.rd_state = RD_GOT_ADDR;
        }
    } else if rd == RD_GOT_ADDR {
        let idx = reg_index_of(state.rd_addr_reg);
        out.rdata = state.read_reg(idx);
        out.rvalid = true;
        next.rd_state = RD_RESP;
    } else if rd == RD_RESP {
        let idx = reg_index_of(state.rd_addr_reg);
        out.rdata = state.read_reg(idx);
        out.rvalid = true;
        if inputs.rready {
            next.rd_state = RD_IDLE;
        }
    } else {
        next.rd_state = RD_IDLE;
    }
    assert(next@.regs =~= slave_next(state@, *inputs).regs);
    (next, out)
}

/// Write beats are taken exactly once: when the slave accepts a beat on
/// AW (AWREADY and AWVALID both high) or on W (WREADY and WVALID both high),
/// it keeps the address or data that was on the bus and does not ask for
/// that channel again in the next cycle.
pub proof fn lemma_slave_takes_each_write_beat_once(s: SlaveModel, i: AxiLiteSlaveInputs)
    ensures
        slave_outputs(s).awready && i.awvalid ==> {
            &&& slave_next(s, i).wr_addr_reg == i.awaddr
            &&& !slave_outputs(slave_next(s, i)).awready
        },
        slave_outputs(s).wready && i.wvalid ==> {
            &&& slave_next(s, i).wr_data_reg == i.wdata
            &&& !slave_outputs(slave_next(s, i)).wready
        },
{
}

/// A write is answered as soon as both of its beats are in: after a cycle
/// that accepts a write beat, the next cycle either still asks for the other
/// beat or offers the write response, in which case the register the address
/// selects holds the data at the following clock edge.
pub proof fn lemma_slave_answers_completed_write(
    s: SlaveModel,
    i: AxiLiteSlaveInputs,
    j: AxiLiteSlaveInputs,
)
    requires
        s.regs.len() == 16,
    ensures
        ((slave_outputs(s).awready && i.awvalid) || (slave_outputs(s).wready && i.wvalid)) ==> {
            let n = slave_next(s, i);
            ||| slave_outputs(n).awready && !slave_outputs(n).wready
            ||| slave_outputs(n).wready && !slave_outputs(n).awready
            ||| slave_outputs(n).bvalid
        },
        slave_outputs(s).awready && i.awvalid && slave_outputs(s).wready && i.wvalid ==> {
            let n = slave_next(s, i);
            &&& slave_outputs(n).bvalid
            &&& slave_next(n, j).regs[slave_reg_index(i.awaddr)] == i.wdata
        },
{
    let n = slave_next(s, i);
    if slave_outputs(s).awready && i.awvalid && slave_outputs(s).wready && i.wvalid {
        assert(0 <= slave_reg_index(i.awaddr) < 16);
    }
}

/// Responses are held until taken: BVALID stays high until BREADY, and
/// RVALID stays high until RREADY.
pub proof fn lemma_slave_holds_responses(s: SlaveModel, i: AxiLiteSlaveInputs)
    ensures
        slave_outputs(s).bvalid && !i.bready ==> slave_outputs(slave_next(s, i)).bvalid,
        slave_outputs(s).rvalid && !i.rready ==> slave_outputs(slave_next(s, i)).rvalid,
{
}

/// A read returns the register its address selects: when the slave accepts
/// a read address (ARREADY and ARVALID both high) in a cycle in which no
/// write is being committed, the next cycle offers RVALID with the contents
/// of the register that address selects.
pub proof fn lemma_slave_read_returns_register(s: SlaveModel, i: AxiLiteSlaveInputs)
    requires
        s.regs.len() == 16,
    ensures
        slave_outputs(s).arready && i.arvalid && s.wr_state != WR_RESP ==> {
            let n = slave_next(s, i);
            &&& slave_outputs(n).rvalid
            &&& slave_outputs(n).rdata == s.regs[slave_reg_index(i.araddr)]
        },
{
}

} // verus!
