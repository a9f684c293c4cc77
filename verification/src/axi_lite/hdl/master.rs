//! AXI-Lite master controller: the clocked state machine.
//!
//! To write: present `wr_addr`, `wr_data` and assert `wr_start`.
//! To read: present `rd_addr` and assert `rd_start`.
//! `done` pulses for one cycle when the operation completes; after a read,
//! `rd_data` holds the data returned by the slave.

use vstd::prelude::*;

verus! {

/// Waiting for a command.
pub const ST_IDLE: u8 = 0;
/// Offering the write address.
pub const ST_WR_ADDR: u8 = 1;
/// Offering the write data.
pub const ST_WR_DATA: u8 = 2;
/// Waiting for the write response.
pub const ST_WR_RESP: u8 = 3;
/// Offering the read address.
pub const ST_RD_ADDR: u8 = 4;
/// Waiting for the read data.
pub const ST_RD_DATA: u8 = 5;
/// Operation complete.
pub const ST_DONE: u8 = 6;

/// The registered state of the master.
#[derive(Debug, Clone, Copy, PartialEq, Eq, Structural)]
pub struct AxiLiteMasterState {
    /// FSM state.
    pub state: u8,
    /// Latched address of the current operation.
    pub addr_reg: u32,
    /// Latched write data, or the data of the last read.
    pub data_reg: u32,
}

/// Signals the master samples: the host command and the slave's channels.
#[derive(Debug, Clone, Copy, PartialEq, Eq, Structural)]
pub struct AxiLiteMasterInputs {
    pub wr_addr: u32,
    pub wr_data: u32,
    pub wr_start: bool,
    pub rd_addr: u32,
    pub rd_start: bool,
    pub awready: bool,
    pub wready: bool,
    pub bresp: u8,
    pub bvalid: bool,
    pub arready: bool,
    pub rdata: u32,
    pub rresp: u8,
    pub rvalid: bool,
}

/// Signals the master drives: host status and its bus channels.
#[derive(Debug, Clone, Copy, PartialEq, Eq, Structural)]
pub struct AxiLiteMasterOutputs {
    pub rd_data: u32,
    pub done: bool,
    pub busy: bool,
    pub awaddr: u32,
    pub awvalid: bool,
    pub wdata: u32,
    pub wstrb: u8,
    pub wvalid: bool,
    pub bready: bool,
    pub araddr: u32,
    pub arvalid: bool,
    pub rready: bool,
}

/// What the master drives in a state: each channel's valid or ready is raised
/// in the state that waits for that channel, with the latched address or data
/// on it and zero elsewhere; writes use all four byte lanes.
pub open spec fn master_outputs(s: AxiLiteMasterState) -> AxiLiteMasterOutputs {
    AxiLiteMasterOutputs {
        rd_data: s.data_reg,
        done: s.state == ST_DONE,
        busy: s.state != ST_IDLE,
        awaddr: if s.state == ST_WR_ADDR { s.addr_reg } else { 0 },
        awvalid: s.state == ST_WR_ADDR,
        wdata: if s.state == ST_WR_DATA { s.data_reg } else { 0 },
        wstrb: if s.state == ST_WR_DATA { 0x0F } else { 0 },
        wvalid: s.state == ST_WR_DATA,
        bready: s.state == ST_WR_RESP,
        araddr: if s.state == ST_RD_ADDR { s.addr_reg } else { 0 },
        arvalid: s.state == ST_RD_ADDR,
        rready: s.state == ST_RD_DATA,
    }
}

/// The state after one clock edge.  From idle a write command wins over a
/// read command; every other state advances when its handshake completes,
/// and unknown states fall back to idle.
pub open spec fn master_next(s: AxiLiteMasterState, i: AxiLiteMasterInputs) -> AxiLiteMasterState {
    if s.state == ST_IDLE {
        if i.wr_start {
            AxiLiteMasterState { state: ST_WR_ADDR, addr_reg: i.wr_addr, data_reg: i.wr_data }
        } else if i.rd_start {
            AxiLiteMasterState { state: ST_RD_ADDR, addr_reg: i.rd_addr, ..s }
        } else {
            s
        }
    } else if s.state == ST_WR_ADDR {
        if i.awready { AxiLiteMasterState { state: ST_WR_DATA, ..s } } else { s }
    } else if s.state == ST_WR_DATA {
        if i.wready { AxiLiteMasterState { state: ST_WR_RESP, ..s } } else { s }
    } else if s.state == ST_WR_RESP {
        if i.bvalid { AxiLiteMasterState { state: ST_DONE, ..s } } else { s }
    } else if s.state == ST_RD_ADDR {
        if i.arready { AxiLiteMasterState { state: ST_RD_DATA, ..s } } else { s }
    } else if s.state == ST_RD_DATA {
        if i.rvalid {
            AxiLiteMasterState { state: ST_DONE, data_reg: i.rdata, ..s }
        } else {
            s
        }
    } else {
        AxiLiteMasterState { state: ST_IDLE, ..s }
    }
}

impl AxiLiteMasterState {
    /// The reset state: idle, address and data zero.
    pub fn new() -> (r: Self)
        ensures
            r == (AxiLiteMasterState { state: ST_IDLE, addr_reg: 0, data_reg: 0 }),
    {
        AxiLiteMasterState { state: ST_IDLE, addr_reg: 0, data_reg: 0 }
    }
}

/// One clock cycle of the master: the outputs it drives in `state`, and the
/// state it holds after the clock edge given the sampled `inputs`.
pub fn axi_lite_master_step(state: &AxiLiteMasterState, inputs: &AxiLiteMasterInputs) -> (r: (
    AxiLiteMasterState,
    AxiLiteMasterOutputs,
))
    ensures
        r.0 == master_next(*state, *inputs),
        r.1 == master_outputs(*state),
{
    let mut next = *state;
    let mut out = AxiLiteMasterOutputs {
        rd_data: state.data_reg,
        done: false,
        busy: state.state != ST_IDLE,
        awaddr: 0,
        awvalid: false,
        wdata: 0,
        wstrb: 0,
        wvalid: false,
        bready: false,
        araddr: 0,
        arvalid: false,
        rready: false,
    };
    let st = state.state;
    if st == ST_IDLE {
        if inputs.wr_start {
            next.addr_reg = inputs.wr_addr;
            next.data_reg = inputs.wr_data;
            next.state = ST_WR_ADDR;
        } else if inputs.rd_start {
            next.addr_reg = inputs.rd_addr;
            next.state = ST_RD_ADDR;
        }
    } else if st == ST_WR_ADDR {
        out.awvalid = true;
        out.awaddr = state.addr_reg;
        if inputs.awready {
            next.state = ST_WR_DATA;
        }
    } else if st == ST_WR_DATA {
        out.wvalid = true;
        out.wdata = state.data_reg;
        out.wstrb = 0x0F;
        if inputs.wready {
            next.state = ST_WR_RESP;
        }
    } else if st == ST_WR_RESP {
        out.bready = true;
        if inputs.bvalid {
            next.state = ST_DONE;
        }
    } else if st == ST_RD_ADDR {
        out.arvalid = true;
        out.araddr = state.addr_reg;
        if inputs.arready {
            next.state = ST_RD_DATA;
        }
    } else if st == ST_RD_DATA {
        out.rready = true;
        if inputs.rvalid {
            next.data_reg = inputs.rdata;
            next.state = ST_DONE;
        }
    } else if st == ST_DONE {
        out.done = true;
        next.state = ST_IDLE;
    } else {
        next.state = ST_IDLE;
    }
    (next, out)
}

/// In every state the master raises at most one of its five handshake
/// signals (AWVALID, WVALID, BREADY, ARVALID, RREADY): it drives one channel
/// at a time.
pub proof fn lemma_master_one_channel_at_a_time(s: AxiLiteMasterState)
    ensures
        ({
            let o = master_outputs(s);
            (if o.awvalid { 1int } else { 0 }) + (if o.wvalid { 1int } else { 0 }) + (if o.bready {
                1int
            } else {
                0
            }) + (if o.arvalid { 1int } else { 0 }) + (if o.rready { 1int } else { 0 }) <= 1
        }),
{
}

/// `done` is only ever raised while busy, and the cycle after `done` the
/// master is idle again whatever it samples.
pub proof fn lemma_master_done_returns_to_idle(s: AxiLiteMasterState, i: AxiLiteMasterInputs)
    ensures
        master_outputs(s).done ==> master_outputs(s).busy,
        master_outputs(s).done ==> master_next(s, i).state == ST_IDLE,
        master_outputs(s).busy <==> s.state != ST_IDLE,
{
}

/// The master follows the AXI handshake rule: a raised VALID or READY stays
/// raised, with the same address, data and strobe, until the other side
/// answers in the same cycle, and once the handshake happens it is dropped.
pub proof fn lemma_master_holds_until_handshake(s: AxiLiteMasterState, i: AxiLiteMasterInputs)
    ensures
        ({
            let o = master_outputs(s);
            let n = master_outputs(master_next(s, i));
            &&& o.awvalid && !i.awready ==> n.awvalid && n.awaddr == o.awaddr
            &&& o.awvalid && i.awready ==> !n.awvalid
            &&& o.wvalid && !i.wready ==> n.wvalid && n.wdata == o.wdata && n.wstrb == o.wstrb
            &&& o.wvalid && i.wready ==> !n.wvalid
            &&& o.bready && !i.bvalid ==> n.bready
            &&& o.bready && i.bvalid ==> !n.bready && n.done
            &&& o.arvalid && !i.arready ==> n.arvalid && n.araddr == o.araddr
            &&& o.arvalid && i.arready ==> !n.arvalid
            &&& o.rready && !i.rvalid ==> n.rready
            &&& o.rready && i.rvalid ==> !n.rready && n.done && n.rd_data == i.rdata
        }),
{
}

/// The write data offered is the data of the command: after a write command
/// from idle, the address phase carries `wr_addr`, and the data phase that
/// follows it carries `wr_data` on all four byte lanes.
pub proof fn lemma_master_write_carries_command(
    s: AxiLiteMasterState,
    i: AxiLiteMasterInputs,
    j: AxiLiteMasterInputs,
)
    requires
        s.state == ST_IDLE,
        i.wr_start,
        j.awready,
    ensures
        master_outputs(master_next(s, i)).awvalid,
        master_outputs(master_next(s, i)).awaddr == i.wr_addr,
        master_outputs(master_next(master_next(s, i), j)).wvalid,
        master_outputs(master_next(master_next(s, i), j)).wdata == i.wr_data,
        master_outputs(master_next(master_next(s, i), j)).wstrb == 0x0F,
{
}

} // verus!
