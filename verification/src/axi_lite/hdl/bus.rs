//! The AXI-Lite bus: a master wired to a slave.
//!
//! Each of the master's channel outputs drives the matching slave input and
//! each of the slave's outputs drives the matching master input.  Both
//! modules drive their outputs from their registered state alone, so a bus
//! cycle is well defined: sample both outputs, then clock both modules.

use vstd::prelude::*;

use crate::axi_lite::hdl::master::{
    master_next, master_outputs, AxiLiteMasterInputs, AxiLiteMasterOutputs, AxiLiteMasterState,
    ST_DONE, ST_IDLE, ST_RD_ADDR, ST_RD_DATA, ST_WR_ADDR, ST_WR_DATA, ST_WR_RESP,
};
use crate::axi_lite::hdl::slave::{
    slave_next, slave_outputs, slave_reg_index, AxiLiteSlaveInputs, AxiLiteSlaveOutputs, SlaveModel,
    RD_GOT_ADDR, RD_IDLE, WR_GOT_ADDR, WR_IDLE, WR_RESP,
};

verus! {

/// What the host asks of the master in one cycle.
#[derive(Debug, Clone, Copy, PartialEq, Eq, Structural)]
pub struct HostCommand {
    pub wr_addr: u32,
    pub wr_data: u32,
    pub wr_start: bool,
    pub rd_addr: u32,
    pub rd_start: bool,
}

/// A cycle in which the host asks nothing.
pub open spec fn host_idle() -> HostCommand {
    HostCommand { wr_addr: 0, wr_data: 0, wr_start: false, rd_addr: 0, rd_start: false }
}

/// A cycle in which the host asks for a write of `data` at `addr`.
pub open spec fn host_write(addr: u32, data: u32) -> HostCommand {
    HostCommand { wr_addr: addr, wr_data: data, wr_start: true, rd_addr: 0, rd_start: false }
}

/// A cycle in which the host asks for a read at `addr`.
pub open spec fn host_read(addr: u32) -> HostCommand {
    HostCommand { wr_addr: 0, wr_data: 0, wr_start: false, rd_addr: addr, rd_start: true }
}

/// The master's inputs: the host command and the slave's channel outputs.
pub open spec fn master_inputs_on_bus(h: HostCommand, so: AxiLiteSlaveOutputs) -> AxiLiteMasterInputs {
    AxiLiteMasterInputs {
        wr_addr: h.wr_addr,
        wr_data: h.wr_data,
        wr_start: h.wr_start,
        rd_addr: h.rd_addr,
        rd_start: h.rd_start,
        awready: so.awready,
        wready: so.wready,
        bresp: so.bresp,
        bvalid: so.bvalid,
        arready: so.arready,
        rdata: so.rdata,
        rresp: so.rresp,
        rvalid: so.rvalid,
    }
}

/// The slave's inputs: the master's channel outputs.
pub open spec fn slave_inputs_on_bus(mo: AxiLiteMasterOutputs) -> AxiLiteSlaveInputs {
    AxiLiteSlaveInputs {
        awaddr: mo.awaddr,
        awvalid: mo.awvalid,
        wdata: mo.wdata,
        wstrb: mo.wstrb,
        wvalid: mo.wvalid,
        bready: mo.bready,
        araddr: mo.araddr,
        arvalid: mo.arvalid,
        rready: mo.rready,
    }
}

/// One bus cycle.
pub open spec fn bus_next(m: AxiLiteMasterState, s: SlaveModel, h: HostCommand) -> (
    AxiLiteMasterState,
    SlaveModel,
) {
    (
        master_next(m, master_inputs_on_bus(h, slave_outputs(s))),
        slave_next(s, slave_inputs_on_bus(master_outputs(m))),
    )
}

/// The bus after one cycle per host command, in order.
pub open spec fn bus_run(m: AxiLiteMasterState, s: SlaveModel, cmds: Seq<HostCommand>) -> (
    AxiLiteMasterState,
    SlaveModel,
)
    decreases cmds.len(),
{
    if cmds.len() == 0 {
        (m, s)
    } else {
        let (m1, s1) = bus_next(m, s, cmds[0]);
        bus_run(m1, s1, cmds.drop_first())
    }
}

/// The cycles of a write of `data` at `addr`: the command, then four cycles
/// for the address, data and response handshakes and the completion pulse.
pub open spec fn write_cycles(addr: u32, data: u32) -> Seq<HostCommand> {
    seq![host_write(addr, data), host_idle(), host_idle(), host_idle(), host_idle()]
}

/// The cycles of a read at `addr`: the command, then the address and data
/// handshakes.
pub open spec fn read_cycles(addr: u32) -> Seq<HostCommand> {
    seq![host_read(addr), host_idle(), host_idle()]
}

proof fn lemma_bus_run_append(
    m: AxiLiteMasterState,
    s: SlaveModel,
    a: Seq<HostCommand>,
    b: Seq<HostCommand>,
)
    ensures
        bus_run(m, s, a + b) == ({
            let (m1, s1) = bus_run(m, s, a);
            bus_run(m1, s1, b)
        }),
    decreases a.len(),
{
    if a.len() > 0 {
        let (m1, s1) = bus_next(m, s, a[0]);
        assert((a + b).drop_first() =~= a.drop_first() + b);
        lemma_bus_run_append(m1, s1, a.drop_first(), b);
    } else {
        assert(a + b =~= b);
    }
}

/// A write on an idle bus completes in five cycles: the master is idle
/// again, both slave FSMs are idle, and the register selected by `addr`
/// holds `data` while every other register is unchanged.
pub proof fn lemma_bus_write_completes(m: AxiLiteMasterState, s: SlaveModel, addr: u32, data: u32)
    requires
        m.state == ST_IDLE,
        s.wr_state == WR_IDLE,
        s.rd_state == RD_IDLE,
        s.regs.len() == 16,
    ensures
        ({
            let (m1, s1) = bus_run(m, s, write_cycles(addr, data));
            &&& m1.state == ST_IDLE
            &&& s1.wr_state == WR_IDLE
            &&& s1.rd_state == RD_IDLE
            &&& s1.regs == s.regs.update(slave_reg_index(addr), data)
        }),
{
    reveal_with_fuel(bus_run, 6);
    let c = write_cycles(addr, data);
    let (m1, s1) = bus_next(m, s, c[0]);
    let (m2, s2) = bus_next(m1, s1, c[1]);
    let (m3, s3) = bus_next(m2, s2, c[2]);
    let (m4, s4) = bus_next(m3, s3, c[3]);
    let (m5, s5) = bus_next(m4, s4, c[4]);
    assert(m1.state == ST_WR_ADDR && m1.addr_reg == addr && m1.data_reg == data);
    assert(s1.wr_state == WR_IDLE && s1.rd_state == RD_IDLE && s1.regs == s.regs);
    assert(m2.state == ST_WR_DATA && s2.wr_state == WR_GOT_ADDR && s2.wr_addr_reg == addr);
    assert(m3.state == ST_WR_RESP && s3.wr_state == WR_RESP && s3.wr_data_reg == data);
    assert(m4.state == ST_DONE && s4.wr_state == WR_IDLE);
    assert(s4.regs == s.regs.update(slave_reg_index(addr), data));
    assert(c.drop_first().drop_first().drop_first().drop_first().drop_first() =~= Seq::<
        HostCommand,
    >::empty());
}

/// What a read gives back of a write: on an idle bus, a write of `data` at
/// `addr` followed by a read at any address selecting the same register ends
/// with the master done and presenting `data` as its read data.
pub proof fn lemma_bus_read_returns_written(
    m: AxiLiteMasterState,
    s: SlaveModel,
    addr: u32,
    data: u32,
    read_addr: u32,
)
    requires
        m.state == ST_IDLE,
        s.wr_state == WR_IDLE,
        s.rd_state == RD_IDLE,
        s.regs.len() == 16,
        slave_reg_index(read_addr) == slave_reg_index(addr),
    ensures
        ({
            let (m1, s1) = bus_run(m, s, write_cycles(addr, data) + read_cycles(read_addr));
            &&& m1.state == ST_DONE
            &&& master_outputs(m1).done
            &&& master_outputs(m1).rd_data == data
        }),
{
    lemma_bus_write_completes(m, s, addr, data);
    lemma_bus_run_append(m, s, write_cycles(addr, data), read_cycles(read_addr));
    let (mw, sw) = bus_run(m, s, write_cycles(addr, data));
    reveal_with_fuel(bus_run, 4);
    let c = read_cycles(read_addr);
    let (m1, s1) = bus_next(mw, sw, c[0]);
    let (m2, s2) = bus_next(m1, s1, c[1]);
    let (m3, s3) = bus_next(m2, s2, c[2]);
    assert(m1.state == ST_RD_ADDR && m1.addr_reg == read_addr);
    assert(m2.state == ST_RD_DATA && s2.rd_state == RD_GOT_ADDR && s2.rd_addr_reg == read_addr);
    assert(s2.regs == sw.regs);
    assert(m3.state == ST_DONE && m3.data_reg == data);
    assert(c.drop_first().drop_first().drop_first() =~= Seq::<HostCommand>::empty());
}

} // verus!
