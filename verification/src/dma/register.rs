//! DMA register map newtypes with bit-field accessors.
//!
//! | Offset | Register | Description |
//! |--------|----------|-------------|
//! | 0x00 | Control | start, stop, interrupt enable |
//! | 0x04 | Status | busy, done, error, interrupt pending |
//! | 0x08 | Source Address | 32-bit source |
//! | 0x0C | Dest Address | 32-bit destination |
//! | 0x10 | Transfer Length | bytes to transfer |

use vstd::prelude::*;

use crate::primitives::address::AxiAddress;
use crate::text::{bool_text, decimal, push_bool, push_decimal};

verus! {

/// Control register offset.
pub const REG_CONTROL: u32 = 0x00;
/// Status register offset.
pub const REG_STATUS: u32 = 0x04;
/// Source address register offset.
pub const REG_SOURCE: u32 = 0x08;
/// Destination address register offset.
pub const REG_DEST: u32 = 0x0C;
/// Transfer length register offset.
pub const REG_LENGTH: u32 = 0x10;

/// DMA control register (offset 0x00).
///
/// Bit 0: start.  Bit 1: stop.  Bit 2: interrupt enable.
#[derive(Debug, Clone, Copy, PartialEq, Eq, Hash, Structural)]
pub struct DmaControl(u32);

impl View for DmaControl {
    type V = u32;

    closed spec fn view(&self) -> u32 {
        self.0
    }
}

/// Two control registers with the same view are equal.
pub proof fn lemma_control_view_injective(a: DmaControl, b: DmaControl)
    requires
        a@ == b@,
    ensures
        a == b,
{
}

/// How a control word is written: its three flags.
pub open spec fn control_text(v: u32) -> Seq<char> {
    "CTRL(start="@ + bool_text(v & 1 != 0) + ", stop="@ + bool_text(v & 2 != 0) + ", irq="@
        + bool_text(v & 4 != 0) + ")"@
}

impl DmaControl {
    /// The control word as text, as in `CTRL(start=true, stop=false, irq=false)`.
    pub fn to_string(&self) -> (r: String)
        ensures
            r@ == control_text(self@),
    {
        let mut s = String::new();
        s.append("CTRL(start=");
        push_bool(&mut s, self.start());
        s.append(", stop=");
        push_bool(&mut s, self.stop());
        s.append(", irq=");
        push_bool(&mut s, self.interrupt_enable());
        s.append(")");
        proof {
            assert(s@ =~= control_text(self@));
        }
        s
    }

    /// Create from a raw 32-bit value.
    pub fn new(value: u32) -> (r: Self)
        ensures
            r@ == value,
    {
        DmaControl(value)
    }

    /// The raw value.
    pub fn value(self) -> (r: u32)
        ensures
            r == self@,
    {
        self.0
    }

    /// Whether the start bit (bit 0) is set.
    pub fn start(self) -> (r: bool)
        ensures
            r == (self@ & 1 != 0),
    {
        self.0 & 0x01 != 0
    }

    /// Whether the stop bit (bit 1) is set.
    pub fn stop(self) -> (r: bool)
        ensures
            r == (self@ & 2 != 0),
    {
        self.0 & 0x02 != 0
    }

    /// Whether interrupts are enabled (bit 2).
    pub fn interrupt_enable(self) -> (r: bool)
        ensures
            r == (self@ & 4 != 0),
    {
        self.0 & 0x04 != 0
    }

    /// A control word with only the start bit set.
    pub fn with_start() -> (r: Self)
        ensures
            r@ == 1,
    {
        DmaControl(0x01)
    }

    /// A control word with only the stop bit set.
    pub fn with_stop() -> (r: Self)
        ensures
            r@ == 2,
    {
        DmaControl(0x02)
    }
}

/// DMA status register (offset 0x04).
///
/// Bit 0: busy.  Bit 1: done.  Bit 2: error.  Bit 3: interrupt pending.
#[derive(Debug, Clone, Copy, PartialEq, Eq, Hash, Structural)]
pub struct DmaStatus(u32);

impl View for DmaStatus {
    type V = u32;

    closed spec fn view(&self) -> u32 {
        self.0
    }
}

/// Two status registers with the same view are equal.
pub proof fn lemma_status_view_injective(a: DmaStatus, b: DmaStatus)
    requires
        a@ == b@,
    ensures
        a == b,
{
}

/// How a status word is written: its four flags.
pub open spec fn status_text(v: u32) -> Seq<char> {
    "STAT(busy="@ + bool_text(v & 1 != 0) + ", done="@ + bool_text(v & 2 != 0) + ", err="@
        + bool_text(v & 4 != 0) + ", irq="@ + bool_text(v & 8 != 0) + ")"@
}

impl DmaStatus {
    /// The status word as text, as in `STAT(busy=false, done=true, err=false, irq=false)`.
    pub fn to_string(&self) -> (r: String)
        ensures
            r@ == status_text(self@),
    {
        let mut s = String::new();
        s.append("STAT(busy=");
        push_bool(&mut s, self.busy());
        s.append(", done=");
        push_bool(&mut s, self.done());
        s.append(", err=");
        push_bool(&mut s, self.error());
        s.append(", irq=");
        push_bool(&mut s, self.interrupt_pending());
        s.append(")");
        proof {
            assert(s@ =~= status_text(self@));
        }
        s
    }

    /// Create from a raw 32-bit value.
    pub fn new(value: u32) -> (r: Self)
        ensures
            r@ == value,
    {
        DmaStatus(value)
    }

    /// The raw value.
    pub fn value(self) -> (r: u32)
        ensures
            r == self@,
    {
        self.0
    }

    /// Whether the DMA is transferring (bit 0).
    pub fn busy(self) -> (r: bool)
        ensures
            r == (self@ & 1 != 0),
    {
        self.0 & 0x01 != 0
    }

    /// Whether the last transfer completed (bit 1).
    pub fn done(self) -> (r: bool)
        ensures
            r == (self@ & 2 != 0),
    {
        self.0 & 0x02 != 0
    }

    /// Whether an error occurred (bit 2).
    pub fn error(self) -> (r: bool)
        ensures
            r == (self@ & 4 != 0),
    {
        self.0 & 0x04 != 0
    }

    /// Whether an interrupt is pending (bit 3).
    pub fn interrupt_pending(self) -> (r: bool)
        ensures
            r == (self@ & 8 != 0),
    {
        self.0 & 0x08 != 0
    }

    /// Status of the idle state: no bit set.
    pub fn idle() -> (r: Self)
        ensures
            r@ == 0,
    {
        DmaStatus(0)
    }

    /// Status of the busy state: only the busy bit.
    pub fn busy_status() -> (r: Self)
        ensures
            r@ == 1,
    {
        DmaStatus(0x01)
    }

    /// Status of the done state: only the done bit.
    pub fn done_status() -> (r: Self)
        ensures
            r@ == 2,
    {
        DmaStatus(0x02)
    }

    /// Status of the error state: only the error bit.
    pub fn error_status() -> (r: Self)
        ensures
            r@ == 4,
    {
        DmaStatus(0x04)
    }
}

/// Transfer length in bytes.
#[derive(Debug, Clone, Copy, PartialEq, Eq, Hash, Structural)]
pub struct TransferLength(u32);

impl View for TransferLength {
    type V = u32;

    closed spec fn view(&self) -> u32 {
        self.0
    }
}

/// Two transfer lengths with the same view are equal.
pub proof fn lemma_length_view_injective(a: TransferLength, b: TransferLength)
    requires
        a@ == b@,
    ensures
        a == b,
{
}

/// How a length is written: decimal, then ` bytes`.
pub open spec fn length_text(v: u32) -> Seq<char> {
    decimal(v as nat) + " bytes"@
}

impl TransferLength {
    /// The length as text, as in `1024 bytes`.
    pub fn to_string(&self) -> (r: String)
        ensures
            r@ == length_text(self@),
    {
        let mut s = String::new();
        push_decimal(&mut s, self.0 as u64);
        s.append(" bytes");
        proof {
            assert(s@ =~= length_text(self@));
        }
        s
    }

    /// Create a new transfer length.
    pub fn new(bytes: u32) -> (r: Self)
        ensures
            r@ == bytes,
    {
        TransferLength(bytes)
    }

    /// The length in bytes.
    pub fn bytes(self) -> (r: u32)
        ensures
            r == self@,
    {
        self.0
    }

    /// Whether this is a zero-length transfer.
    pub fn is_zero(self) -> (r: bool)
        ensures
            r == (self@ == 0),
    {
        self.0 == 0
    }
}

/// A complete DMA register set (snapshot).
#[derive(Debug, Clone, Copy, PartialEq, Eq, Structural)]
pub struct DmaRegisterSet {
    control: DmaControl,
    status: DmaStatus,
    source: AxiAddress,
    dest: AxiAddress,
    length: TransferLength,
}

impl DmaRegisterSet {
    /// The control register.
    pub closed spec fn spec_control(self) -> DmaControl {
        self.control
    }

    /// The status register.
    pub closed spec fn spec_status(self) -> DmaStatus {
        self.status
    }

    /// The source address.
    pub closed spec fn spec_source(self) -> AxiAddress {
        self.source
    }

    /// The destination address.
    pub closed spec fn spec_dest(self) -> AxiAddress {
        self.dest
    }

    /// The transfer length.
    pub closed spec fn spec_length(self) -> TransferLength {
        self.length
    }

    /// A register set with every register zero.
    pub fn new() -> (r: Self)
        ensures
            r.spec_control()@ == 0,
            r.spec_status()@ == 0,
            r.spec_source()@ == 0,
            r.spec_dest()@ == 0,
            r.spec_length()@ == 0,
    {
        DmaRegisterSet {
            control: DmaControl::new(0),
            status: DmaStatus::idle(),
            source: AxiAddress::zero(),
            dest: AxiAddress::zero(),
            length: TransferLength::new(0),
        }
    }

    /// The control register.
    pub fn control(&self) -> (r: DmaControl)
        ensures
            r == self.spec_control(),
    {
        self.control
    }

    /// The status register.
    pub fn status(&self) -> (r: DmaStatus)
        ensures
            r == self.spec_status(),
    {
        self.status
    }

    /// The source address.
    pub fn source(&self) -> (r: AxiAddress)
        ensures
            r == self.spec_source(),
    {
        self.source
    }

    /// The destination address.
    pub fn dest(&self) -> (r: AxiAddress)
        ensures
            r == self.spec_dest(),
    {
        self.dest
    }

    /// The transfer length.
    pub fn length(&self) -> (r: TransferLength)
        ensures
            r == self.spec_length(),
    {
        self.length
    }

    /// This register set with the control register replaced.
    pub fn with_control(self, control: DmaControl) -> (r: Self)
        ensures
            r.spec_control() == control,
            r.spec_status() == self.spec_status(),
            r.spec_source() == self.spec_source(),
            r.spec_dest() == self.spec_dest(),
            r.spec_length() == self.spec_length(),
    {
        DmaRegisterSet { control, ..self }
    }

    /// This register set with the status register replaced.
    pub fn with_status(self, status: DmaStatus) -> (r: Self)
        ensures
            r.spec_control() == self.spec_control(),
            r.spec_status() == status,
            r.spec_source() == self.spec_source(),
            r.spec_dest() == self.spec_dest(),
            r.spec_length() == self.spec_length(),
    {
        DmaRegisterSet { status, ..self }
    }

    /// This register set with the source address replaced.
    pub fn with_source(self, source: AxiAddress) -> (r: Self)
        ensures
            r.spec_control() == self.spec_control(),
            r.spec_status() == self.spec_status(),
            r.spec_source() == source,
            r.spec_dest() == self.spec_dest(),
            r.spec_length() == self.spec_length(),
    {
        DmaRegisterSet { source, ..self }
    }

    /// This register set with the destination address replaced.
    pub fn with_dest(self, dest: AxiAddress) -> (r: Self)
        ensures
            r.spec_control() == self.spec_control(),
            r.spec_status() == self.spec_status(),
            r.spec_source() == self.spec_source(),
            r.spec_dest() == dest,
            r.spec_length() == self.spec_length(),
    {
        DmaRegisterSet { dest, ..self }
    }

    /// This register set with the transfer length replaced.
    pub fn with_length(self, length: TransferLength) -> (r: Self)
        ensures
            r.spec_control() == self.spec_control(),
            r.spec_status() == self.spec_status(),
            r.spec_source() == self.spec_source(),
            r.spec_dest() == self.spec_dest(),
            r.spec_length() == length,
    {
        DmaRegisterSet { length, ..self }
    }
}

impl Default for DmaRegisterSet {
    fn default() -> (r: Self)
        ensures
            r.spec_control()@ == 0,
            r.spec_status()@ == 0,
            r.spec_source()@ == 0,
            r.spec_dest()@ == 0,
            r.spec_length()@ == 0,
    {
        DmaRegisterSet::new()
    }
}

} // verus!
