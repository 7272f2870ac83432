//! The register access layer: what one register operation puts on the serial
//! bus, and the vocabulary in which the engine and its driver talk.
//!
//! The engine never touches the bus. It hands out one [`Action`] at a time;
//! the driver performs it on the hardware and reports back with an [`Event`].

use vstd::prelude::*;

verus! {

/// One operation on the chip or its lines, as the protocol layer orders it.
#[derive(Clone, Copy, Debug, PartialEq, Eq)]
pub enum Op {
    /// Store `value` in the register at `addr`.
    Write { addr: u8, value: u8 },
    /// Fetch the register at `addr`.
    Read { addr: u8 },
    /// Let `ms` milliseconds pass.
    DelayMs { ms: u16 },
    /// Drive the hardware reset line.
    ResetLine { high: bool },
    /// Drive chip-select high without an exchange.
    Release,
}

/// What the driver is asked to do next.
#[derive(Clone, Copy, Debug, PartialEq, Eq)]
pub enum Action {
    /// Drive chip-select low: a register exchange begins.
    SelectChip,
    /// Exchange two bytes with the chip, full duplex.
    Transfer { tx: [u8; 2] },
    /// Drive chip-select high: the exchange, if any, is over.
    ReleaseChip,
    /// Drive the hardware reset line.
    ResetLine { high: bool },
    /// Let `ms` milliseconds pass.
    DelayMs { ms: u16 },
    /// The operation is over; this is its result.
    Finished(crate::protocol::Outcome),
    /// No operation is running.
    Idle,
}

/// What the driver reports after it performed an action.
#[derive(Clone, Copy, Debug, PartialEq, Eq)]
pub enum Event {
    /// The line was driven, or the time has passed.
    Done,
    /// The two bytes that came back during a transfer.
    Reply { rx: [u8; 2] },
    /// The transport failed.
    Fault,
}

/// The two bytes that store `value` in the register at `addr`.
pub open spec fn write_frame_of(addr: u8, value: u8) -> Seq<u8> {
    seq![addr & 0x7F, value]
}

/// The two bytes that fetch the register at `addr`.
pub open spec fn read_frame_of(addr: u8) -> Seq<u8> {
    seq![addr | 0x80, 0x00]
}

/// Frames a register write: the address with the direction bit clear, then
/// the value.
pub fn write_frame(addr: u8, value: u8) -> (tx: [u8; 2])
    ensures
        tx@ == write_frame_of(addr, value),
{
    [addr & 0x7F, value]
}

/// Frames a register read: the address with the direction bit set, then a
/// filler byte during which the chip answers.
pub fn read_frame(addr: u8) -> (tx: [u8; 2])
    ensures
        tx@ == read_frame_of(addr),
{
    [addr | 0x80, 0x00]
}

/// The register's value in the chip's answer to a read: its second byte.
pub fn read_value(rx: [u8; 2]) -> (value: u8)
    ensures
        value == rx@[1],
{
    rx[1]
}

/// Whether `op` is an exchange with the chip, bracketed by chip-select.
pub open spec fn is_exchange(op: Op) -> bool {
    op is Write || op is Read
}

/// The bytes that `op` puts on the bus, for an exchange.
pub open spec fn frame_of(op: Op) -> Seq<u8> {
    match op {
        Op::Write { addr, value } => write_frame_of(addr, value),
        Op::Read { addr } => read_frame_of(addr),
        _ => Seq::empty(),
    }
}

/// How many actions `op` takes: three for an exchange (select, transfer,
/// release), one for anything else.
pub open spec fn op_cost(op: Op) -> nat {
    if is_exchange(op) {
        3
    } else {
        1
    }
}

/// How many actions a whole script takes.
pub open spec fn script_cost(script: Seq<Op>) -> nat
    decreases script.len(),
{
    if script.len() == 0 {
        0
    } else {
        script_cost(script.drop_last()) + op_cost(script.last())
    }
}

/// The cost of two scripts, one after the other, is the sum of their costs.
pub proof fn lemma_script_cost_concat(a: Seq<Op>, b: Seq<Op>)
    ensures
        script_cost(a + b) == script_cost(a) + script_cost(b),
    decreases b.len(),
{
    if b.len() == 0 {
        assert(a + b == a);
    } else {
        assert((a + b).drop_last() == a + b.drop_last());
        lemma_script_cost_concat(a, b.drop_last());
    }
}

} // verus!
