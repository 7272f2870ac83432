//! The engine as a state machine: how its state and the driver's report
//! give the next state and the next action.

use vstd::prelude::*;
use crate::bus::{frame_of, Action, Event, Op};
use crate::errors::RFIDError;
use crate::protocol::{decide_of, failure_of, lenient_of, Outcome, Plan, Task};

verus! {

/// Where the engine stands within the register operation at hand.
#[derive(Clone, Copy, Debug, PartialEq, Eq)]
pub enum Phase {
    /// No operation is running.
    Idle,
    /// Chip-select is being driven low; the transfer of `tx` comes next. A
    /// read captures the reply's second byte.
    Selected { tx: [u8; 2], capture: bool },
    /// The transfer is under way; chip-select is released next, whatever
    /// the transfer brings.
    Exchanging { capture: bool },
    /// Chip-select is high, or a line is being driven, or time passes; the
    /// script goes on next.
    Settling,
}

/// The engine's state.
pub struct Machine {
    /// The operations of the running script that are still to come.
    pub pending: Seq<Op>,
    /// Where the engine stands within the operation at hand.
    pub phase: Phase,
    /// The values that the running script has read so far.
    pub values: Seq<u8>,
    /// Whether the transport has failed during the running operation.
    pub fault: bool,
    /// What the running script is for; none when no operation is running.
    pub task: Option<Task>,
}

/// The engine at rest.
pub open spec fn idle_machine() -> Machine {
    Machine {
        pending: Seq::empty(),
        phase: Phase::Idle,
        values: Seq::empty(),
        fault: false,
        task: None,
    }
}

/// The end of an operation: the engine comes to rest and hands out the
/// result.
pub open spec fn finish_of(outcome: Outcome) -> (Machine, Action) {
    (idle_machine(), Action::Finished(outcome))
}

/// The phase and the action with which `op` begins.
pub open spec fn opening_of(op: Op) -> (Phase, Action) {
    match op {
        Op::Write { addr, value } => (
            Phase::Selected { tx: [addr & 0x7F, value], capture: false },
            Action::SelectChip,
        ),
        Op::Read { addr } => (
            Phase::Selected { tx: [addr | 0x80, 0x00], capture: true },
            Action::SelectChip,
        ),
        Op::DelayMs { ms } => (Phase::Settling, Action::DelayMs { ms }),
        Op::ResetLine { high } => (Phase::Settling, Action::ResetLine { high }),
        Op::Release => (Phase::Settling, Action::ReleaseChip),
    }
}

/// Takes the next operation off the script and begins it.
pub open spec fn issue_of(m: Machine) -> (Machine, Action)
    recommends
        m.pending.len() > 0,
{
    (
        Machine {
            pending: m.pending.subrange(1, m.pending.len() as int),
            phase: opening_of(m.pending[0]).0,
            ..m
        },
        opening_of(m.pending[0]).1,
    )
}

/// Goes on after an operation of the script has been completed. A failed
/// transport ends every task but the lenient ones. Otherwise the script goes
/// on; at its end the values are judged, and the verdict's script begins
/// or the operation finishes.
pub open spec fn proceed_of(m: Machine) -> (Machine, Action) {
    match m.task {
        None => (idle_machine(), Action::Idle),
        Some(task) => if m.fault && !lenient_of(task) {
            finish_of(failure_of(task, RFIDError::CommunicationError))
        } else if m.pending.len() > 0 {
            issue_of(m)
        } else {
            match decide_of(task, m.values) {
                Plan::Finish { outcome } => finish_of(outcome),
                Plan::Next { script, task: next } => issue_of(
                    Machine { pending: script, values: Seq::empty(), task: Some(next), ..m },
                ),
            }
        },
    }
}

/// The state after the reply to a transfer, or after its failure. A read
/// keeps the reply's second byte; a failed read keeps a zero.
pub open spec fn received_of(m: Machine, capture: bool, event: Event) -> Machine {
    match event {
        Event::Reply { rx } => Machine {
            phase: Phase::Settling,
            values: if capture {
                m.values.push(rx@[1])
            } else {
                m.values
            },
            ..m
        },
        _ => Machine {
            phase: Phase::Settling,
            values: if capture {
                m.values.push(0)
            } else {
                m.values
            },
            fault: true,
            ..m
        },
    }
}

/// One step of the engine: the state and the action that follow from a
/// state and the driver's report.
pub open spec fn step_of(m: Machine, event: Event) -> (Machine, Action) {
    match m.phase {
        Phase::Idle => (m, Action::Idle),
        Phase::Selected { tx, capture } => (
            Machine { phase: Phase::Exchanging { capture }, ..m },
            Action::Transfer { tx },
        ),
        Phase::Exchanging { capture } => (received_of(m, capture, event), Action::ReleaseChip),
        Phase::Settling => proceed_of(m),
    }
}

/// The start of an operation: the engine takes up the script and goes on
/// as after a completed operation.
pub open spec fn begin_of(script: Seq<Op>, task: Task) -> (Machine, Action) {
    proceed_of(
        Machine {
            pending: script,
            phase: Phase::Settling,
            values: Seq::empty(),
            fault: false,
            task: Some(task),
        },
    )
}

/// What `opening_of` puts on the bus for an exchange is the frame of the
/// register access layer.
pub proof fn lemma_opening_frames(op: Op)
    ensures
        opening_of(op).0 matches Phase::Selected { tx, .. } ==> tx@ == frame_of(op),
        (op is Write || op is Read) <==> opening_of(op).0 is Selected,
        (op is Write || op is Read) <==> opening_of(op).1 is SelectChip,
{
    match op {
        Op::Write { addr, value } => {
            assert([addr & 0x7F, value]@ =~= frame_of(op));
        },
        Op::Read { addr } => {
            assert([addr | 0x80, 0x00u8]@ =~= frame_of(op));
        },
        _ => {},
    }
}

} // verus!
