//! The command and poll layer and the activation state machine, as
//! decisions: which registers to write and read next, and what to make of
//! the values that came back.
//!
//! An operation runs as a chain of scripts. A script is a list of register
//! operations that need no decision in between. When a script has run, the
//! values it read are judged, and the verdict is either the next script or
//! the operation's result.

use vstd::prelude::*;
use vstd::slice::slice_subrange;
use crate::bus::Op;
use crate::commands::{PCD_CALC_CRC, PCD_IDLE, PCD_RESETPHASE, PCD_TRANSCEIVE, PICC_CMD_REQA};
use crate::errors::RFIDError;
use crate::picc::{
    atqa_verdict, atqa_verdict_of, cascade_continues, cascade_continues_of, collision_position,
    collision_position_of, exchange_frame, exchange_frame_of, framing, framing_of, guess_bit,
    guessed_block, merge_reply, merged_block, reply_len, reply_len_of, sak_verdict, sak_verdict_of,
    store_block, stored_block, Card, CascadeLevel, BLOCK_BITS, SHORT_FRAME_FRAMING,
};
use crate::registers::{
    BIT_FRAMING_REG, COLL_REG, COMMAND_REG, COMM_IRQ_REG, CRC_RESULT_REG_H, CRC_RESULT_REG_L,
    DIV_IRQ_REG, ERROR_REG, FIFO_DATA_REG, FIFO_LEVEL_REG, MODE_REG, MODE_WIDTH_REG, RF_CFG_REG,
    RX_MODE_REG, TX_ASK_REG, TX_CONTROL_REG, TX_MODE_REG, T_MODE_REG, T_PRESCALER_REG,
    T_RELOAD_REG_H, T_RELOAD_REG_L, VERSION_REG,
};

verus! {

/// How often an interrupt register is read before the wait is given up.
pub const POLL_BOUND: u8 = 100;

/// How many collisions are narrowed down on one cascade level before the
/// arbitration is given up.
pub const RETRY_BOUND: u8 = 32;

/// The bits of the communication interrupt register that end the wait for an
/// answer: reception complete, or the command went idle.
pub const EXCHANGE_DONE_MASK: u8 = 0x30;

/// The bit of the divider interrupt register that ends the wait for the
/// checksum coprocessor.
pub const CRC_DONE_MASK: u8 = 0x04;

/// The bit of the error register that reports a bit collision.
pub const COLLISION_FLAG: u8 = 0x08;

/// The two bits of the transmit control register that switch the antenna
/// drivers on.
pub const ANTENNA_BITS: u8 = 0x03;

/// The receiver gain setting for the longest range.
pub const MAX_GAIN: u8 = 0x70;

/// What a probe for a card is made for; it decides how the probe's verdict
/// is reported.
#[derive(Clone, Copy, Debug, PartialEq, Eq, Structural)]
pub enum Purpose {
    /// The answer to request itself is wanted.
    Atqa,
    /// Whether a request was answered.
    Request,
    /// Whether a card is there; none is no error.
    Presence,
    /// The answer to request of a card that is there; none is no error.
    Detect,
}

/// What an activation is made for.
#[derive(Clone, Copy, Debug, PartialEq, Eq, Structural)]
pub enum Goal {
    /// The card, or the reason why there is none.
    Select,
    /// The card if there is one.
    Serial,
}

/// The state of one activation.
#[derive(Clone, Copy, Debug, PartialEq, Eq)]
pub struct Session {
    /// What the activation is made for.
    pub goal: Goal,
    /// The cascade level being resolved.
    pub level: CascadeLevel,
    /// How many bits of this level's block are known; from 32 on the block
    /// is complete and the select frame is due.
    pub known: u8,
    /// How many collisions have been narrowed down on this level.
    pub retries: u8,
    /// This level's block, as far as known.
    pub block: [u8; 4],
    /// The identifier, as far as earlier levels gave it.
    pub uid: [u8; 10],
}

/// How an operation ended.
#[derive(Clone, Copy, Debug, PartialEq, Eq)]
pub enum Outcome {
    /// The chip was reset and configured; `version` is what its version
    /// register gave.
    Initialized { version: u8 },
    /// The receiver gain was set.
    GainSet,
    /// The checksum that the chip computed, low byte first.
    Crc(Result<[u8; 2], RFIDError>),
    /// The answer to request of a card in the field, if one is there.
    Detected(Result<Option<[u8; 2]>, RFIDError>),
    /// Whether a card is in the field.
    Present(Result<bool, RFIDError>),
    /// The answer to a request or wake-up.
    Atqa(Result<[u8; 2], RFIDError>),
    /// Whether a request was answered.
    Requested(Result<bool, RFIDError>),
    /// The card that was selected, if one was.
    Serial(Option<Card>),
    /// The card that was selected.
    Selected(Result<Card, RFIDError>),
}

/// Where an operation stands: which values the running script brings, and
/// what they are for.
#[derive(Clone, Copy, Debug, PartialEq, Eq)]
pub enum Task {
    /// Reset and configuration; brings the version and the transmit control
    /// register.
    Reset,
    /// The last writes of the initialisation.
    Configured { version: u8 },
    /// The write that sets the receiver gain.
    Gain,
    /// Waiting for the checksum coprocessor; brings the divider interrupt
    /// register. `left` more reads may follow.
    CrcPoll { left: u8 },
    /// Brings the two checksum bytes, low then high.
    CrcResult,
    /// Waiting for an answer to request; brings the communication interrupt
    /// register.
    ProbePoll { left: u8, purpose: Purpose },
    /// Brings the FIFO level after an answer to request.
    ProbeLevel { purpose: Purpose },
    /// Brings the two bytes of the answer to request.
    ProbeData { purpose: Purpose },
    /// Waiting for an answer to an anti-collision or select frame; brings
    /// the communication interrupt register.
    SelectPoll { left: u8, session: Session },
    /// Brings the error register and the FIFO level.
    SelectStatus { session: Session },
    /// Brings the collision register and then what the FIFO holds of the
    /// answer.
    SelectCollision { session: Session },
    /// Brings the bytes of the answer.
    SelectReply { session: Session },
}

/// A verdict on the values that a script brought.
pub enum Plan {
    /// The operations to go on with, and what their values are for.
    Next { script: Seq<Op>, task: Task },
    /// The operation is over.
    Finish { outcome: Outcome },
}

/// A verdict on the values that a script brought, as the engine holds it.
pub enum Decision {
    /// The operations to go on with, and what their values are for.
    Next { script: Vec<Op>, task: Task },
    /// The operation is over.
    Finish { outcome: Outcome },
}

impl View for Decision {
    type V = Plan;

    open spec fn view(&self) -> Plan {
        match *self {
            Decision::Next { script, task } => Plan::Next { script: script@, task },
            Decision::Finish { outcome } => Plan::Finish { outcome },
        }
    }
}

/// The `i`-th value that a script brought; zero where it brought fewer.
pub open spec fn value_at(values: Seq<u8>, i: int) -> u8 {
    if 0 <= i < values.len() {
        values[i]
    } else {
        0
    }
}

fn value(values: &Vec<u8>, i: usize) -> (v: u8)
    ensures
        v == value_at(values@, i as int),
{
    if i < values.len() {
        values[i]
    } else {
        0
    }
}

// ---------------------------------------------------------------------
// Scripts
// ---------------------------------------------------------------------
/// One write to the FIFO for each byte of `data`, in order.
pub open spec fn fifo_writes(data: Seq<u8>) -> Seq<Op> {
    Seq::new(data.len(), |i: int| Op::Write { addr: FIFO_DATA_REG, value: data[i] })
}

/// `n` reads of the FIFO.
pub open spec fn fifo_reads(n: nat) -> Seq<Op> {
    Seq::new(n, |i: int| Op::Read { addr: FIFO_DATA_REG })
}

/// Hardware reset, soft reset, the read of the version register, the base
/// configuration, and the read of the transmit control register.
pub open spec fn reset_script() -> Seq<Op> {
    seq![
        Op::Release,
        Op::ResetLine { high: false },
        Op::DelayMs { ms: 50 },
        Op::ResetLine { high: true },
        Op::DelayMs { ms: 50 },
        Op::Write { addr: COMMAND_REG, value: PCD_RESETPHASE },
        Op::DelayMs { ms: 50 },
        Op::Read { addr: VERSION_REG },
        Op::Write { addr: TX_MODE_REG, value: 0x00 },
        Op::Write { addr: RX_MODE_REG, value: 0x00 },
        Op::Write { addr: MODE_WIDTH_REG, value: 0x26 },
        Op::Write { addr: T_MODE_REG, value: 0x80 },
        Op::Write { addr: T_PRESCALER_REG, value: 0xA9 },
        Op::Write { addr: T_RELOAD_REG_H, value: 0x03 },
        Op::Write { addr: T_RELOAD_REG_L, value: 0xE8 },
        Op::Write { addr: TX_ASK_REG, value: 0x40 },
        Op::Write { addr: MODE_REG, value: 0x3D },
        Op::Read { addr: TX_CONTROL_REG },
    ]
}

/// Switches the antenna drivers on unless `control` says they are on, then
/// sets the receiver gain.
pub open spec fn antenna_script(control: u8) -> Seq<Op> {
    if control & ANTENNA_BITS != ANTENNA_BITS {
        seq![
            Op::Write { addr: TX_CONTROL_REG, value: control | ANTENNA_BITS },
            Op::Write { addr: RF_CFG_REG, value: MAX_GAIN },
        ]
    } else {
        seq![Op::Write { addr: RF_CFG_REG, value: MAX_GAIN }]
    }
}

/// Sets the receiver gain to its maximum.
pub open spec fn gain_script() -> Seq<Op> {
    seq![Op::Write { addr: RF_CFG_REG, value: MAX_GAIN }]
}

/// Stops the running command, clears the coprocessor's flag, empties the
/// FIFO, fills it with `data`, starts the coprocessor and reads its flag.
pub open spec fn crc_script(data: Seq<u8>) -> Seq<Op> {
    seq![
        Op::Write { addr: COMMAND_REG, value: PCD_IDLE },
        Op::Write { addr: DIV_IRQ_REG, value: CRC_DONE_MASK },
        Op::Write { addr: FIFO_LEVEL_REG, value: 0x80 },
    ] + fifo_writes(data) + seq![
        Op::Write { addr: COMMAND_REG, value: PCD_CALC_CRC },
        Op::Read { addr: DIV_IRQ_REG },
    ]
}

/// Waits a millisecond and reads the interrupt register at `addr` again.
pub open spec fn poll_script(addr: u8) -> Seq<Op> {
    seq![Op::DelayMs { ms: 1 }, Op::Read { addr }]
}

/// Clears the pending interrupt flags, empties the FIFO, fills it with
/// `frame`, starts the exchange and reads the interrupt flags.
pub open spec fn exchange_script(frame: Seq<u8>, framing: u8) -> Seq<Op> {
    seq![
        Op::Write { addr: COMM_IRQ_REG, value: 0x7F },
        Op::Write { addr: FIFO_LEVEL_REG, value: 0x80 },
    ] + fifo_writes(frame) + seq![
        Op::Write { addr: COMMAND_REG, value: PCD_TRANSCEIVE },
        Op::Write { addr: BIT_FRAMING_REG, value: framing },
        Op::Read { addr: COMM_IRQ_REG },
    ]
}

/// A request or wake-up: the one command byte as a short frame.
pub open spec fn probe_script(command: u8) -> Seq<Op> {
    exchange_script(seq![command], SHORT_FRAME_FRAMING)
}

/// Resets the data rates and the modulation width, then sends a request.
pub open spec fn presence_script() -> Seq<Op> {
    seq![
        Op::Write { addr: TX_MODE_REG, value: 0x00 },
        Op::Write { addr: RX_MODE_REG, value: 0x00 },
        Op::Write { addr: MODE_WIDTH_REG, value: 0x26 },
    ] + probe_script(PICC_CMD_REQA)
}

/// Reads the error register and the FIFO level.
pub open spec fn status_script() -> Seq<Op> {
    seq![Op::Read { addr: ERROR_REG }, Op::Read { addr: FIFO_LEVEL_REG }]
}

/// Reads the collision register and then `count` bytes of the FIFO.
pub open spec fn collision_script(count: nat) -> Seq<Op> {
    seq![Op::Read { addr: COLL_REG }] + fifo_reads(count)
}

/// Reads the two checksum result registers, low then high.
pub open spec fn crc_result_script() -> Seq<Op> {
    seq![Op::Read { addr: CRC_RESULT_REG_L }, Op::Read { addr: CRC_RESULT_REG_H }]
}

fn push_fifo_writes(script: &mut Vec<Op>, data: &[u8])
    ensures
        final(script)@ == old(script)@ + fifo_writes(data@),
{
    let mut i: usize = 0;
    while i < data.len()
        invariant
            i <= data.len(),
            script@ == old(script)@ + fifo_writes(data@.take(i as int)),
        decreases data.len() - i,
    {
        script.push(Op::Write { addr: FIFO_DATA_REG, value: data[i] });
        proof {
            assert(script@ =~= old(script)@ + fifo_writes(data@.take(i + 1)));
        }
        i = i + 1;
    }
    proof {
        assert(data@.take(i as int) == data@);
    }
}

fn push_fifo_reads(script: &mut Vec<Op>, count: u8)
    ensures
        final(script)@ == old(script)@ + fifo_reads(count as nat),
{
    let mut i: u8 = 0;
    while i < count
        invariant
            i <= count,
            script@ == old(script)@ + fifo_reads(i as nat),
        decreases count - i,
    {
        script.push(Op::Read { addr: FIFO_DATA_REG });
        proof {
            assert(script@ =~= old(script)@ + fifo_reads((i + 1) as nat));
        }
        i = i + 1;
    }
    proof {
        assert(script@ =~= old(script)@ + fifo_reads(count as nat));
    }
}

/// Builds the script of the reset and base configuration.
pub fn build_reset_script() -> (script: Vec<Op>)
    ensures
        script@ == reset_script(),
{
    let mut script: Vec<Op> = Vec::new();
    script.push(Op::Release);
    script.push(Op::ResetLine { high: false });
    script.push(Op::DelayMs { ms: 50 });
    script.push(Op::ResetLine { high: true });
    script.push(Op::DelayMs { ms: 50 });
    script.push(Op::Write { addr: COMMAND_REG, value: PCD_RESETPHASE });
    script.push(Op::DelayMs { ms: 50 });
    script.push(Op::Read { addr: VERSION_REG });
    script.push(Op::Write { addr: TX_MODE_REG, value: 0x00 });
    script.push(Op::Write { addr: RX_MODE_REG, value: 0x00 });
    script.push(Op::Write { addr: MODE_WIDTH_REG, value: 0x26 });
    script.push(Op::Write { addr: T_MODE_REG, value: 0x80 });
    script.push(Op::Write { addr: T_PRESCALER_REG, value: 0xA9 });
    script.push(Op::Write { addr: T_RELOAD_REG_H, value: 0x03 });
    script.push(Op::Write { addr: T_RELOAD_REG_L, value: 0xE8 });
    script.push(Op::Write { addr: TX_ASK_REG, value: 0x40 });
    script.push(Op::Write { addr: MODE_REG, value: 0x3D });
    script.push(Op::Read { addr: TX_CONTROL_REG });
    proof {
        assert(script@ =~= reset_script());
    }
    script
}

/// Builds the script that ends the initialisation.
pub fn build_antenna_script(control: u8) -> (script: Vec<Op>)
    ensures
        script@ == antenna_script(control),
        1 <= script@.len() <= 2,
{
    let mut script: Vec<Op> = Vec::new();
    if control & ANTENNA_BITS != ANTENNA_BITS {
        script.push(Op::Write { addr: TX_CONTROL_REG, value: control | ANTENNA_BITS });
    }
    script.push(Op::Write { addr: RF_CFG_REG, value: MAX_GAIN });
    proof {
        assert(script@ =~= antenna_script(control));
    }
    script
}

/// Builds the script that sets the receiver gain.
pub fn build_gain_script() -> (script: Vec<Op>)
    ensures
        script@ == gain_script(),
{
    let mut script: Vec<Op> = Vec::new();
    script.push(Op::Write { addr: RF_CFG_REG, value: MAX_GAIN });
    proof {
        assert(script@ =~= gain_script());
    }
    script
}

/// Builds the script that has the chip compute the checksum of `data`.
pub fn build_crc_script(data: &[u8]) -> (script: Vec<Op>)
    ensures
        script@ == crc_script(data@),
{
    let mut script: Vec<Op> = Vec::new();
    script.push(Op::Write { addr: COMMAND_REG, value: PCD_IDLE });
    script.push(Op::Write { addr: DIV_IRQ_REG, value: CRC_DONE_MASK });
    script.push(Op::Write { addr: FIFO_LEVEL_REG, value: 0x80 });
    push_fifo_writes(&mut script, data);
    script.push(Op::Write { addr: COMMAND_REG, value: PCD_CALC_CRC });
    script.push(Op::Read { addr: DIV_IRQ_REG });
    proof {
        assert(script@ =~= crc_script(data@));
    }
    script
}

/// Builds the script of one more poll of the interrupt register at `addr`.
pub fn build_poll_script(addr: u8) -> (script: Vec<Op>)
    ensures
        script@ == poll_script(addr),
{
    let mut script: Vec<Op> = Vec::new();
    script.push(Op::DelayMs { ms: 1 });
    script.push(Op::Read { addr });
    proof {
        assert(script@ =~= poll_script(addr));
    }
    script
}

fn push_exchange(script: &mut Vec<Op>, frame: &[u8], framing: u8)
    ensures
        final(script)@ == old(script)@ + exchange_script(frame@, framing),
{
    script.push(Op::Write { addr: COMM_IRQ_REG, value: 0x7F });
    script.push(Op::Write { addr: FIFO_LEVEL_REG, value: 0x80 });
    push_fifo_writes(script, frame);
    script.push(Op::Write { addr: COMMAND_REG, value: PCD_TRANSCEIVE });
    script.push(Op::Write { addr: BIT_FRAMING_REG, value: framing });
    script.push(Op::Read { addr: COMM_IRQ_REG });
    proof {
        assert(script@ =~= old(script)@ + exchange_script(frame@, framing));
    }
}

/// Builds the script that sends `frame` and waits for the answer to begin.
pub fn build_exchange_script(frame: &[u8], framing: u8) -> (script: Vec<Op>)
    ensures
        script@ == exchange_script(frame@, framing),
{
    let mut script: Vec<Op> = Vec::new();
    push_exchange(&mut script, frame, framing);
    proof {
        assert(script@ =~= exchange_script(frame@, framing));
    }
    script
}

/// Builds the script of a request or wake-up.
pub fn build_probe_script(command: u8) -> (script: Vec<Op>)
    ensures
        script@ == probe_script(command),
{
    let frame: [u8; 1] = [command];
    assert(frame@ == seq![command]);
    build_exchange_script(frame.as_slice(), SHORT_FRAME_FRAMING)
}

/// Builds the script that looks for a card in the field.
pub fn build_presence_script() -> (script: Vec<Op>)
    ensures
        script@ == presence_script(),
{
    let mut script: Vec<Op> = Vec::new();
    script.push(Op::Write { addr: TX_MODE_REG, value: 0x00 });
    script.push(Op::Write { addr: RX_MODE_REG, value: 0x00 });
    script.push(Op::Write { addr: MODE_WIDTH_REG, value: 0x26 });
    let frame: [u8; 1] = [PICC_CMD_REQA];
    assert(frame@ == seq![PICC_CMD_REQA]);
    push_exchange(&mut script, frame.as_slice(), SHORT_FRAME_FRAMING);
    proof {
        assert(script@ =~= presence_script());
    }
    script
}

fn build_status_script() -> (script: Vec<Op>)
    ensures
        script@ == status_script(),
{
    let mut script: Vec<Op> = Vec::new();
    script.push(Op::Read { addr: ERROR_REG });
    script.push(Op::Read { addr: FIFO_LEVEL_REG });
    proof {
        assert(script@ =~= status_script());
    }
    script
}

fn build_collision_script(count: u8) -> (script: Vec<Op>)
    ensures
        script@ == collision_script(count as nat),
{
    let mut script: Vec<Op> = Vec::new();
    script.push(Op::Read { addr: COLL_REG });
    push_fifo_reads(&mut script, count);
    proof {
        assert(script@ =~= collision_script(count as nat));
    }
    script
}

fn build_fifo_reads(count: u8) -> (script: Vec<Op>)
    ensures
        script@ == fifo_reads(count as nat),
{
    let mut script: Vec<Op> = Vec::new();
    push_fifo_reads(&mut script, count);
    proof {
        assert(script@ =~= fifo_reads(count as nat));
    }
    script
}

fn build_crc_result_script() -> (script: Vec<Op>)
    ensures
        script@ == crc_result_script(),
{
    let mut script: Vec<Op> = Vec::new();
    script.push(Op::Read { addr: CRC_RESULT_REG_L });
    script.push(Op::Read { addr: CRC_RESULT_REG_H });
    proof {
        assert(script@ =~= crc_result_script());
    }
    script
}

// ---------------------------------------------------------------------
// Results
// ---------------------------------------------------------------------
/// How the verdict on a probe is reported. The answer itself and the plain
/// request pass errors on. The presence check and the detection report an
/// error only for a failed transport: no answer in time, or a malformed
/// one, means that no card is there. The detection also takes an answer
/// whose first byte is 0x00 or 0xFF as no card.
pub open spec fn probe_outcome_of(purpose: Purpose, verdict: Result<[u8; 2], RFIDError>) -> Outcome {
    match purpose {
        Purpose::Atqa => Outcome::Atqa(verdict),
        Purpose::Request => Outcome::Requested(
            match verdict {
                Ok(_) => Ok(true),
                Err(e) => Err(e),
            },
        ),
        Purpose::Presence => Outcome::Present(
            match verdict {
                Ok(_) => Ok(true),
                Err(RFIDError::CommunicationError) => Err(RFIDError::CommunicationError),
                Err(_) => Ok(false),
            },
        ),
        Purpose::Detect => Outcome::Detected(
            match verdict {
                Ok(atqa) => if atqa@[0] == 0x00 || atqa@[0] == 0xFF {
                    Ok(None)
                } else {
                    Ok(Some(atqa))
                },
                Err(RFIDError::CommunicationError) => Err(RFIDError::CommunicationError),
                Err(_) => Ok(None),
            },
        ),
    }
}

/// Reports the verdict on a probe as its purpose asks.
pub fn probe_outcome(purpose: Purpose, verdict: Result<[u8; 2], RFIDError>) -> (outcome: Outcome)
    ensures
        outcome == probe_outcome_of(purpose, verdict),
{
    match purpose {
        Purpose::Atqa => Outcome::Atqa(verdict),
        Purpose::Request => match verdict {
            Ok(_) => Outcome::Requested(Ok(true)),
            Err(e) => Outcome::Requested(Err(e)),
        },
        Purpose::Presence => match verdict {
            Ok(_) => Outcome::Present(Ok(true)),
            Err(RFIDError::CommunicationError) => Outcome::Present(
                Err(RFIDError::CommunicationError),
            ),
            Err(_) => Outcome::Present(Ok(false)),
        },
        Purpose::Detect => match verdict {
            Ok(atqa) => if atqa[0] == 0x00 || atqa[0] == 0xFF {
                Outcome::Detected(Ok(None))
            } else {
                Outcome::Detected(Ok(Some(atqa)))
            },
            Err(RFIDError::CommunicationError) => Outcome::Detected(
                Err(RFIDError::CommunicationError),
            ),
            Err(_) => Outcome::Detected(Ok(None)),
        },
    }
}

/// How the end of an activation is reported: in full, or as the card if
/// there is one.
pub open spec fn select_outcome_of(goal: Goal, result: Result<Card, RFIDError>) -> Outcome {
    match goal {
        Goal::Select => Outcome::Selected(result),
        Goal::Serial => Outcome::Serial(
            match result {
                Ok(card) => Some(card),
                Err(_) => None,
            },
        ),
    }
}

/// Reports the end of an activation as its goal asks.
pub fn select_outcome(goal: Goal, result: Result<Card, RFIDError>) -> (outcome: Outcome)
    ensures
        outcome == select_outcome_of(goal, result),
{
    match goal {
        Goal::Select => Outcome::Selected(result),
        Goal::Serial => match result {
            Ok(card) => Outcome::Serial(Some(card)),
            Err(_) => Outcome::Serial(None),
        },
    }
}

/// Whether a task goes on when the transport fails. The initialisation and
/// the gain setting have no error to report: they go on, and a read that
/// failed counts as zero.
pub open spec fn lenient_of(task: Task) -> bool {
    task is Reset || task is Configured || task is Gain
}

/// Tells whether a task goes on when the transport fails.
pub fn lenient(task: &Task) -> (yes: bool)
    ensures
        yes == lenient_of(*task),
{
    match task {
        Task::Reset => true,
        Task::Configured { .. } => true,
        Task::Gain => true,
        _ => false,
    }
}

/// How a task ends with the given error.
pub open spec fn failure_of(task: Task, error: RFIDError) -> Outcome {
    match task {
        Task::Reset => Outcome::Initialized { version: 0 },
        Task::Configured { version } => Outcome::Initialized { version },
        Task::Gain => Outcome::GainSet,
        Task::CrcPoll { .. } => Outcome::Crc(Err(error)),
        Task::CrcResult => Outcome::Crc(Err(error)),
        Task::ProbePoll { purpose, .. } => probe_outcome_of(purpose, Err(error)),
        Task::ProbeLevel { purpose } => probe_outcome_of(purpose, Err(error)),
        Task::ProbeData { purpose } => probe_outcome_of(purpose, Err(error)),
        Task::SelectPoll { session, .. } => select_outcome_of(session.goal, Err(error)),
        Task::SelectStatus { session } => select_outcome_of(session.goal, Err(error)),
        Task::SelectCollision { session } => select_outcome_of(session.goal, Err(error)),
        Task::SelectReply { session } => select_outcome_of(session.goal, Err(error)),
    }
}

/// Ends a task with the given error.
pub fn failure(task: &Task, error: RFIDError) -> (outcome: Outcome)
    ensures
        outcome == failure_of(*task, error),
{
    match task {
        Task::Reset => Outcome::Initialized { version: 0 },
        Task::Configured { version } => Outcome::Initialized { version: *version },
        Task::Gain => Outcome::GainSet,
        Task::CrcPoll { .. } => Outcome::Crc(Err(error)),
        Task::CrcResult => Outcome::Crc(Err(error)),
        Task::ProbePoll { purpose, .. } => probe_outcome(*purpose, Err(error)),
        Task::ProbeLevel { purpose } => probe_outcome(*purpose, Err(error)),
        Task::ProbeData { purpose } => probe_outcome(*purpose, Err(error)),
        Task::SelectPoll { session, .. } => select_outcome(session.goal, Err(error)),
        Task::SelectStatus { session } => select_outcome(session.goal, Err(error)),
        Task::SelectCollision { session } => select_outcome(session.goal, Err(error)),
        Task::SelectReply { session } => select_outcome(session.goal, Err(error)),
    }
}

// ---------------------------------------------------------------------
// Decisions
// ---------------------------------------------------------------------
/// The session with which an activation begins. The caller may know the
/// first `valid_bits` bits of the identifier; they stand at the front of
/// `uid` and make up the first level's block as far as they reach.
pub open spec fn opening_session(goal: Goal, uid: [u8; 10], valid_bits: u8) -> Session {
    Session {
        goal,
        level: CascadeLevel::One,
        known: if valid_bits >= BLOCK_BITS {
            BLOCK_BITS
        } else {
            valid_bits
        },
        retries: 0,
        block: [uid@[0], uid@[1], uid@[2], uid@[3]],
        uid,
    }
}

/// Opens the session of an activation.
pub fn open_session(goal: Goal, uid: [u8; 10], valid_bits: u8) -> (session: Session)
    ensures
        session == opening_session(goal, uid, valid_bits),
{
    Session {
        goal,
        level: CascadeLevel::One,
        known: if valid_bits >= BLOCK_BITS {
            BLOCK_BITS
        } else {
            valid_bits
        },
        retries: 0,
        block: [uid[0], uid[1], uid[2], uid[3]],
        uid,
    }
}

/// The script of a session's next exchange: the frame that its known bits
/// call for, sent with the bit framing that they call for.
pub open spec fn session_script(session: Session) -> Seq<Op> {
    exchange_script(
        exchange_frame_of(session.level, session.known, session.block@),
        framing_of(session.known),
    )
}

/// The task under which a session's exchange runs: the wait for the answer,
/// with the whole polling bound ahead.
pub open spec fn session_task(session: Session) -> Task {
    Task::SelectPoll { left: (POLL_BOUND - 1) as u8, session }
}

/// The next exchange of a session, and then the wait for the answer.
pub open spec fn exchange_plan(session: Session) -> Plan {
    Plan::Next { script: session_script(session), task: session_task(session) }
}

/// Builds the script of a session's next exchange.
pub fn build_session_script(session: &Session) -> (script: Vec<Op>)
    ensures
        script@ == session_script(*session),
        script@.len() > 0,
{
    let frame = exchange_frame(session.level, session.known, &session.block);
    build_exchange_script(frame.as_slice(), framing(session.known))
}

/// Plans the next exchange of a session.
pub fn plan_exchange(session: Session) -> (decision: Decision)
    ensures
        decision@ == exchange_plan(session),
        decision matches Decision::Next { script, .. } && script@.len() > 0,
{
    Decision::Next {
        script: build_session_script(&session),
        task: Task::SelectPoll { left: POLL_BOUND - 1, session },
    }
}

/// What follows the error register and the FIFO level after an exchange.
/// With the collision flag set, the collision register is read, and before
/// the block is complete also what the FIFO holds of the answer. Without
/// it, an answer shorter than expected is invalid; otherwise the expected
/// bytes are read. What the FIFO holds beyond them stays there, and the next
/// exchange empties it.
pub open spec fn status_plan(session: Session, error: u8, level: u8) -> Plan {
    let want = reply_len_of(session.known);
    if error & COLLISION_FLAG != 0 {
        let count: nat = if session.known >= BLOCK_BITS {
            0
        } else if level < want {
            level as nat
        } else {
            want
        };
        Plan::Next { script: collision_script(count), task: Task::SelectCollision { session } }
    } else if level < want {
        Plan::Finish { outcome: select_outcome_of(session.goal, Err(RFIDError::InvalidResponse)) }
    } else {
        Plan::Next { script: fifo_reads(want), task: Task::SelectReply { session } }
    }
}

/// Decides what follows the error register and the FIFO level.
pub fn plan_status(session: Session, error: u8, level: u8) -> (decision: Decision)
    ensures
        decision@ == status_plan(session, error, level),
        decision matches Decision::Next { script, .. } ==> 0 < script@.len() <= 5,
{
    let want = reply_len(session.known);
    if error & COLLISION_FLAG != 0 {
        let count: u8 = if session.known >= BLOCK_BITS {
            0
        } else if level < want {
            level
        } else {
            want
        };
        Decision::Next {
            script: build_collision_script(count),
            task: Task::SelectCollision { session },
        }
    } else if level < want {
        Decision::Finish { outcome: select_outcome(session.goal, Err(RFIDError::InvalidResponse)) }
    } else {
        Decision::Next { script: build_fifo_reads(want), task: Task::SelectReply { session } }
    }
}

/// All values but the first.
pub open spec fn rest_of(values: Seq<u8>) -> Seq<u8> {
    if values.len() >= 1 {
        values.subrange(1, values.len() as int)
    } else {
        Seq::empty()
    }
}

/// The session after a collision at `position`: the bits that came before
/// it are taken into the block, the bit at the position is guessed as set,
/// and that many bits now count as known.
pub open spec fn narrowed_session(session: Session, position: u8, rx: Seq<u8>) -> Session {
    Session {
        known: position,
        retries: (session.retries + 1) as u8,
        block: guessed_block(merged_block(session.block, session.known, rx), position),
        ..session
    }
}

/// What follows a reported collision. `values` holds the collision register
/// and then the bytes read from the FIFO. A position of zero ends the
/// activation with a collision error. So does, with a timeout, a collision
/// after the retry bound has been reached. Otherwise the session is
/// narrowed and the next frame goes out.
pub open spec fn collision_plan(session: Session, values: Seq<u8>) -> Plan {
    match collision_position_of(value_at(values, 0)) {
        Err(e) => Plan::Finish { outcome: select_outcome_of(session.goal, Err(e)) },
        Ok(position) => if session.retries >= RETRY_BOUND {
            Plan::Finish { outcome: select_outcome_of(session.goal, Err(RFIDError::Timeout)) }
        } else {
            exchange_plan(narrowed_session(session, position, rest_of(values)))
        },
    }
}

/// Decides what follows a reported collision.
pub fn plan_collision(session: Session, values: &Vec<u8>) -> (decision: Decision)
    ensures
        decision@ == collision_plan(session, values@),
        decision matches Decision::Next { script, .. } ==> script@.len() > 0,
{
    match collision_position(value(values, 0)) {
        Err(e) => Decision::Finish { outcome: select_outcome(session.goal, Err(e)) },
        Ok(position) => {
            if session.retries >= RETRY_BOUND {
                Decision::Finish {
                    outcome: select_outcome(session.goal, Err(RFIDError::Timeout)),
                }
            } else {
                let merged = if values.len() >= 1 {
                    let rx = slice_subrange(values.as_slice(), 1, values.len());
                    merge_reply(&session.block, session.known, rx)
                } else {
                    proof {
                        assert(session.block@ =~= merged_block(
                            session.block,
                            session.known,
                            Seq::empty(),
                        )@);
                    }
                    session.block
                };
                let narrowed = Session {
                    goal: session.goal,
                    level: session.level,
                    known: position,
                    retries: session.retries + 1,
                    block: guess_bit(&merged, position),
                    uid: session.uid,
                };
                plan_exchange(narrowed)
            }
        },
    }
}

/// The session with a block completed by the answer to an anti-collision
/// frame.
pub open spec fn completed_session(session: Session, rx: Seq<u8>) -> Session {
    Session {
        known: BLOCK_BITS,
        block: merged_block(session.block, session.known, rx),
        ..session
    }
}

/// The session on the next cascade level: the block of the level left
/// behind is stored without its cascade tag, and nothing of the new block
/// is known.
pub open spec fn cascaded_session(session: Session, next: CascadeLevel) -> Session {
    Session {
        goal: session.goal,
        level: next,
        known: 0,
        retries: 0,
        block: [0, 0, 0, 0],
        uid: stored_block(session.uid, session.level, session.block, false),
    }
}

/// The card that a session ends with: the last block stored in full, the
/// level reached, and the select acknowledge.
pub open spec fn selected_card(session: Session, sak: u8) -> Card {
    Card {
        uid: stored_block(session.uid, session.level, session.block, true),
        levels: session.level,
        sak,
    }
}

/// What follows an answer without collision. Before the block is complete
/// the answer completes it, and the select frame goes out. After, the answer
/// is the select acknowledge with its checksum: a wrong checksum ends the
/// activation; the cascade bit leads to the next level, or to an invalid
/// response on the third; without it the card is selected.
pub open spec fn reply_plan(session: Session, values: Seq<u8>) -> Plan {
    if session.known < BLOCK_BITS {
        exchange_plan(completed_session(session, values))
    } else {
        match sak_verdict_of(value_at(values, 0), value_at(values, 1), value_at(values, 2)) {
            Err(e) => Plan::Finish { outcome: select_outcome_of(session.goal, Err(e)) },
            Ok(sak) => if cascade_continues_of(sak) {
                match session.level.next_of() {
                    None => Plan::Finish {
                        outcome: select_outcome_of(
                            session.goal,
                            Err(RFIDError::InvalidResponse),
                        ),
                    },
                    Some(next) => exchange_plan(cascaded_session(session, next)),
                }
            } else {
                Plan::Finish {
                    outcome: select_outcome_of(session.goal, Ok(selected_card(session, sak))),
                }
            },
        }
    }
}

/// Decides what follows an answer without collision.
pub fn plan_reply(session: Session, values: &Vec<u8>) -> (decision: Decision)
    ensures
        decision@ == reply_plan(session, values@),
        decision matches Decision::Next { script, .. } ==> script@.len() > 0,
{
    if session.known < BLOCK_BITS {
        let completed = Session {
            goal: session.goal,
            level: session.level,
            known: BLOCK_BITS,
            retries: session.retries,
            block: merge_reply(&session.block, session.known, values.as_slice()),
            uid: session.uid,
        };
        plan_exchange(completed)
    } else {
        match sak_verdict(value(values, 0), value(values, 1), value(values, 2)) {
            Err(e) => Decision::Finish { outcome: select_outcome(session.goal, Err(e)) },
            Ok(sak) => {
                if cascade_continues(sak) {
                    match session.level.next() {
                        None => Decision::Finish {
                            outcome: select_outcome(
                                session.goal,
                                Err(RFIDError::InvalidResponse),
                            ),
                        },
                        Some(next) => {
                            let cascaded = Session {
                                goal: session.goal,
                                level: next,
                                known: 0,
                                retries: 0,
                                block: [0, 0, 0, 0],
                                uid: store_block(
                                    &session.uid,
                                    session.level,
                                    &session.block,
                                    false,
                                ),
                            };
                            plan_exchange(cascaded)
                        },
                    }
                } else {
                    let card = Card {
                        uid: store_block(&session.uid, session.level, &session.block, true),
                        levels: session.level,
                        sak,
                    };
                    Decision::Finish { outcome: select_outcome(session.goal, Ok(card)) }
                }
            },
        }
    }
}

/// What follows a read of an interrupt register while waiting. With one of
/// the bits of `mask` set the wait is over and `ready` follows. Without,
/// and with no reads left, the wait has timed out. Otherwise the register is
/// read once more, a millisecond later.
pub open spec fn poll_plan(
    task: Task,
    irq: u8,
    mask: u8,
    left: u8,
    addr: u8,
    ready: Plan,
    again: Task,
) -> Plan {
    if irq & mask != 0 {
        ready
    } else if left == 0 {
        Plan::Finish { outcome: failure_of(task, RFIDError::Timeout) }
    } else {
        Plan::Next { script: poll_script(addr), task: again }
    }
}

/// The verdict on the values that the script of `task` brought.
pub open spec fn decide_of(task: Task, values: Seq<u8>) -> Plan {
    match task {
        Task::Reset => Plan::Next {
            script: antenna_script(value_at(values, 1)),
            task: Task::Configured { version: value_at(values, 0) },
        },
        Task::Configured { version } => Plan::Finish { outcome: Outcome::Initialized { version } },
        Task::Gain => Plan::Finish { outcome: Outcome::GainSet },
        Task::CrcPoll { left } => poll_plan(
            task,
            value_at(values, 0),
            CRC_DONE_MASK,
            left,
            DIV_IRQ_REG,
            Plan::Next { script: crc_result_script(), task: Task::CrcResult },
            Task::CrcPoll { left: (left - 1) as u8 },
        ),
        Task::CrcResult => Plan::Finish {
            outcome: Outcome::Crc(Ok([value_at(values, 0), value_at(values, 1)])),
        },
        Task::ProbePoll { left, purpose } => poll_plan(
            task,
            value_at(values, 0),
            EXCHANGE_DONE_MASK,
            left,
            COMM_IRQ_REG,
            Plan::Next {
                script: seq![Op::Read { addr: FIFO_LEVEL_REG }],
                task: Task::ProbeLevel { purpose },
            },
            Task::ProbePoll { left: (left - 1) as u8, purpose },
        ),
        Task::ProbeLevel { purpose } => if value_at(values, 0) < 2 {
            Plan::Finish { outcome: probe_outcome_of(purpose, Err(RFIDError::InvalidResponse)) }
        } else {
            Plan::Next { script: fifo_reads(2), task: Task::ProbeData { purpose } }
        },
        Task::ProbeData { purpose } => Plan::Finish {
            outcome: probe_outcome_of(
                purpose,
                atqa_verdict_of(value_at(values, 0), value_at(values, 1)),
            ),
        },
        Task::SelectPoll { left, session } => poll_plan(
            task,
            value_at(values, 0),
            EXCHANGE_DONE_MASK,
            left,
            COMM_IRQ_REG,
            Plan::Next { script: status_script(), task: Task::SelectStatus { session } },
            Task::SelectPoll { left: (left - 1) as u8, session },
        ),
        Task::SelectStatus { session } => status_plan(
            session,
            value_at(values, 0),
            value_at(values, 1),
        ),
        Task::SelectCollision { session } => collision_plan(session, values),
        Task::SelectReply { session } => reply_plan(session, values),
    }
}

/// Judges the values that the script of `task` brought.
pub fn decide(task: &Task, values: &Vec<u8>) -> (decision: Decision)
    ensures
        decision@ == decide_of(*task, values@),
        decision matches Decision::Next { script, .. } ==> script@.len() > 0,
{
    match task {
        Task::Reset => Decision::Next {
            script: build_antenna_script(value(values, 1)),
            task: Task::Configured { version: value(values, 0) },
        },
        Task::Configured { version } => Decision::Finish {
            outcome: Outcome::Initialized { version: *version },
        },
        Task::Gain => Decision::Finish { outcome: Outcome::GainSet },
        Task::CrcPoll { left } => {
            if value(values, 0) & CRC_DONE_MASK != 0 {
                Decision::Next { script: build_crc_result_script(), task: Task::CrcResult }
            } else if *left == 0 {
                Decision::Finish { outcome: failure(task, RFIDError::Timeout) }
            } else {
                Decision::Next {
                    script: build_poll_script(DIV_IRQ_REG),
                    task: Task::CrcPoll { left: *left - 1 },
                }
            }
        },
        Task::CrcResult => Decision::Finish {
            outcome: Outcome::Crc(Ok([value(values, 0), value(values, 1)])),
        },
        Task::ProbePoll { left, purpose } => {
            if value(values, 0) & EXCHANGE_DONE_MASK != 0 {
                let mut script: Vec<Op> = Vec::new();
                script.push(Op::Read { addr: FIFO_LEVEL_REG });
                proof {
                    assert(script@ =~= seq![Op::Read { addr: FIFO_LEVEL_REG }]);
                }
                Decision::Next { script, task: Task::ProbeLevel { purpose: *purpose } }
            } else if *left == 0 {
                Decision::Finish { outcome: failure(task, RFIDError::Timeout) }
            } else {
                Decision::Next {
                    script: build_poll_script(COMM_IRQ_REG),
                    task: Task::ProbePoll { left: *left - 1, purpose: *purpose },
                }
            }
        },
        Task::ProbeLevel { purpose } => {
            if value(values, 0) < 2 {
                Decision::Finish {
                    outcome: probe_outcome(*purpose, Err(RFIDError::InvalidResponse)),
                }
            } else {
                Decision::Next {
                    script: build_fifo_reads(2),
                    task: Task::ProbeData { purpose: *purpose },
                }
            }
        },
        Task::ProbeData { purpose } => Decision::Finish {
            outcome: probe_outcome(*purpose, atqa_verdict(value(values, 0), value(values, 1))),
        },
        Task::SelectPoll { left, session } => {
            if value(values, 0) & EXCHANGE_DONE_MASK != 0 {
                Decision::Next {
                    script: build_status_script(),
                    task: Task::SelectStatus { session: *session },
                }
            } else if *left == 0 {
                Decision::Finish { outcome: failure(task, RFIDError::Timeout) }
            } else {
                Decision::Next {
                    script: build_poll_script(COMM_IRQ_REG),
                    task: Task::SelectPoll { left: *left - 1, session: *session },
                }
            }
        },
        Task::SelectStatus { session } => plan_status(
            *session,
            value(values, 0),
            value(values, 1),
        ),
        Task::SelectCollision { session } => plan_collision(*session, values),
        Task::SelectReply { session } => plan_reply(*session, values),
    }
}

} // verus!
