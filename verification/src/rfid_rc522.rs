//! The reader's handle: it owns the bus and the chip-select line, and runs
//! one operation at a time.
//!
//! Each operation is started by its method, which hands out the first
//! action. The driver performs the action on the hardware and calls
//! [`RfidRc522::resume`] with what came of it, until the action is
//! [`Action::Finished`].

use vstd::prelude::*;
use crate::bus::{Action, Event};
use crate::commands::PICC_CMD_REQA;
use crate::engine::Engine;
use crate::errors::RFIDError;
use crate::machine::{begin_of, idle_machine, step_of, Machine};
use crate::picc::blank_uid;
use crate::protocol::{
    build_crc_script, build_gain_script, build_presence_script, build_probe_script,
    build_reset_script, build_session_script, crc_script, gain_script, open_session,
    opening_session, presence_script, probe_script, reset_script, session_script, session_task,
    Goal, Outcome, Purpose, Task, POLL_BOUND,
};

verus! {

/// A reader chip on a serial bus, with the line that selects it.
pub struct RfidRc522<SPI, CS> {
    /// The serial bus. The engine does not touch it; the driver does.
    pub spi: SPI,
    /// The chip-select line. The engine does not touch it; the driver does.
    pub cs: CS,
    /// The operation that is running, if one is.
    pub engine: Engine,
}

impl<SPI, CS> View for RfidRc522<SPI, CS> {
    type V = Machine;

    /// The state of the engine. The bus and the line are no part of it;
    /// `same_lines` speaks of them.
    open spec fn view(&self) -> Machine {
        self.engine@
    }
}

impl<SPI, CS> RfidRc522<SPI, CS> {
    /// Whether two states of a reader hold the same bus and the same line.
    pub open spec fn same_lines(self, other: Self) -> bool {
        self.spi == other.spi && self.cs == other.cs
    }

    /// Takes the bus and the chip-select line. No operation is running.
    pub fn new(spi: SPI, cs: CS) -> (reader: Self)
        ensures
            reader.spi == spi,
            reader.cs == cs,
            reader@ == idle_machine(),
    {
        RfidRc522 { spi, cs, engine: Engine::new() }
    }

    /// Whether no operation is running.
    pub fn is_idle(&self) -> (idle: bool)
        ensures
            idle == (self@.phase is Idle),
    {
        self.engine.is_idle()
    }

    /// Takes the driver's report on the last action and hands out the next
    /// action.
    pub fn resume(&mut self, event: Event) -> (action: Action)
        ensures
            (final(self)@, action) == step_of(old(self)@, event),
            final(self).same_lines(*old(self)),
    {
        self.engine.resume(event)
    }

    /// Starts the initialisation: hardware reset, soft reset, base
    /// configuration, antenna on, receiver gain at its maximum. It ends with
    /// [`Outcome::Initialized`] whatever the transport does.
    pub fn init(&mut self) -> (action: Action)
        requires
            old(self)@.phase is Idle,
        ensures
            (final(self)@, action) == begin_of(reset_script(), Task::Reset),
            final(self).same_lines(*old(self)),
    {
        let script = build_reset_script();
        self.engine.begin(script, Task::Reset)
    }

    /// Starts setting the receiver gain to its maximum. It ends with
    /// [`Outcome::GainSet`] whatever the transport does.
    pub fn set_antenna_gain_max(&mut self) -> (action: Action)
        requires
            old(self)@.phase is Idle,
        ensures
            (final(self)@, action) == begin_of(gain_script(), Task::Gain),
            final(self).same_lines(*old(self)),
    {
        let script = build_gain_script();
        self.engine.begin(script, Task::Gain)
    }

    /// Starts the computation of the checksum of `data` on the chip. It ends
    /// with [`Outcome::Crc`].
    pub fn pcd_calculate_crc(&mut self, data: &[u8]) -> (action: Action)
        requires
            old(self)@.phase is Idle,
        ensures
            (final(self)@, action) == begin_of(
                crc_script(data@),
                Task::CrcPoll { left: (POLL_BOUND - 1) as u8 },
            ),
            final(self).same_lines(*old(self)),
    {
        let script = build_crc_script(data);
        self.engine.begin(script, Task::CrcPoll { left: POLL_BOUND - 1 })
    }

    /// Starts a request for the answer of a card in the field. It ends with
    /// [`Outcome::Detected`].
    pub fn detect_card_type(&mut self) -> (action: Action)
        requires
            old(self)@.phase is Idle,
        ensures
            (final(self)@, action) == begin_of(
                probe_script(PICC_CMD_REQA),
                Task::ProbePoll { left: (POLL_BOUND - 1) as u8, purpose: Purpose::Detect },
            ),
            final(self).same_lines(*old(self)),
    {
        let script = build_probe_script(PICC_CMD_REQA);
        self.engine.begin(
            script,
            Task::ProbePoll { left: POLL_BOUND - 1, purpose: Purpose::Detect },
        )
    }

    /// Starts the check for a card in the field. It ends with
    /// [`Outcome::Present`].
    pub fn is_new_card_present(&mut self) -> (action: Action)
        requires
            old(self)@.phase is Idle,
        ensures
            (final(self)@, action) == begin_of(
                presence_script(),
                Task::ProbePoll { left: (POLL_BOUND - 1) as u8, purpose: Purpose::Presence },
            ),
            final(self).same_lines(*old(self)),
    {
        let script = build_presence_script();
        self.engine.begin(
            script,
            Task::ProbePoll { left: POLL_BOUND - 1, purpose: Purpose::Presence },
        )
    }

    /// Starts a request (0x26) or a wake-up (0x52), or whatever `command`
    /// holds, sent as a short frame. `buffer_size` is the room the caller has
    /// for the answer: with less than two bytes nothing is sent, and the
    /// operation is over at once with [`RFIDError::NoRoom`]. Otherwise it
    /// ends with [`Outcome::Atqa`].
    pub fn picc_reqa_or_wupa(&mut self, command: u8, buffer_size: u8) -> (action: Action)
        requires
            old(self)@.phase is Idle,
        ensures
            buffer_size < 2 ==> final(self)@ == old(self)@ && action == Action::Finished(
                Outcome::Atqa(Err(RFIDError::NoRoom)),
            ),
            buffer_size >= 2 ==> (final(self)@, action) == begin_of(
                probe_script(command),
                Task::ProbePoll { left: (POLL_BOUND - 1) as u8, purpose: Purpose::Atqa },
            ),
            final(self).same_lines(*old(self)),
    {
        if buffer_size < 2 {
            Action::Finished(Outcome::Atqa(Err(RFIDError::NoRoom)))
        } else {
            let script = build_probe_script(command);
            self.engine.begin(
                script,
                Task::ProbePoll { left: POLL_BOUND - 1, purpose: Purpose::Atqa },
            )
        }
    }

    /// Starts a request. It ends with [`Outcome::Requested`].
    pub fn request_a(&mut self) -> (action: Action)
        requires
            old(self)@.phase is Idle,
        ensures
            (final(self)@, action) == begin_of(
                probe_script(PICC_CMD_REQA),
                Task::ProbePoll { left: (POLL_BOUND - 1) as u8, purpose: Purpose::Request },
            ),
            final(self).same_lines(*old(self)),
    {
        let script = build_probe_script(PICC_CMD_REQA);
        self.engine.begin(
            script,
            Task::ProbePoll { left: POLL_BOUND - 1, purpose: Purpose::Request },
        )
    }

    /// Starts the activation of a card of which nothing is known. It ends
    /// with [`Outcome::Serial`].
    pub fn read_card_serial(&mut self) -> (action: Action)
        requires
            old(self)@.phase is Idle,
        ensures
            (final(self)@, action) == begin_of(
                session_script(opening_session(Goal::Serial, blank_uid(), 0)),
                session_task(opening_session(Goal::Serial, blank_uid(), 0)),
            ),
            final(self).same_lines(*old(self)),
    {
        let session = open_session(Goal::Serial, [0, 0, 0, 0, 0, 0, 0, 0, 0, 0], 0);
        let script = build_session_script(&session);
        self.engine.begin(script, Task::SelectPoll { left: POLL_BOUND - 1, session })
    }

    /// Starts the activation of a card. The caller may know the first
    /// `valid_bits` bits of the identifier and hands them over at the front
    /// of `uid`. It ends with [`Outcome::Selected`].
    pub fn select_card(&mut self, uid: [u8; 10], valid_bits: u8) -> (action: Action)
        requires
            old(self)@.phase is Idle,
        ensures
            (final(self)@, action) == begin_of(
                session_script(opening_session(Goal::Select, uid, valid_bits)),
                session_task(opening_session(Goal::Select, uid, valid_bits)),
            ),
            final(self).same_lines(*old(self)),
    {
        let session = open_session(Goal::Select, uid, valid_bits);
        let script = build_session_script(&session);
        self.engine.begin(script, Task::SelectPoll { left: POLL_BOUND - 1, session })
    }
}

} // verus!
