//! What holds of every run of the engine.

use vstd::prelude::*;
use crate::bus::{read_frame_of, write_frame_of, Action, Event, Op};
use crate::commands::PCD_TRANSCEIVE;
use crate::errors::RFIDError;
use crate::machine::{finish_of, step_of, Machine};
use crate::picc::{
    cascade_continues_of, lemma_answer_fills_block, lemma_stored_last, lemma_stored_tagged,
    sak_verdict_of, Card, CascadeLevel, BLOCK_BITS, SAK_CASCADE_BIT,
};
use crate::protocol::{
    cascaded_session, collision_plan, completed_session, decide_of, exchange_plan, failure_of,
    exchange_script, lenient_of, narrowed_session,
    probe_outcome_of, reply_plan, rest_of, select_outcome_of, selected_card, value_at, Goal,
    Outcome, Plan, Purpose, Session, Task, EXCHANGE_DONE_MASK, RETRY_BOUND,
};

use crate::registers::{
    BIT_FRAMING_REG, COMMAND_REG, COMM_IRQ_REG, FIFO_DATA_REG, FIFO_LEVEL_REG,
};

verus! {

/// No exchange is left half open. Bytes go over the bus only while
/// chip-select is low; the step after the transfer releases chip-select
/// whatever the transfer brought, a failure too; and no operation finishes
/// between the select and the release.
pub proof fn lemma_exchange_is_bracketed(m: Machine, event: Event)
    ensures
        step_of(m, event).1 is Transfer <==> m.phase is Selected,
        m.phase is Selected ==> step_of(m, event).0.phase is Exchanging,
        m.phase is Exchanging ==> step_of(m, event).1 == Action::ReleaseChip && step_of(
            m,
            event,
        ).0.phase is Settling,
        step_of(m, event).1 is SelectChip ==> step_of(m, event).0.phase is Selected,
        step_of(m, event).0.phase is Selected ==> step_of(m, event).1 is SelectChip,
        step_of(m, event).1 is Finished ==> m.phase is Settling && step_of(
            m,
            event,
        ).0.phase is Idle,
{
}

/// A register write takes three steps: chip-select goes low, the address
/// with its direction bit clear and the value go over the bus, and
/// chip-select goes high. It brings no value. If the transfer fails, the
/// failure is noted, and chip-select goes high all the same.
pub proof fn lemma_register_write(
    m: Machine,
    before: Event,
    selected: Event,
    transferred: Event,
    task: Task,
    addr: u8,
    value: u8,
)
    requires
        m.phase is Settling,
        m.task == Some(task),
        !m.fault || lenient_of(task),
        m.pending.len() > 0,
        m.pending[0] == (Op::Write { addr, value }),
    ensures
        ({
            let (m1, a1) = step_of(m, before);
            let (m2, a2) = step_of(m1, selected);
            let (m3, a3) = step_of(m2, transferred);
            &&& a1 == Action::SelectChip
            &&& a2 matches Action::Transfer { tx } && tx@ == write_frame_of(addr, value)
            &&& a3 == Action::ReleaseChip
            &&& m3.phase is Settling
            &&& m3.pending == m.pending.subrange(1, m.pending.len() as int)
            &&& m3.values == m.values
            &&& m3.task == m.task
            &&& m3.fault == (m.fault || !(transferred is Reply))
        }),
{
    assert([addr & 0x7F, value]@ =~= write_frame_of(addr, value));
}

/// A register read takes three steps: chip-select goes low, the address
/// with its direction bit set and a filler byte go over the bus, and
/// chip-select goes high. It brings the second byte of the reply. If the
/// transfer fails, the failure is noted, a zero stands for the value, and
/// chip-select goes high all the same.
pub proof fn lemma_register_read(
    m: Machine,
    before: Event,
    selected: Event,
    transferred: Event,
    task: Task,
    addr: u8,
)
    requires
        m.phase is Settling,
        m.task == Some(task),
        !m.fault || lenient_of(task),
        m.pending.len() > 0,
        m.pending[0] == (Op::Read { addr }),
    ensures
        ({
            let (m1, a1) = step_of(m, before);
            let (m2, a2) = step_of(m1, selected);
            let (m3, a3) = step_of(m2, transferred);
            &&& a1 == Action::SelectChip
            &&& a2 matches Action::Transfer { tx } && tx@ == read_frame_of(addr)
            &&& a3 == Action::ReleaseChip
            &&& m3.phase is Settling
            &&& m3.pending == m.pending.subrange(1, m.pending.len() as int)
            &&& m3.task == m.task
            &&& transferred matches Event::Reply { rx } ==> m3.values == m.values.push(rx@[1])
                && m3.fault == m.fault
            &&& !(transferred is Reply) ==> m3.values == m.values.push(0) && m3.fault
        }),
{
    assert([addr | 0x80, 0x00u8]@ =~= read_frame_of(addr));
}

/// Every exchange with a card begins by clearing the pending interrupt
/// flags and emptying the FIFO. Then the frame goes into the FIFO byte by
/// byte, the transceive command is given, the transmission is started, and
/// the interrupt flags are read.
pub proof fn lemma_exchange_clears_first(frame: Seq<u8>, framing: u8)
    ensures
        exchange_script(frame, framing).len() == frame.len() + 5,
        exchange_script(frame, framing)[0] == (Op::Write { addr: COMM_IRQ_REG, value: 0x7F }),
        exchange_script(frame, framing)[1] == (Op::Write { addr: FIFO_LEVEL_REG, value: 0x80 }),
        forall|i: int|
            0 <= i < frame.len() ==> #[trigger] exchange_script(frame, framing)[i + 2] == (Op::Write {
                addr: FIFO_DATA_REG,
                value: frame[i],
            }),
        exchange_script(frame, framing)[frame.len() as int + 2] == (Op::Write {
            addr: COMMAND_REG,
            value: PCD_TRANSCEIVE,
        }),
        exchange_script(frame, framing)[frame.len() as int + 3] == (Op::Write {
            addr: BIT_FRAMING_REG,
            value: framing,
        }),
        exchange_script(frame, framing)[frame.len() as int + 4] == (Op::Read { addr: COMM_IRQ_REG }),
{
}

/// A failed transfer ends every operation that has an error to report, at
/// the step after chip-select was released, with a communication error.
pub proof fn lemma_fault_is_reported(m: Machine, event: Event, task: Task)
    requires
        m.phase is Settling,
        m.task == Some(task),
        m.fault,
        !lenient_of(task),
    ensures
        step_of(m, event) == finish_of(failure_of(task, RFIDError::CommunicationError)),
{
}

/// Whether `task` belongs to an activation made for `goal`.
pub open spec fn activates_for(task: Task, goal: Goal) -> bool {
    match task {
        Task::SelectPoll { session, .. } => session.goal == goal,
        Task::SelectStatus { session } => session.goal == goal,
        Task::SelectCollision { session } => session.goal == goal,
        Task::SelectReply { session } => session.goal == goal,
        _ => false,
    }
}

/// Whether `task` belongs to a probe made for `purpose`.
pub open spec fn probes_for(task: Task, purpose: Purpose) -> bool {
    match task {
        Task::ProbePoll { purpose: p, .. } => p == purpose,
        Task::ProbeLevel { purpose: p } => p == purpose,
        Task::ProbeData { purpose: p } => p == purpose,
        _ => false,
    }
}

/// An activation stays an activation for its goal until it ends, and it
/// ends with the result that its goal asks for. A card that it yields has
/// an identifier of 4, 7 or 10 bytes: four more than three times the number
/// of cascade levels left behind.
pub proof fn lemma_activation_yields_card(m: Machine, event: Event, task: Task, goal: Goal)
    requires
        !(m.phase is Idle),
        m.task == Some(task),
        activates_for(task, goal),
    ensures
        step_of(m, event).0.phase is Idle || (step_of(m, event).0.task matches Some(next)
            && activates_for(next, goal)),
        step_of(m, event).1 matches Action::Finished(outcome) ==> (match goal {
            Goal::Select => outcome is Selected,
            Goal::Serial => outcome is Serial,
        }),
        step_of(m, event).1 matches Action::Finished(Outcome::Selected(Ok(card))) ==> card@.len()
            == 3 * (card.levels.number_of() - 1) + 4,
        step_of(m, event).1 matches Action::Finished(Outcome::Serial(Some(card))) ==> card@.len()
            == 3 * (card.levels.number_of() - 1) + 4,
{
    lemma_uid_length_of_any_card();
}

/// The identifier of every card has 4, 7 or 10 bytes, by the cascade level
/// at which it was complete.
pub proof fn lemma_uid_length(card: Card)
    ensures
        card@.len() == 3 * (card.levels.number_of() - 1) + 4,
        card.levels == CascadeLevel::One ==> card@.len() == 4,
        card.levels == CascadeLevel::Two ==> card@.len() == 7,
        card.levels == CascadeLevel::Three ==> card@.len() == 10,
{
}

proof fn lemma_uid_length_of_any_card()
    ensures
        forall|card: Card| #[trigger] card@.len() == 3 * (card.levels.number_of() - 1) + 4,
{
    assert forall|card: Card| #[trigger] card@.len() == 3 * (card.levels.number_of() - 1) + 4 by {
        lemma_uid_length(card);
    }
}

/// There is no fourth cascade level. A valid select acknowledge on the
/// third level ends the activation: with the card if the cascade bit is
/// clear, with an invalid response if it is set.
pub proof fn lemma_third_level_is_last(session: Session, values: Seq<u8>)
    requires
        session.level == CascadeLevel::Three,
        session.known >= BLOCK_BITS,
    ensures
        reply_plan(session, values) is Finish,
{
}

/// A select acknowledge with the cascade bit clear ends the activation with
/// the card; one with the bit set on the first or second level leads to the
/// next level, where nothing of the block is known, and leaves the cascade
/// tag out of the identifier: the three bytes behind it are stored.
pub proof fn lemma_cascade(session: Session, values: Seq<u8>, sak: u8)
    requires
        session.known >= BLOCK_BITS,
        sak_verdict_of(value_at(values, 0), value_at(values, 1), value_at(values, 2))
            == Ok::<u8, RFIDError>(sak),
    ensures
        sak & SAK_CASCADE_BIT == 0 ==> reply_plan(session, values) == (Plan::Finish {
            outcome: select_outcome_of(session.goal, Ok(selected_card(session, sak))),
        }),
        sak & SAK_CASCADE_BIT != 0 ==> (match session.level.next_of() {
            Some(next) => reply_plan(session, values) == exchange_plan(
                cascaded_session(session, next),
            ) && cascaded_session(session, next).known == 0 && cascaded_session(
                session,
                next,
            ).uid@[session.level.offset_of() as int] == session.block@[1] && cascaded_session(
                session,
                next,
            ).uid@[session.level.offset_of() as int + 1] == session.block@[2] && cascaded_session(
                session,
                next,
            ).uid@[session.level.offset_of() as int + 2] == session.block@[3],
            None => reply_plan(session, values) == (Plan::Finish {
                outcome: select_outcome_of(session.goal, Err(RFIDError::InvalidResponse)),
            }),
        }),
{
}

/// A collision reported at position zero is never passed over: it ends the
/// activation with a collision error.
pub proof fn lemma_collision_without_position(session: Session, values: Seq<u8>)
    requires
        value_at(values, 0) & 0x1F == 0,
    ensures
        collision_plan(session, values) == (Plan::Finish {
            outcome: select_outcome_of(session.goal, Err(RFIDError::Collision)),
        }),
        session.goal == Goal::Select ==> collision_plan(session, values) == (Plan::Finish {
            outcome: Outcome::Selected(Err(RFIDError::Collision)),
        }),
{
}

/// A collision reported at a position, within the retry bound, leads to
/// one more exchange, with as many bits known as the position says.
pub proof fn lemma_collision_narrows(session: Session, values: Seq<u8>)
    requires
        value_at(values, 0) & 0x1F != 0,
        session.retries < RETRY_BOUND,
    ensures
        collision_plan(session, values) == exchange_plan(
            narrowed_session(session, value_at(values, 0) & 0x1F, rest_of(values)),
        ),
        narrowed_session(session, value_at(values, 0) & 0x1F, rest_of(values)).known == value_at(
            values,
            0,
        ) & 0x1F,
        narrowed_session(session, value_at(values, 0) & 0x1F, rest_of(values)).retries
            == session.retries + 1,
{
}

/// The presence check reports an error only if the transport failed; a
/// wait that timed out, or an answer that is malformed, means that no card
/// is there.
pub proof fn lemma_presence_verdicts(verdict: Result<[u8; 2], RFIDError>)
    ensures
        probe_outcome_of(Purpose::Presence, verdict) is Present,
        probe_outcome_of(Purpose::Presence, Err(RFIDError::Timeout)) == Outcome::Present(
            Ok(false),
        ),
        probe_outcome_of(Purpose::Presence, verdict) matches Outcome::Present(Err(e)) ==> e
            == RFIDError::CommunicationError && verdict == Err::<[u8; 2], RFIDError>(
            RFIDError::CommunicationError,
        ),
        probe_outcome_of(Purpose::Presence, verdict) == Outcome::Present(Ok(true))
            <==> verdict is Ok,
{
}

/// When the last read of the wait for an answer to the presence check shows
/// no flag, the check ends with "no card", not with an error.
pub proof fn lemma_presence_timeout(values: Seq<u8>)
    requires
        value_at(values, 0) & EXCHANGE_DONE_MASK == 0,
    ensures
        decide_of(Task::ProbePoll { left: 0, purpose: Purpose::Presence }, values)
            == (Plan::Finish { outcome: Outcome::Present(Ok(false)) }),
{
}

/// A presence check stays a presence check until it ends, and it ends with
/// an error only after a transfer failed.
pub proof fn lemma_presence_errs_on_fault_only(m: Machine, event: Event, task: Task)
    requires
        !(m.phase is Idle),
        m.task == Some(task),
        probes_for(task, Purpose::Presence),
    ensures
        step_of(m, event).0.phase is Idle || (step_of(m, event).0.task matches Some(next)
            && probes_for(next, Purpose::Presence)),
        step_of(m, event).1 matches Action::Finished(outcome) ==> outcome is Present,
        step_of(m, event).1 matches Action::Finished(Outcome::Present(Err(e))) ==> m.fault && e
            == RFIDError::CommunicationError,
{
}

/// The last level of a cascade, resolved without collision. The answer to
/// the anti-collision frame completes the block and the select frame goes
/// out; a select acknowledge with a right checksum and a clear cascade bit
/// then ends the activation with the card. Its identifier is what earlier
/// levels gave, followed by the answer's first four bytes.
pub proof fn lemma_last_level(session: Session, answer: Seq<u8>, reply: Seq<u8>, sak: u8)
    requires
        session.known == 0,
        answer.len() >= 4,
        sak_verdict_of(value_at(reply, 0), value_at(reply, 1), value_at(reply, 2)) == Ok::<
            u8,
            RFIDError,
        >(sak),
        !cascade_continues_of(sak),
    ensures
        reply_plan(session, answer) == exchange_plan(completed_session(session, answer)),
        reply_plan(completed_session(session, answer), reply) == (Plan::Finish {
            outcome: select_outcome_of(
                session.goal,
                Ok(selected_card(completed_session(session, answer), sak)),
            ),
        }),
        selected_card(completed_session(session, answer), sak)@ == session.uid@.take(
            session.level.offset_of() as int,
        ) + answer.take(4),
        selected_card(completed_session(session, answer), sak).sak == sak,
        selected_card(completed_session(session, answer), sak).levels == session.level,
{
    let completed = completed_session(session, answer);
    lemma_answer_fills_block(session.block, answer);
    lemma_stored_last(session.uid, session.level, completed.block);
    let card = selected_card(completed, sak);
    assert(card@ =~= session.uid@.take(session.level.offset_of() as int) + answer.take(4)) by {
        let at = session.level.offset_of() as int;
        assert(card.uid@.subrange(at, at + 4) == answer.take(4));
        assert(card.uid@.take(at) == session.uid@.take(at));
        assert(card@ =~= card.uid@.take(at) + card.uid@.subrange(at, at + 4));
    }
}

/// A level of a cascade that another one follows, resolved without
/// collision. A select acknowledge with a right checksum and the cascade bit
/// set leads to the next level, where nothing of the block is known. The
/// identifier so far is what earlier levels gave, followed by the second to
/// fourth byte of the answer: the first, the cascade tag, is left out.
pub proof fn lemma_next_level(
    session: Session,
    answer: Seq<u8>,
    reply: Seq<u8>,
    sak: u8,
    next: CascadeLevel,
)
    requires
        session.known == 0,
        answer.len() >= 4,
        sak_verdict_of(value_at(reply, 0), value_at(reply, 1), value_at(reply, 2)) == Ok::<
            u8,
            RFIDError,
        >(sak),
        cascade_continues_of(sak),
        session.level.next_of() == Some(next),
    ensures
        reply_plan(session, answer) == exchange_plan(completed_session(session, answer)),
        reply_plan(completed_session(session, answer), reply) == exchange_plan(
            cascaded_session(completed_session(session, answer), next),
        ),
        cascaded_session(completed_session(session, answer), next).known == 0,
        cascaded_session(completed_session(session, answer), next).level == next,
        cascaded_session(completed_session(session, answer), next).goal == session.goal,
        cascaded_session(completed_session(session, answer), next).uid@.take(
            next.offset_of() as int,
        ) == session.uid@.take(session.level.offset_of() as int) + answer.subrange(1, 4),
{
    let completed = completed_session(session, answer);
    lemma_answer_fills_block(session.block, answer);
    lemma_stored_tagged(session.uid, session.level, completed.block);
    let cascaded = cascaded_session(completed, next);
    let at = session.level.offset_of() as int;
    assert(next.offset_of() == at + 3);
    assert(cascaded.uid@.subrange(at, at + 3) == completed.block@.subrange(1, 4));
    assert(completed.block@.subrange(1, 4) =~= answer.subrange(1, 4));
    assert(cascaded.uid@.take(at + 3) =~= cascaded.uid@.take(at) + cascaded.uid@.subrange(
        at,
        at + 3,
    ));
}

/// An identifier of four bytes: one level, and the card's identifier is the
/// answer's first four bytes.
pub proof fn lemma_single_size_identifier(
    session: Session,
    answer: Seq<u8>,
    reply: Seq<u8>,
    sak: u8,
)
    requires
        session.level == CascadeLevel::One,
        session.known == 0,
        answer.len() >= 4,
        sak_verdict_of(value_at(reply, 0), value_at(reply, 1), value_at(reply, 2)) == Ok::<
            u8,
            RFIDError,
        >(sak),
        !cascade_continues_of(sak),
    ensures
        reply_plan(completed_session(session, answer), reply) == (Plan::Finish {
            outcome: select_outcome_of(
                session.goal,
                Ok(selected_card(completed_session(session, answer), sak)),
            ),
        }),
        selected_card(completed_session(session, answer), sak)@ == answer.take(4),
        selected_card(completed_session(session, answer), sak)@.len() == 4,
{
    lemma_last_level(session, answer, reply, sak);
    assert(session.uid@.take(0) + answer.take(4) =~= answer.take(4));
}

/// An identifier of seven bytes: two levels, and the card's identifier is
/// the first answer without its cascade tag, followed by the second
/// answer's first four bytes.
pub proof fn lemma_double_size_identifier(
    session: Session,
    first_answer: Seq<u8>,
    first_reply: Seq<u8>,
    first_sak: u8,
    second_answer: Seq<u8>,
    second_reply: Seq<u8>,
    second_sak: u8,
)
    requires
        session.level == CascadeLevel::One,
        session.known == 0,
        first_answer.len() >= 4,
        sak_verdict_of(
            value_at(first_reply, 0),
            value_at(first_reply, 1),
            value_at(first_reply, 2),
        ) == Ok::<u8, RFIDError>(first_sak),
        cascade_continues_of(first_sak),
        second_answer.len() >= 4,
        sak_verdict_of(
            value_at(second_reply, 0),
            value_at(second_reply, 1),
            value_at(second_reply, 2),
        ) == Ok::<u8, RFIDError>(second_sak),
        !cascade_continues_of(second_sak),
    ensures
        ({
            let second = cascaded_session(
                completed_session(session, first_answer),
                CascadeLevel::Two,
            );
            let card = selected_card(completed_session(second, second_answer), second_sak);
            &&& reply_plan(completed_session(session, first_answer), first_reply)
                == exchange_plan(second)
            &&& reply_plan(completed_session(second, second_answer), second_reply)
                == (Plan::Finish { outcome: select_outcome_of(session.goal, Ok(card)) })
            &&& card@ == first_answer.subrange(1, 4) + second_answer.take(4)
            &&& card@.len() == 7
            &&& card.sak == second_sak
        }),
{
    lemma_next_level(session, first_answer, first_reply, first_sak, CascadeLevel::Two);
    let second = cascaded_session(completed_session(session, first_answer), CascadeLevel::Two);
    lemma_last_level(second, second_answer, second_reply, second_sak);
    assert(session.uid@.take(0) + first_answer.subrange(1, 4) =~= first_answer.subrange(1, 4));
}

/// An identifier of ten bytes: three levels, and the card's identifier is
/// the first and the second answer, each without its cascade tag, followed
/// by the third answer's first four bytes.
pub proof fn lemma_triple_size_identifier(
    session: Session,
    first_answer: Seq<u8>,
    first_reply: Seq<u8>,
    first_sak: u8,
    second_answer: Seq<u8>,
    second_reply: Seq<u8>,
    second_sak: u8,
    third_answer: Seq<u8>,
    third_reply: Seq<u8>,
    third_sak: u8,
)
    requires
        session.level == CascadeLevel::One,
        session.known == 0,
        first_answer.len() >= 4,
        sak_verdict_of(
            value_at(first_reply, 0),
            value_at(first_reply, 1),
            value_at(first_reply, 2),
        ) == Ok::<u8, RFIDError>(first_sak),
        cascade_continues_of(first_sak),
        second_answer.len() >= 4,
        sak_verdict_of(
            value_at(second_reply, 0),
            value_at(second_reply, 1),
            value_at(second_reply, 2),
        ) == Ok::<u8, RFIDError>(second_sak),
        cascade_continues_of(second_sak),
        third_answer.len() >= 4,
        sak_verdict_of(
            value_at(third_reply, 0),
            value_at(third_reply, 1),
            value_at(third_reply, 2),
        ) == Ok::<u8, RFIDError>(third_sak),
        !cascade_continues_of(third_sak),
    ensures
        ({
            let second = cascaded_session(
                completed_session(session, first_answer),
                CascadeLevel::Two,
            );
            let third = cascaded_session(
                completed_session(second, second_answer),
                CascadeLevel::Three,
            );
            let card = selected_card(completed_session(third, third_answer), third_sak);
            &&& reply_plan(completed_session(session, first_answer), first_reply)
                == exchange_plan(second)
            &&& reply_plan(completed_session(second, second_answer), second_reply)
                == exchange_plan(third)
            &&& reply_plan(completed_session(third, third_answer), third_reply)
                == (Plan::Finish { outcome: select_outcome_of(session.goal, Ok(card)) })
            &&& card@ == first_answer.subrange(1, 4) + second_answer.subrange(1, 4)
                + third_answer.take(4)
            &&& card@.len() == 10
            &&& card.sak == third_sak
        }),
{
    lemma_next_level(session, first_answer, first_reply, first_sak, CascadeLevel::Two);
    let second = cascaded_session(completed_session(session, first_answer), CascadeLevel::Two);
    lemma_next_level(second, second_answer, second_reply, second_sak, CascadeLevel::Three);
    let third = cascaded_session(completed_session(second, second_answer), CascadeLevel::Three);
    lemma_last_level(third, third_answer, third_reply, third_sak);
    assert(session.uid@.take(0) + first_answer.subrange(1, 4) =~= first_answer.subrange(1, 4));
}

} // verus!
