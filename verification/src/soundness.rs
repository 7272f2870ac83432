//! What holds of every state that the engine reaches: the counts of a
//! session stay in their ranges, and every value that a verdict reads was
//! read from the chip, or stands for a read that failed.

use vstd::prelude::*;
use crate::bus::{Event, Op};
use crate::machine::{begin_of, issue_of, step_of, Machine, Phase};
use crate::picc::{reply_len_of, BLOCK_BITS};
use crate::protocol::{
    collision_plan, crc_result_script, crc_script, decide_of, exchange_script,
    fifo_reads, gain_script, lenient_of, opening_session, poll_script,
    presence_script, probe_script, reply_plan, reset_script, session_script, session_task,
    status_plan, status_script, value_at, Goal, Plan, Purpose, Session, Task, POLL_BOUND,
    RETRY_BOUND,
};

verus! {

/// How many values a script reads.
pub open spec fn reads_in(script: Seq<Op>) -> nat
    decreases script.len(),
{
    if script.len() == 0 {
        0
    } else {
        reads_in(script.drop_last()) + (if script.last() is Read {
            1nat
        } else {
            0nat
        })
    }
}

/// How many values the verdict on the script of `task` reads.
pub open spec fn needed(task: Task) -> nat {
    match task {
        Task::Reset => 2,
        Task::Configured { .. } => 0,
        Task::Gain => 0,
        Task::CrcPoll { .. } => 1,
        Task::CrcResult => 2,
        Task::ProbePoll { .. } => 1,
        Task::ProbeLevel { .. } => 1,
        Task::ProbeData { .. } => 2,
        Task::SelectPoll { .. } => 1,
        Task::SelectStatus { .. } => 2,
        Task::SelectCollision { .. } => 1,
        Task::SelectReply { session } => reply_len_of(session.known),
    }
}

/// Whether the operation at hand is a read whose value is still to come.
pub open spec fn in_flight(phase: Phase) -> nat {
    match phase {
        Phase::Selected { capture, .. } => if capture {
            1
        } else {
            0
        },
        Phase::Exchanging { capture } => if capture {
            1
        } else {
            0
        },
        _ => 0,
    }
}

/// How many values the running script will have brought at its end.
pub open spec fn supplied(m: Machine) -> nat {
    m.values.len() + in_flight(m.phase) + reads_in(m.pending)
}

/// A session's counts are in range: at most 32 bits are known, and at most
/// 32 collisions have been narrowed down.
pub open spec fn session_in_range(session: Session) -> bool {
    session.known <= BLOCK_BITS && session.retries <= RETRY_BOUND
}

/// A task's counts are in range: those of its session, and the reads left
/// of a wait.
pub open spec fn task_in_range(task: Task) -> bool {
    match task {
        Task::CrcPoll { left } => left < POLL_BOUND,
        Task::ProbePoll { left, .. } => left < POLL_BOUND,
        Task::SelectPoll { left, session } => left < POLL_BOUND && session_in_range(session),
        Task::SelectStatus { session } => session_in_range(session),
        Task::SelectCollision { session } => session_in_range(session),
        Task::SelectReply { session } => session_in_range(session),
        _ => true,
    }
}

/// What holds of every state that the engine reaches.
pub open spec fn sound(m: Machine) -> bool {
    m.phase is Idle || (m.task matches Some(task) && task_in_range(task) && supplied(m) >= needed(
        task,
    ))
}

proof fn lemma_reads_concat(a: Seq<Op>, b: Seq<Op>)
    ensures
        reads_in(a + b) == reads_in(a) + reads_in(b),
    decreases b.len(),
{
    if b.len() == 0 {
        assert(a + b == a);
    } else {
        assert((a + b).drop_last() == a + b.drop_last());
        lemma_reads_concat(a, b.drop_last());
    }
}

proof fn lemma_reads_single(op: Op)
    ensures
        reads_in(seq![op]) == (if op is Read {
            1nat
        } else {
            0nat
        }),
{
    assert(seq![op].drop_last() =~= Seq::<Op>::empty());
    assert(reads_in(Seq::<Op>::empty()) == 0);
}

proof fn lemma_reads_front(script: Seq<Op>)
    requires
        script.len() > 0,
    ensures
        reads_in(script) == reads_in(script.subrange(1, script.len() as int)) + (if script[0] is Read {
            1nat
        } else {
            0nat
        }),
{
    let rest = script.subrange(1, script.len() as int);
    assert(script =~= seq![script[0]] + rest);
    lemma_reads_concat(seq![script[0]], rest);
    lemma_reads_single(script[0]);
}

proof fn lemma_reads_fifo_reads(n: nat)
    ensures
        reads_in(fifo_reads(n)) == n,
    decreases n,
{
    if n > 0 {
        assert(fifo_reads(n).drop_last() =~= fifo_reads((n - 1) as nat));
        lemma_reads_fifo_reads((n - 1) as nat);
    }
}

proof fn lemma_reads_exchange(frame: Seq<u8>, framing: u8)
    ensures
        reads_in(exchange_script(frame, framing)) >= 1,
{
    let script = exchange_script(frame, framing);
    assert(script.last() is Read);
}

proof fn lemma_reads_two(script: Seq<Op>)
    requires
        script.len() == 2,
        script[0] is Read,
        script[1] is Read,
    ensures
        reads_in(script) == 2,
{
    lemma_reads_front(script);
    let rest = script.subrange(1, 2);
    assert(rest =~= seq![script[1]]);
    lemma_reads_single(script[1]);
}

/// The script with which the initialisation starts brings the two values
/// that its verdict reads.
pub proof fn lemma_reset_supplies()
    ensures
        reads_in(reset_script()) >= needed(Task::Reset),
{
    let script = reset_script();
    let head = script.subrange(0, 8);
    let tail = script.subrange(8, 18);
    assert(script =~= head + tail);
    lemma_reads_concat(head, tail);
    assert(head.last() is Read);
    assert(tail.last() is Read);
}

/// The script with which a checksum computation starts brings the value
/// that its verdict reads.
pub proof fn lemma_crc_supplies(data: Seq<u8>)
    ensures
        reads_in(crc_script(data)) >= 1,
{
    assert(crc_script(data).last() is Read);
}

/// The scripts with which a probe starts bring the value that their verdict
/// reads.
pub proof fn lemma_probe_supplies(command: u8)
    ensures
        reads_in(probe_script(command)) >= 1,
        reads_in(presence_script()) >= 1,
{
    lemma_reads_exchange(seq![command], crate::picc::SHORT_FRAME_FRAMING);
    assert(presence_script().last() is Read);
}

/// The script of a session's exchange brings the value that its verdict
/// reads.
pub proof fn lemma_session_supplies(session: Session)
    ensures
        reads_in(session_script(session)) >= needed(session_task(session)),
{
    lemma_reads_exchange(
        crate::picc::exchange_frame_of(session.level, session.known, session.block@),
        crate::picc::framing_of(session.known),
    );
}

/// The session with which an activation begins has its counts in range.
pub proof fn lemma_opening_in_range(goal: Goal, uid: [u8; 10], valid_bits: u8)
    ensures
        session_in_range(opening_session(goal, uid, valid_bits)),
        task_in_range(session_task(opening_session(goal, uid, valid_bits))),
{
}

/// A verdict's script brings what the verdict on it will read, and keeps
/// the counts in range.
pub proof fn lemma_decide_supplies(task: Task, values: Seq<u8>)
    requires
        task_in_range(task),
    ensures
        decide_of(task, values) matches Plan::Next { script, task: next } ==> task_in_range(next)
            && reads_in(script) >= needed(next),
{
    match task {
        Task::Reset => {},
        Task::Configured { .. } => {},
        Task::Gain => {},
        Task::CrcPoll { left } => {
            lemma_reads_two(crc_result_script());
            assert(poll_script(crate::registers::DIV_IRQ_REG).last() is Read);
        },
        Task::CrcResult => {},
        Task::ProbePoll { left, purpose } => {
            lemma_reads_single(Op::Read { addr: crate::registers::FIFO_LEVEL_REG });
            assert(poll_script(crate::registers::COMM_IRQ_REG).last() is Read);
        },
        Task::ProbeLevel { .. } => {
            lemma_reads_fifo_reads(2);
        },
        Task::ProbeData { .. } => {},
        Task::SelectPoll { left, session } => {
            lemma_reads_two(status_script());
            assert(poll_script(crate::registers::COMM_IRQ_REG).last() is Read);
        },
        Task::SelectStatus { session } => {
            if let Plan::Next { script, task: next } = status_plan(
                session,
                value_at(values, 0),
                value_at(values, 1),
            ) {
                if next is SelectCollision {
                    lemma_reads_front(script);
                } else {
                    lemma_reads_fifo_reads(reply_len_of(session.known));
                }
            }
        },
        Task::SelectCollision { session } => {
            if let Plan::Next { script, task: next } = collision_plan(session, values) {
                lemma_session_supplies(next->SelectPoll_session);
                let coll = value_at(values, 0);
                assert(coll & 0x1F <= 31) by (bit_vector);
            }
        },
        Task::SelectReply { session } => {
            if let Plan::Next { script, task: next } = reply_plan(session, values) {
                lemma_session_supplies(next->SelectPoll_session);
            }
        },
    }
}

proof fn lemma_issue_sound(m: Machine)
    requires
        m.pending.len() > 0,
        m.phase is Settling,
        sound(m),
    ensures
        sound(issue_of(m).0),
        supplied(issue_of(m).0) == supplied(m),
{
    lemma_reads_front(m.pending);
}

/// An operation that starts with a script that brings what its task needs
/// starts in a sound state.
pub proof fn lemma_start_is_sound(script: Seq<Op>, task: Task)
    requires
        task_in_range(task),
        reads_in(script) >= needed(task),
    ensures
        sound(begin_of(script, task).0),
{
    let loaded = Machine {
        pending: script,
        phase: Phase::Settling,
        values: Seq::empty(),
        fault: false,
        task: Some(task),
    };
    lemma_settling_keeps_sound(loaded);
}

proof fn lemma_settling_keeps_sound(m: Machine)
    requires
        m.phase is Settling,
        sound(m),
    ensures
        sound(crate::machine::proceed_of(m).0),
{
    let task = m.task->0;
    if m.fault && !lenient_of(task) {
    } else if m.pending.len() > 0 {
        lemma_issue_sound(m);
    } else {
        lemma_decide_supplies(task, m.values);
        match decide_of(task, m.values) {
            Plan::Finish { .. } => {},
            Plan::Next { script, task: next } => {
                let loaded = Machine {
                    pending: script,
                    values: Seq::empty(),
                    task: Some(next),
                    ..m
                };
                if script.len() > 0 {
                    lemma_issue_sound(loaded);
                } else {
                    crate::termination::lemma_decide_budget(task, m.values);
                }
            },
        }
    }
}

/// Each step leads from a sound state to a sound state.
pub proof fn lemma_step_keeps_sound(m: Machine, event: Event)
    requires
        sound(m),
    ensures
        sound(step_of(m, event).0),
{
    match m.phase {
        Phase::Idle => {},
        Phase::Selected { .. } => {},
        Phase::Exchanging { .. } => {},
        Phase::Settling => {
            lemma_settling_keeps_sound(m);
        },
    }
}

/// Every run from a sound state stays sound.
pub proof fn lemma_run_keeps_sound(m: Machine, events: Seq<Event>)
    requires
        sound(m),
    ensures
        sound(crate::termination::run_of(m, events)),
    decreases events.len(),
{
    if events.len() > 0 {
        lemma_run_keeps_sound(m, events.drop_last());
        lemma_step_keeps_sound(crate::termination::run_of(m, events.drop_last()), events.last());
    }
}

/// When a verdict is due in a sound state, the values that it reads are
/// there, and where it speaks of a session, at most 32 bits are known and
/// at most 32 collisions have been narrowed down.
pub proof fn lemma_verdicts_are_supplied(m: Machine, task: Task)
    requires
        sound(m),
        m.phase is Settling,
        m.task == Some(task),
        m.pending.len() == 0,
    ensures
        m.values.len() >= needed(task),
        task_in_range(task),
{
    assert(reads_in(m.pending) == 0);
}

/// Every operation of the reader starts in a sound state.
pub proof fn lemma_operations_start_sound(
    data: Seq<u8>,
    command: u8,
    goal: Goal,
    uid: [u8; 10],
    valid_bits: u8,
    purpose: Purpose,
)
    ensures
        sound(begin_of(reset_script(), Task::Reset).0),
        sound(begin_of(gain_script(), Task::Gain).0),
        sound(begin_of(crc_script(data), Task::CrcPoll { left: (POLL_BOUND - 1) as u8 }).0),
        sound(
            begin_of(
                probe_script(command),
                Task::ProbePoll { left: (POLL_BOUND - 1) as u8, purpose },
            ).0,
        ),
        sound(
            begin_of(
                presence_script(),
                Task::ProbePoll { left: (POLL_BOUND - 1) as u8, purpose },
            ).0,
        ),
        sound(
            begin_of(
                session_script(opening_session(goal, uid, valid_bits)),
                session_task(opening_session(goal, uid, valid_bits)),
            ).0,
        ),
{
    lemma_reset_supplies();
    lemma_start_is_sound(reset_script(), Task::Reset);
    lemma_start_is_sound(gain_script(), Task::Gain);
    lemma_crc_supplies(data);
    lemma_start_is_sound(crc_script(data), Task::CrcPoll { left: (POLL_BOUND - 1) as u8 });
    lemma_probe_supplies(command);
    lemma_start_is_sound(
        probe_script(command),
        Task::ProbePoll { left: (POLL_BOUND - 1) as u8, purpose },
    );
    lemma_start_is_sound(
        presence_script(),
        Task::ProbePoll { left: (POLL_BOUND - 1) as u8, purpose },
    );
    let session = opening_session(goal, uid, valid_bits);
    lemma_opening_in_range(goal, uid, valid_bits);
    lemma_session_supplies(session);
    lemma_start_is_sound(session_script(session), session_task(session));
}

} // verus!
