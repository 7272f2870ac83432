//! Every operation ends: a bound on the number of actions that an engine
//! can still hand out, which each step lowers.

use vstd::prelude::*;
use crate::bus::{lemma_script_cost_concat, op_cost, script_cost, Event, Op};
use crate::machine::{issue_of, step_of, Machine, Phase};
use crate::picc::{anticollision_frame_of, exchange_frame_of, select_frame_of, CascadeLevel, BLOCK_BITS};
use crate::protocol::{
    collision_plan, collision_script, crc_result_script, decide_of, exchange_script, fifo_reads,
    fifo_writes, poll_script, reply_plan, session_script, status_plan, status_script, Plan,
    Session, Task, RETRY_BOUND,
};

verus! {

/// The most that one exchange with a card can cost: its script, the whole
/// wait, the status read, and the read of the answer.
pub open spec fn round_cost() -> nat {
    459
}

/// How many cascade levels lie behind `level`.
pub open spec fn levels_after(level: CascadeLevel) -> nat {
    match level {
        CascadeLevel::One => 2,
        CascadeLevel::Two => 1,
        CascadeLevel::Three => 0,
    }
}

/// How many collisions the session may still narrow down on its level.
pub open spec fn retries_left(session: Session) -> nat {
    if session.retries >= RETRY_BOUND {
        0
    } else {
        (RETRY_BOUND - session.retries) as nat
    }
}

/// The most exchanges that a session can still make, the next one
/// included. On each level every collision may be followed by an exchange
/// that completes the block, and then the select goes out.
pub open spec fn rounds_left(session: Session) -> nat {
    66 * levels_after(session.level) + 2 * retries_left(session) + (if session.known
        < BLOCK_BITS {
        2nat
    } else {
        1nat
    })
}

/// The exchanges that a session can still make after the one at hand.
pub open spec fn rounds_behind(session: Session) -> nat {
    (rounds_left(session) - 1) as nat
}

/// The most that all scripts can cost that may follow the script of `task`.
pub open spec fn task_budget(task: Task) -> nat {
    match task {
        Task::Reset => 6,
        Task::Configured { .. } => 0,
        Task::Gain => 0,
        Task::CrcPoll { left } => 4 * left as nat + 6,
        Task::CrcResult => 0,
        Task::ProbePoll { left, .. } => 4 * left as nat + 9,
        Task::ProbeLevel { .. } => 6,
        Task::ProbeData { .. } => 0,
        Task::SelectPoll { left, session } => 4 * left as nat + 21 + rounds_behind(session)
            * round_cost(),
        Task::SelectStatus { session } => 15 + rounds_behind(session) * round_cost(),
        Task::SelectCollision { session } => rounds_behind(session) * round_cost(),
        Task::SelectReply { session } => rounds_behind(session) * round_cost(),
    }
}

/// How many actions complete the register operation at hand.
pub open spec fn phase_budget(phase: Phase) -> nat {
    match phase {
        Phase::Idle => 0,
        Phase::Selected { .. } => 2,
        Phase::Exchanging { .. } => 1,
        Phase::Settling => 0,
    }
}

/// A bound on the number of steps after which the engine is at rest.
pub open spec fn budget(m: Machine) -> nat {
    if m.phase is Idle {
        0
    } else {
        1 + phase_budget(m.phase) + script_cost(m.pending) + (match m.task {
            Some(task) => task_budget(task),
            None => 0,
        })
    }
}

/// The state after the engine has taken the given reports, one step each.
pub open spec fn run_of(m: Machine, events: Seq<Event>) -> Machine
    decreases events.len(),
{
    if events.len() == 0 {
        m
    } else {
        step_of(run_of(m, events.drop_last()), events.last()).0
    }
}

proof fn lemma_cost_single(op: Op)
    ensures
        script_cost(seq![op]) == op_cost(op),
{
    assert(seq![op].drop_last() =~= Seq::<Op>::empty());
    assert(script_cost(Seq::<Op>::empty()) == 0);
}

proof fn lemma_cost_pair(a: Op, b: Op)
    ensures
        script_cost(seq![a, b]) == op_cost(a) + op_cost(b),
{
    assert(seq![a, b] =~= seq![a] + seq![b]);
    lemma_script_cost_concat(seq![a], seq![b]);
    lemma_cost_single(a);
    lemma_cost_single(b);
}

proof fn lemma_cost_triple(a: Op, b: Op, c: Op)
    ensures
        script_cost(seq![a, b, c]) == op_cost(a) + op_cost(b) + op_cost(c),
{
    assert(seq![a, b, c] =~= seq![a, b] + seq![c]);
    lemma_script_cost_concat(seq![a, b], seq![c]);
    lemma_cost_pair(a, b);
    lemma_cost_single(c);
}

/// A script costs what its first operation costs and what the rest costs.
pub proof fn lemma_cost_front(script: Seq<Op>)
    requires
        script.len() > 0,
    ensures
        script_cost(script) == op_cost(script[0]) + script_cost(
            script.subrange(1, script.len() as int),
        ),
{
    let rest = script.subrange(1, script.len() as int);
    assert(script =~= seq![script[0]] + rest);
    lemma_script_cost_concat(seq![script[0]], rest);
    lemma_cost_single(script[0]);
}

proof fn lemma_cost_fifo_writes(data: Seq<u8>)
    ensures
        script_cost(fifo_writes(data)) == 3 * data.len(),
    decreases data.len(),
{
    if data.len() > 0 {
        assert(fifo_writes(data).drop_last() =~= fifo_writes(data.drop_last()));
        lemma_cost_fifo_writes(data.drop_last());
    }
}

proof fn lemma_cost_fifo_reads(n: nat)
    ensures
        script_cost(fifo_reads(n)) == 3 * n,
    decreases n,
{
    if n > 0 {
        assert(fifo_reads(n).drop_last() =~= fifo_reads((n - 1) as nat));
        lemma_cost_fifo_reads((n - 1) as nat);
    }
}

proof fn lemma_cost_exchange(frame: Seq<u8>, framing: u8)
    ensures
        script_cost(exchange_script(frame, framing)) == 3 * (5 + frame.len()),
{
    let head = exchange_script(Seq::empty(), framing).subrange(0, 2);
    let tail = exchange_script(Seq::empty(), framing).subrange(2, 5);
    assert(exchange_script(frame, framing) =~= head + fifo_writes(frame) + tail);
    lemma_script_cost_concat(head + fifo_writes(frame), tail);
    lemma_script_cost_concat(head, fifo_writes(frame));
    lemma_cost_fifo_writes(frame);
    assert(head =~= seq![head[0], head[1]]);
    lemma_cost_pair(head[0], head[1]);
    assert(tail =~= seq![tail[0], tail[1], tail[2]]);
    lemma_cost_triple(tail[0], tail[1], tail[2]);
}

proof fn lemma_cost_session(session: Session)
    ensures
        0 < session_script(session).len(),
        script_cost(session_script(session)) <= 42,
{
    let frame = exchange_frame_of(session.level, session.known, session.block@);
    if session.known >= BLOCK_BITS {
        assert(select_frame_of(session.level, session.block@).len() == 9);
    } else {
        assert(anticollision_frame_of(session.level, session.known, session.block@).len() <= 6);
    }
    lemma_cost_exchange(frame, crate::picc::framing_of(session.known));
}

/// An exchange and all that can follow it in a session fit in that
/// session's rounds.
proof fn lemma_exchange_budget(session: Session)
    ensures
        0 < session_script(session).len(),
        script_cost(session_script(session)) + task_budget(
            crate::protocol::session_task(session),
        ) <= rounds_left(session) * round_cost(),
{
    lemma_cost_session(session);
    assert(rounds_left(session) >= 1);
    assert(rounds_left(session) == rounds_behind(session) + 1);
    assert((rounds_behind(session) + 1) * round_cost() == rounds_behind(session) * round_cost()
        + round_cost()) by (nonlinear_arith);
}

proof fn lemma_rounds_scale(fewer: nat, more: nat)
    requires
        fewer <= more,
    ensures
        fewer * round_cost() <= more * round_cost(),
{
    assert(fewer * round_cost() <= more * round_cost()) by (nonlinear_arith)
        requires
            fewer <= more,
    ;
}

/// A verdict never asks for more than the task had in reserve, and its
/// script is never empty.
pub proof fn lemma_decide_budget(task: Task, values: Seq<u8>)
    ensures
        decide_of(task, values) matches Plan::Next { script, task: next } ==> 0 < script.len()
            && script_cost(script) + task_budget(next) <= task_budget(task),
{
    match task {
        Task::Reset => {
            let script = decide_of(task, values)->script;
            if script.len() == 2 {
                assert(script =~= seq![script[0], script[1]]);
                lemma_cost_pair(script[0], script[1]);
            } else {
                assert(script =~= seq![script[0]]);
                lemma_cost_single(script[0]);
            }
        },
        Task::Configured { .. } => {},
        Task::Gain => {},
        Task::CrcPoll { left } => {
            let a = crc_result_script();
            lemma_cost_pair(a[0], a[1]);
            assert(a =~= seq![a[0], a[1]]);
            let b = poll_script(crate::registers::DIV_IRQ_REG);
            assert(b =~= seq![b[0], b[1]]);
            lemma_cost_pair(b[0], b[1]);
        },
        Task::CrcResult => {},
        Task::ProbePoll { left, purpose } => {
            let a = seq![Op::Read { addr: crate::registers::FIFO_LEVEL_REG }];
            lemma_cost_single(a[0]);
            let b = poll_script(crate::registers::COMM_IRQ_REG);
            assert(b =~= seq![b[0], b[1]]);
            lemma_cost_pair(b[0], b[1]);
        },
        Task::ProbeLevel { .. } => {
            lemma_cost_fifo_reads(2);
        },
        Task::ProbeData { .. } => {},
        Task::SelectPoll { left, session } => {
            let a = status_script();
            assert(a =~= seq![a[0], a[1]]);
            lemma_cost_pair(a[0], a[1]);
            let b = poll_script(crate::registers::COMM_IRQ_REG);
            assert(b =~= seq![b[0], b[1]]);
            lemma_cost_pair(b[0], b[1]);
        },
        Task::SelectStatus { session } => {
            if let Plan::Next { script, task: next } = status_plan(
                session,
                crate::protocol::value_at(values, 0),
                crate::protocol::value_at(values, 1),
            ) {
                if next is SelectCollision {
                    let count = (script.len() - 1) as nat;
                    assert(script =~= collision_script(count));
                    lemma_script_cost_concat(
                        seq![Op::Read { addr: crate::registers::COLL_REG }],
                        fifo_reads(count),
                    );
                    lemma_cost_single(Op::Read { addr: crate::registers::COLL_REG });
                    lemma_cost_fifo_reads(count);
                } else {
                    lemma_cost_fifo_reads(script.len());
                    assert(script =~= fifo_reads(script.len()));
                }
            }
        },
        Task::SelectCollision { session } => {
            if let Plan::Next { script, task: next } = collision_plan(session, values) {
                let narrowed = next->SelectPoll_session;
                lemma_exchange_budget(narrowed);
                assert(rounds_left(narrowed) <= rounds_behind(session));
                lemma_rounds_scale(rounds_left(narrowed), rounds_behind(session));
            }
        },
        Task::SelectReply { session } => {
            if let Plan::Next { script, task: next } = reply_plan(session, values) {
                let following = next->SelectPoll_session;
                lemma_exchange_budget(following);
                assert(rounds_left(following) <= rounds_behind(session));
                lemma_rounds_scale(rounds_left(following), rounds_behind(session));
            }
        },
    }
}

proof fn lemma_issue_budget(m: Machine)
    requires
        m.pending.len() > 0,
        m.phase is Settling,
    ensures
        budget(issue_of(m).0) < budget(m),
        !(issue_of(m).0.phase is Idle),
{
    lemma_cost_front(m.pending);
}

/// Each step of a running engine lowers its budget.
pub proof fn lemma_step_lowers_budget(m: Machine, event: Event)
    requires
        !(m.phase is Idle),
    ensures
        budget(step_of(m, event).0) < budget(m),
{
    match m.phase {
        Phase::Idle => {},
        Phase::Selected { .. } => {},
        Phase::Exchanging { .. } => {},
        Phase::Settling => {
            match m.task {
                None => {},
                Some(task) => {
                    if m.fault && !crate::protocol::lenient_of(task) {
                    } else if m.pending.len() > 0 {
                        lemma_issue_budget(m);
                    } else {
                        lemma_decide_budget(task, m.values);
                        match decide_of(task, m.values) {
                            Plan::Finish { .. } => {},
                            Plan::Next { script, task: next } => {
                                let loaded = Machine {
                                    pending: script,
                                    values: Seq::empty(),
                                    task: Some(next),
                                    ..m
                                };
                                lemma_issue_budget(loaded);
                                assert(script_cost(m.pending) == 0);
                            },
                        }
                    }
                },
            }
        },
    }
}

/// An engine at rest stays at rest.
pub proof fn lemma_rest_is_stable(m: Machine, event: Event)
    requires
        m.phase is Idle,
    ensures
        step_of(m, event).0 == m,
{
}

/// After as many steps as the budget says, whatever the driver reports, the
/// engine is at rest: every operation ends.
pub proof fn lemma_run_ends(m: Machine, events: Seq<Event>)
    ensures
        budget(run_of(m, events)) + events.len() <= budget(m) || run_of(m, events).phase is Idle,
        events.len() >= budget(m) ==> run_of(m, events).phase is Idle,
    decreases events.len(),
{
    if events.len() > 0 {
        let before = run_of(m, events.drop_last());
        lemma_run_ends(m, events.drop_last());
        if before.phase is Idle {
            lemma_rest_is_stable(before, events.last());
        } else {
            lemma_step_lowers_budget(before, events.last());
        }
    }
}

} // verus!
