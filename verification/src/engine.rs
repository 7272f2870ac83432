//! The engine: it runs one operation at a time, and never touches the bus.
//!
//! The reader starts an operation and gets the first action. The driver
//! performs the action on the hardware and calls [`Engine::resume`] with what
//! came of it, until the action is [`Action::Finished`].

use vstd::prelude::*;
use crate::bus::{read_frame, write_frame, Action, Event, Op};
use crate::errors::RFIDError;
use crate::machine::{begin_of, idle_machine, issue_of, proceed_of, step_of, Machine, Phase};
use crate::protocol::{decide, failure, lenient, Decision, Outcome, Task};

verus! {

/// The state of the operation that is running, if one is.
pub struct Engine {
    script: Vec<Op>,
    next: usize,
    phase: Phase,
    values: Vec<u8>,
    fault: bool,
    task: Option<Task>,
}

impl View for Engine {
    type V = Machine;

    closed spec fn view(&self) -> Machine {
        Machine {
            pending: if self.next <= self.script@.len() {
                self.script@.subrange(self.next as int, self.script@.len() as int)
            } else {
                Seq::empty()
            },
            phase: self.phase,
            values: self.values@,
            fault: self.fault,
            task: self.task,
        }
    }
}

impl Engine {
    /// An engine at rest.
    pub fn new() -> (engine: Self)
        ensures
            engine@ == idle_machine(),
    {
        let engine = Engine {
            script: Vec::new(),
            next: 0,
            phase: Phase::Idle,
            values: Vec::new(),
            fault: false,
            task: None,
        };
        assert(engine@.pending =~= Seq::empty());
        engine
    }

    /// Whether no operation is running.
    pub fn is_idle(&self) -> (idle: bool)
        ensures
            idle == (self@.phase is Idle),
    {
        match self.phase {
            Phase::Idle => true,
            _ => false,
        }
    }

    fn finish(&mut self, outcome: Outcome) -> (action: Action)
        ensures
            final(self)@ == idle_machine(),
            action == Action::Finished(outcome),
    {
        self.script = Vec::new();
        self.next = 0;
        self.phase = Phase::Idle;
        self.values = Vec::new();
        self.fault = false;
        self.task = None;
        assert(self@.pending =~= Seq::empty());
        Action::Finished(outcome)
    }

    fn issue(&mut self) -> (action: Action)
        requires
            old(self).next < old(self).script@.len(),
        ensures
            (final(self)@, action) == issue_of(old(self)@),
    {
        let len = self.script.len();
        let op = self.script[self.next];
        self.next = self.next + 1;
        assert(self@.pending =~= old(self)@.pending.subrange(
            1,
            old(self)@.pending.len() as int,
        ));
        assert(old(self)@.pending[0] == op);
        let action = match op {
            Op::Write { addr, value } => {
                let tx = write_frame(addr, value);
                assert(tx@ =~= [addr & 0x7F, value]@);
                assert(tx == [addr & 0x7F, value]);
                self.phase = Phase::Selected { tx, capture: false };
                Action::SelectChip
            },
            Op::Read { addr } => {
                let tx = read_frame(addr);
                assert(tx@ =~= [addr | 0x80, 0x00u8]@);
                assert(tx == [addr | 0x80, 0x00u8]);
                self.phase = Phase::Selected { tx, capture: true };
                Action::SelectChip
            },
            Op::DelayMs { ms } => {
                self.phase = Phase::Settling;
                Action::DelayMs { ms }
            },
            Op::ResetLine { high } => {
                self.phase = Phase::Settling;
                Action::ResetLine { high }
            },
            Op::Release => {
                self.phase = Phase::Settling;
                Action::ReleaseChip
            },
        };
        action
    }

    fn proceed(&mut self) -> (action: Action)
        ensures
            (final(self)@, action) == proceed_of(old(self)@),
    {
        match self.task {
            None => {
                self.script = Vec::new();
                self.next = 0;
                self.phase = Phase::Idle;
                self.values = Vec::new();
                self.fault = false;
                assert(self@.pending =~= Seq::empty());
                Action::Idle
            },
            Some(task) => {
                if self.fault && !lenient(&task) {
                    self.finish(failure(&task, RFIDError::CommunicationError))
                } else if self.next < self.script.len() {
                    self.issue()
                } else {
                    match decide(&task, &self.values) {
                        Decision::Finish { outcome } => self.finish(outcome),
                        Decision::Next { script, task: next } => {
                            self.script = script;
                            self.next = 0;
                            self.values = Vec::new();
                            self.task = Some(next);
                            assert(self@.pending =~= script@);
                            self.issue()
                        },
                    }
                }
            },
        }
    }

    /// Starts an operation: takes up `script`, whose values `task` will
    /// judge, and hands out the first action.
    pub(crate) fn begin(&mut self, script: Vec<Op>, task: Task) -> (action: Action)
        requires
            old(self)@.phase is Idle,
        ensures
            (final(self)@, action) == begin_of(script@, task),
    {
        self.script = script;
        self.next = 0;
        self.phase = Phase::Settling;
        self.values = Vec::new();
        self.fault = false;
        self.task = Some(task);
        assert(self@.pending =~= script@);
        self.proceed()
    }

    /// Takes the driver's report on the last action and hands out the next
    /// action.
    pub fn resume(&mut self, event: Event) -> (action: Action)
        ensures
            (final(self)@, action) == step_of(old(self)@, event),
    {
        match self.phase {
            Phase::Idle => Action::Idle,
            Phase::Selected { tx, capture } => {
                self.phase = Phase::Exchanging { capture };
                Action::Transfer { tx }
            },
            Phase::Exchanging { capture } => {
                match event {
                    Event::Reply { rx } => {
                        if capture {
                            self.values.push(rx[1]);
                        }
                    },
                    _ => {
                        if capture {
                            self.values.push(0);
                        }
                        self.fault = true;
                    },
                }
                self.phase = Phase::Settling;
                Action::ReleaseChip
            },
            Phase::Settling => self.proceed(),
        }
    }
}

} // verus!
