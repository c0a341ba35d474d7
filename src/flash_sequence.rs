//! The command sequence of one page program or one granule erase.
//!
//! A sequence unlocks the controller, loads its timing, runs the operation
//! and locks the controller again. The caller performs each action and
//! reports its outcome; only waiting for the controller and checking the
//! end of the operation can fail. A failure skips the rest of the
//! operation but never the steps that undo it: every sequence ends by
//! locking the controller.
use vstd::prelude::*;

use crate::flash::Error;

verus! {

/// One step of a sequence.
#[derive(Clone, Copy, Debug, PartialEq, Eq, Structural)]
pub enum FlashAction {
    /// Clear the pending status flags.
    ClearErrors,
    /// Write the two keys, where the controller is locked.
    Unlock,
    /// Load the timing registers for the running oscillator.
    ConfigureTiming,
    /// Enter programming mode with the end-of-operation interrupt flag.
    EnableProgramming,
    /// Wait until the controller is idle; fails with `Protected`.
    WaitReady,
    /// Write the page's words, strobing the start before the last one.
    ProgramPage,
    /// Select page or sector erase and start it.
    StartErase,
    /// Check and clear the end-of-operation flag; fails with `Prog`.
    CheckEndOfOperation,
    /// Leave programming mode.
    DisableProgramming,
    /// Deselect page or sector erase and clear the status flags.
    FinishErase,
    /// Lock the controller.
    Lock,
    /// Nothing left to do.
    Done,
}

/// The operation a sequence carries out.
#[derive(Clone, Copy, Debug, PartialEq, Eq, Structural)]
pub enum FlashOperation {
    Program,
    Erase,
}

/// Index of the last step (`Lock`) of `op`.
pub open spec fn last_step(op: FlashOperation) -> int {
    match op {
        FlashOperation::Program => 9,
        FlashOperation::Erase => 8,
    }
}

/// Index of the first step that undoes the operation.
pub open spec fn cleanup_step(op: FlashOperation) -> int {
    8
}

pub open spec fn action_at(op: FlashOperation, step: int) -> FlashAction {
    match op {
        FlashOperation::Program => {
            if step == 0 {
                FlashAction::ClearErrors
            } else if step == 1 {
                FlashAction::Unlock
            } else if step == 2 {
                FlashAction::ConfigureTiming
            } else if step == 3 {
                FlashAction::EnableProgramming
            } else if step == 4 || step == 6 {
                FlashAction::WaitReady
            } else if step == 5 {
                FlashAction::ProgramPage
            } else if step == 7 {
                FlashAction::CheckEndOfOperation
            } else if step == 8 {
                FlashAction::DisableProgramming
            } else {
                FlashAction::Lock
            }
        },
        FlashOperation::Erase => {
            if step == 0 {
                FlashAction::ClearErrors
            } else if step == 1 {
                FlashAction::Unlock
            } else if step == 2 {
                FlashAction::ConfigureTiming
            } else if step == 3 || step == 5 {
                FlashAction::WaitReady
            } else if step == 4 {
                FlashAction::StartErase
            } else if step == 6 {
                FlashAction::CheckEndOfOperation
            } else if step == 7 {
                FlashAction::FinishErase
            } else {
                FlashAction::Lock
            }
        },
    }
}

/// A sequence's position, first failure and last action performed.
pub struct SequenceState {
    pub op: FlashOperation,
    pub step: int,
    pub failure: Option<Error>,
    pub last: FlashAction,
    pub done: bool,
}

/// The state after the current action reported `outcome`.
pub open spec fn next_state(s: SequenceState, outcome: Result<(), Error>) -> SequenceState {
    if s.done {
        s
    } else if s.step >= last_step(s.op) {
        SequenceState { last: action_at(s.op, s.step), done: true, ..s }
    } else if outcome is Err && s.step < cleanup_step(s.op) {
        SequenceState {
            step: cleanup_step(s.op),
            failure: if s.failure is None {
                Some(outcome->Err_0)
            } else {
                s.failure
            },
            last: action_at(s.op, s.step),
            ..s
        }
    } else {
        SequenceState { step: s.step + 1, last: action_at(s.op, s.step), ..s }
    }
}

/// The state after reporting `outcomes` one by one.
pub open spec fn run(s: SequenceState, outcomes: Seq<Result<(), Error>>) -> SequenceState
    decreases outcomes.len(),
{
    if outcomes.len() == 0 {
        s
    } else {
        run(next_state(s, outcomes[0]), outcomes.drop_first())
    }
}

/// A sequence in progress.
pub struct FlashSequence {
    op: FlashOperation,
    step: usize,
    failure: Option<Error>,
    last: FlashAction,
    done: bool,
}

impl View for FlashSequence {
    type V = SequenceState;

    closed spec fn view(&self) -> SequenceState {
        SequenceState {
            op: self.op,
            step: self.step as int,
            failure: self.failure,
            last: self.last,
            done: self.done,
        }
    }
}

impl FlashSequence {
    pub closed spec fn wf(&self) -> bool {
        self.step <= last_step(self.op)
    }

    /// A sequence for `op` at its first step.
    pub fn new(op: FlashOperation) -> (r: Self)
        ensures
            r.wf(),
            r@.op == op,
            r@.step == 0,
            r@.failure is None,
            !r@.done,
    {
        FlashSequence { op, step: 0, failure: None, last: FlashAction::Done, done: false }
    }

    /// The action to perform now.
    pub fn action(&self) -> (r: FlashAction)
        requires
            self.wf(),
        ensures
            self@.done ==> r == FlashAction::Done,
            !self@.done ==> r == action_at(self@.op, self@.step),
    {
        if self.done {
            return FlashAction::Done;
        }
        let s = self.step;
        match self.op {
            FlashOperation::Program => {
                if s == 0 {
                    FlashAction::ClearErrors
                } else if s == 1 {
                    FlashAction::Unlock
                } else if s == 2 {
                    FlashAction::ConfigureTiming
                } else if s == 3 {
                    FlashAction::EnableProgramming
                } else if s == 4 || s == 6 {
                    FlashAction::WaitReady
                } else if s == 5 {
                    FlashAction::ProgramPage
                } else if s == 7 {
                    FlashAction::CheckEndOfOperation
                } else if s == 8 {
                    FlashAction::DisableProgramming
                } else {
                    FlashAction::Lock
                }
            },
            FlashOperation::Erase => {
                if s == 0 {
                    FlashAction::ClearErrors
                } else if s == 1 {
                    FlashAction::Unlock
                } else if s == 2 {
                    FlashAction::ConfigureTiming
                } else if s == 3 || s == 5 {
                    FlashAction::WaitReady
                } else if s == 4 {
                    FlashAction::StartErase
                } else if s == 6 {
                    FlashAction::CheckEndOfOperation
                } else if s == 7 {
                    FlashAction::FinishErase
                } else {
                    FlashAction::Lock
                }
            },
        }
    }

    /// Records the outcome of the current action and moves on: to the next
    /// step, or, after a failure, to the steps that undo the operation.
    pub fn advance(&mut self, outcome: Result<(), Error>)
        requires
            old(self).wf(),
        ensures
            final(self).wf(),
            final(self)@ == next_state(old(self)@, outcome),
    {
        if self.done {
            return;
        }
        let current = self.action();
        let last = match self.op {
            FlashOperation::Program => 9,
            FlashOperation::Erase => 8,
        };
        if self.step >= last {
            self.last = current;
            self.done = true;
            return;
        }
        match outcome {
            Err(e) => {
                if self.step < 8 {
                    if self.failure.is_none() {
                        self.failure = Some(e);
                    }
                    self.step = 8;
                    self.last = current;
                    return;
                }
            },
            Ok(_) => {},
        }
        self.step = self.step + 1;
        self.last = current;
    }

    /// The outcome of the whole sequence once it is done: its first
    /// failure, if any.
    pub fn result(&self) -> (r: Option<Result<(), Error>>)
        ensures
            !self@.done ==> r is None,
            self@.done && self@.failure is None ==> r == Some(Ok::<(), Error>(())),
            self@.done && self@.failure is Some ==> r == Some(
                Err::<(), Error>(self@.failure->0),
            ),
    {
        if !self.done {
            return None;
        }
        match self.failure {
            None => Some(Ok(())),
            Some(e) => Some(Err(e)),
        }
    }
}

/// Whatever the controller reports, a sequence that has not finished is
/// done after at most as many more actions as it has steps left, and the
/// last action it performed is locking the controller.
pub proof fn lemma_sequence_relocks(s: SequenceState, outcomes: Seq<Result<(), Error>>)
    requires
        !s.done,
        0 <= s.step <= last_step(s.op),
        outcomes.len() > last_step(s.op) - s.step,
    ensures
        run(s, outcomes).done,
        run(s, outcomes).last == FlashAction::Lock,
    decreases last_step(s.op) - s.step,
{
    let n = next_state(s, outcomes[0]);
    if s.step >= last_step(s.op) {
        lemma_run_done(n, outcomes.drop_first());
    } else {
        lemma_sequence_relocks(n, outcomes.drop_first());
    }
}

/// A finished sequence stays as it is.
proof fn lemma_run_done(s: SequenceState, outcomes: Seq<Result<(), Error>>)
    requires
        s.done,
    ensures
        run(s, outcomes) == s,
    decreases outcomes.len(),
{
    if outcomes.len() > 0 {
        lemma_run_done(next_state(s, outcomes[0]), outcomes.drop_first());
    }
}

/// A sequence in which every action succeeds performs every step of the
/// operation in order and finishes without failure.
pub proof fn lemma_sequence_succeeds(s: SequenceState, outcomes: Seq<Result<(), Error>>)
    requires
        !s.done,
        s.failure is None,
        0 <= s.step <= last_step(s.op),
        outcomes.len() > last_step(s.op) - s.step,
        forall|i: int| 0 <= i < outcomes.len() ==> #[trigger] outcomes[i] is Ok,
    ensures
        run(s, outcomes).done,
        run(s, outcomes).failure is None,
    decreases last_step(s.op) - s.step,
{
    let n = next_state(s, outcomes[0]);
    let rest = outcomes.drop_first();
    assert forall|i: int| 0 <= i < rest.len() implies #[trigger] rest[i] is Ok by {
        assert(rest[i] == outcomes[i + 1]);
    }
    if s.step >= last_step(s.op) {
        lemma_run_done(n, rest);
    } else {
        lemma_sequence_succeeds(n, rest);
    }
}

} // verus!
