//! Performing a plan one invocation at a time.
//!
//! The module decides; the host performs. `begin` hands out the first
//! invocation of a plan, and `resume` takes the outcome of the invocation
//! last handed out and decides what follows: the next invocation after a
//! success, the end after the last one, and the end at once, with the
//! callee's error unchanged, after a failure.

use crate::call::{plan_view, Invocation, InvocationView};
use crate::error::LedgerError;
use crate::reserve::planned_view;
use solana_program::program_error::ProgramError;
use vstd::prelude::*;

verus! {

/// The invocations still to perform once the one handed out has succeeded.
#[derive(Debug, PartialEq, Eq)]
pub struct Execution {
    remaining: Vec<Invocation>,
}

impl View for Execution {
    type V = Seq<InvocationView>;

    closed spec fn view(&self) -> Seq<InvocationView> {
        plan_view(self.remaining@)
    }
}

/// What the host is to do next.
#[derive(Debug, PartialEq, Eq)]
pub enum Progress {
    /// Perform `invocation` and hand its outcome to `rest.resume`.
    Invoke { invocation: Invocation, rest: Execution },
    /// Nothing is left to perform: report this result.
    Finished(Result<(), LedgerError>),
}

/// The model of a `Progress`.
pub enum ProgressView {
    Invoke { invocation: InvocationView, rest: Seq<InvocationView> },
    Finished(Result<(), LedgerError>),
}

impl View for Progress {
    type V = ProgressView;

    open spec fn view(&self) -> ProgressView {
        match *self {
            Progress::Invoke { invocation, rest } => ProgressView::Invoke {
                invocation: invocation@,
                rest: rest@,
            },
            Progress::Finished(result) => ProgressView::Finished(result),
        }
    }
}

/// The step that a plan asks for: its first invocation, or success when it
/// is empty.
pub open spec fn next_step(plan: Seq<InvocationView>) -> ProgressView {
    if plan.len() == 0 {
        ProgressView::Finished(Ok(()))
    } else {
        ProgressView::Invoke { invocation: plan[0], rest: plan.skip(1) }
    }
}

/// The step that follows planning: the first invocation of the plan, or the
/// planning failure with nothing invoked.
pub open spec fn first_step(planned: Result<Seq<InvocationView>, LedgerError>) -> ProgressView {
    match planned {
        Ok(plan) => next_step(plan),
        Err(e) => ProgressView::Finished(Err(e)),
    }
}

/// The step that follows the outcome of an invocation, `rest` being what
/// was left to perform after it.
pub open spec fn step_after(
    rest: Seq<InvocationView>,
    outcome: Result<(), ProgramError>,
) -> ProgressView {
    match outcome {
        Ok(_) => next_step(rest),
        Err(e) => ProgressView::Finished(Err(LedgerError::ExternalInvocationFailure(e))),
    }
}

/// The invocations handed out, in order, and the result reported if the end
/// is reached, when the host goes on from `progress` and the invocations it
/// performs have the outcomes `outcomes`, in order. Outcomes beyond the end
/// are not read.
pub open spec fn performed(progress: ProgressView, outcomes: Seq<Result<(), ProgramError>>) -> (
    Seq<InvocationView>,
    Option<Result<(), LedgerError>>,
)
    decreases outcomes.len(),
{
    match progress {
        ProgressView::Finished(result) => (Seq::empty(), Some(result)),
        ProgressView::Invoke { invocation, rest } => if outcomes.len() == 0 {
            (seq![invocation], None)
        } else {
            let later = performed(step_after(rest, outcomes[0]), outcomes.skip(1));
            (seq![invocation] + later.0, later.1)
        },
    }
}

/// Hands out the first invocation of `plan` and keeps the others.
fn advance(plan: Vec<Invocation>) -> (progress: Progress)
    ensures
        progress@ == next_step(plan_view(plan@)),
{
    let mut remaining = plan;
    if remaining.len() == 0 {
        Progress::Finished(Ok(()))
    } else {
        let invocation = remaining.remove(0);
        assert(plan_view(remaining@) =~= plan_view(plan@).skip(1));
        Progress::Invoke { invocation, rest: Execution { remaining } }
    }
}

impl Execution {
    /// Starts performing what was planned: hands out the first invocation,
    /// or finishes at once with the planning failure, nothing invoked.
    pub fn begin(planned: Result<Vec<Invocation>, LedgerError>) -> (progress: Progress)
        ensures
            progress@ == first_step(planned_view(planned)),
    {
        match planned {
            Ok(plan) => advance(plan),
            Err(e) => Progress::Finished(Err(e)),
        }
    }

    /// Takes the outcome of the invocation last handed out.
    ///
    /// After a failure nothing more is invoked and the callee's error is the
    /// result, unchanged. After a success the next invocation is handed out,
    /// or the whole finishes with success when none is left.
    pub fn resume(self, outcome: Result<(), ProgramError>) -> (progress: Progress)
        ensures
            progress@ == step_after(self@, outcome),
    {
        match outcome {
            Ok(_) => advance(self.remaining),
            Err(e) => Progress::Finished(Err(LedgerError::ExternalInvocationFailure(e))),
        }
    }

    /// Number of invocations still to perform after the one handed out.
    pub fn remaining(&self) -> (count: usize)
        ensures
            count == self@.len(),
    {
        self.remaining.len()
    }
}

} // verus!
