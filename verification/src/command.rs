//! What came of running a command of the system.
use vstd::prelude::*;

verus! {

/// What came of a command: it did not start, it failed and said why, or it
/// succeeded and printed something.
#[derive(Debug)]
pub enum CommandOutcome {
    NotRun(String),
    Failed(String),
    Done(String),
}

pub ghost enum OutcomeView {
    NotRun(Seq<char>),
    Failed(Seq<char>),
    Done(Seq<char>),
}

impl View for CommandOutcome {
    type V = OutcomeView;

    open spec fn view(&self) -> OutcomeView {
        match *self {
            CommandOutcome::NotRun(error) => OutcomeView::NotRun(error@),
            CommandOutcome::Failed(stderr) => OutcomeView::Failed(stderr@),
            CommandOutcome::Done(stdout) => OutcomeView::Done(stdout@),
        }
    }
}

/// The outcome of an operation, with the characters of its error.
pub open spec fn outcome_view<T>(outcome: Result<T, String>) -> Result<T, Seq<char>> {
    match outcome {
        Ok(value) => Ok(value),
        Err(error) => Err(error@),
    }
}

} // verus!
