//! The classified outcome of one fuzzer iteration.

use vstd::prelude::*;

use crate::session::Session;

verus! {

/// One classified outcome of a single fuzzer iteration.  Exactly one step is
/// produced per iteration; a fatal failure carries the last known session
/// and the attempted command, if any, for diagnosis.
pub enum FuzzStep<S> {
    Created,
    CommandOk,
    UserError,
    Finished,
    Error { game: Option<Session<S>>, command: Option<String>, error: String },
}

/// The tag of a step, without its payload.
#[derive(Clone, Copy, PartialEq, Eq, Structural, Debug)]
pub enum StepKind {
    Created,
    CommandOk,
    UserError,
    Finished,
    Error,
}

impl<S> FuzzStep<S> {
    /// The tag of this step.
    pub open spec fn kind(self) -> StepKind {
        match self {
            FuzzStep::Created => StepKind::Created,
            FuzzStep::CommandOk => StepKind::CommandOk,
            FuzzStep::UserError => StepKind::UserError,
            FuzzStep::Finished => StepKind::Finished,
            FuzzStep::Error { .. } => StepKind::Error,
        }
    }
}

/// How one step kind relates the presence of a live session before and after
/// the iteration that produced it: a game is created only when none exists,
/// and a session is discarded exactly when its game finishes.
pub open spec fn step_presence_ok(k: StepKind, before: bool, after: bool) -> bool {
    match k {
        StepKind::Created => !before && after,
        StepKind::Finished => before && !after,
        StepKind::CommandOk => before && after,
        StepKind::UserError => before && after,
        StepKind::Error => before == after,
    }
}

} // verus!
