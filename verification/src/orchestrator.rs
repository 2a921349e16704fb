//! The consuming loop's decision: count each received step in the tally and
//! stop the whole run on the first fatal step.
//!
//! The loop itself — receiving from the shared channel, the periodic status
//! print, and broadcasting the stop signal — lives with the caller; the
//! accounting and the termination policy are here.

use vstd::prelude::*;

use crate::step::FuzzStep;
use crate::step::StepKind;
use crate::tally::FuzzTally;
use crate::tally::count_step;

verus! {

/// Count one received step and decide whether the run stops: a created or
/// finished game and each command bump their counters, a user error counts
/// as a failed command as well, and a fatal step — the only step that is
/// not tallied — ends the run.
pub fn consume_step<S>(tally: &mut FuzzTally, step: &FuzzStep<S>) -> (stop: bool)
    requires
        old(tally).started < usize::MAX,
        old(tally).finished < usize::MAX,
        old(tally).commands < usize::MAX,
        old(tally).invalid_input < usize::MAX,
    ensures
        final(tally)@ == count_step(old(tally)@, step.kind()),
        stop == (step.kind() == StepKind::Error),
{
    let stop = match step {
        FuzzStep::Created => {
            tally.started = tally.started + 1;
            false
        },
        FuzzStep::Finished => {
            tally.finished = tally.finished + 1;
            false
        },
        FuzzStep::CommandOk => {
            tally.commands = tally.commands + 1;
            false
        },
        FuzzStep::UserError => {
            tally.commands = tally.commands + 1;
            tally.invalid_input = tally.invalid_input + 1;
            false
        },
        FuzzStep::Error { .. } => true,
    };
    proof {
        assert(tally@ =~= count_step(old(tally)@, step.kind()));
    }
    stop
}

} // verus!
