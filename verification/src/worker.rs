//! The stop policy of one worker lane.
//!
//! A worker owns one fuzzer and loops: advance the fuzzer, forward the step,
//! then poll its private stop channel without blocking.  The decision taken
//! after each poll, and the liveness law it gives, live here; the thread and
//! channel plumbing live with the caller.

use vstd::prelude::*;

verus! {

/// The outcome of one non-blocking poll of a worker's stop channel.
pub enum StopPoll {
    /// The stop signal arrived.
    Received,
    /// The signalling end is gone; treated as a stop.
    Disconnected,
    /// No signal yet.
    Empty,
}

/// Whether a poll outcome tells the worker to leave its loop.
pub open spec fn stop_poll_stops(p: StopPoll) -> bool {
    p is Received || p is Disconnected
}

/// Decide after one forwarded step whether the worker exits: it leaves on a
/// received signal and on a closed signal channel, and keeps fuzzing
/// otherwise — in particular it does not stop merely because it emitted a
/// fatal step.
pub fn worker_should_stop(poll: &StopPoll) -> (r: bool)
    ensures
        r == stop_poll_stops(*poll),
{
    match poll {
        StopPoll::Received => true,
        StopPoll::Disconnected => true,
        StopPoll::Empty => false,
    }
}

/// The number of steps a worker emits, given the poll outcomes it would
/// observe after successive steps: one step per iteration, and the loop ends
/// with the first poll that signals stop.  A finite sequence of polls covers
/// a finite window of the otherwise endless loop.
pub open spec fn worker_steps(polls: Seq<StopPoll>) -> nat
    decreases polls.len(),
{
    if polls.len() == 0 {
        0
    } else if stop_poll_stops(polls[0]) {
        1
    } else {
        1 + worker_steps(polls.drop_first())
    }
}

/// Law: liveness under the stop signal.  Once the signal is present from
/// poll `k` on, the worker emits at most `k + 1` steps over that window:
/// at most one further step after the signal arrives.
pub proof fn lemma_worker_liveness(polls: Seq<StopPoll>, k: int)
    requires
        0 <= k < polls.len(),
        forall|i: int| k <= i < polls.len() ==> stop_poll_stops(#[trigger] polls[i]),
    ensures
        worker_steps(polls) <= k + 1,
    decreases k,
{
    if !stop_poll_stops(polls[0]) {
        assert forall|i: int|
            k - 1 <= i < polls.drop_first().len() implies stop_poll_stops(
            #[trigger] polls.drop_first()[i],
        ) by {
            assert(polls.drop_first()[i] == polls[i + 1]);
        }
        lemma_worker_liveness(polls.drop_first(), k - 1);
    }
}

} // verus!
