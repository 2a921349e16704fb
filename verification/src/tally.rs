//! Running counters summarizing harness throughput and failure rate, with
//! the accounting laws that hold of any run.

use vstd::prelude::*;
use vstd::string::*;

use crate::step::StepKind;
use crate::step::step_presence_ok;
use crate::text::dec_spec;
use crate::text::u64_to_string;

verus! {

/// Running counters of one orchestrator run.  Each counter only ever grows.
pub struct FuzzTally {
    pub started: usize,
    pub finished: usize,
    pub commands: usize,
    pub invalid_input: usize,
}

/// The model of a tally: the same counters, unbounded.
#[verifier::ext_equal]
pub struct TallyModel {
    pub started: nat,
    pub finished: nat,
    pub commands: nat,
    pub invalid_input: nat,
}

impl View for FuzzTally {
    type V = TallyModel;

    open spec fn view(&self) -> TallyModel {
        TallyModel {
            started: self.started as nat,
            finished: self.finished as nat,
            commands: self.commands as nat,
            invalid_input: self.invalid_input as nat,
        }
    }
}

impl Default for FuzzTally {
    /// A tally with every counter at zero.
    fn default() -> (r: FuzzTally)
        ensures
            r.started == 0 && r.finished == 0 && r.commands == 0 && r.invalid_input == 0,
    {
        FuzzTally { started: 0, finished: 0, commands: 0, invalid_input: 0 }
    }
}

/// The counters after counting one more step of kind `k`: a created game,
/// a finished game, a successful command, or a command the backend refused;
/// a fatal step is not tallied.
pub open spec fn count_step(t: TallyModel, k: StepKind) -> TallyModel {
    match k {
        StepKind::Created => TallyModel { started: t.started + 1, ..t },
        StepKind::Finished => TallyModel { finished: t.finished + 1, ..t },
        StepKind::CommandOk => TallyModel { commands: t.commands + 1, ..t },
        StepKind::UserError => TallyModel {
            commands: t.commands + 1,
            invalid_input: t.invalid_input + 1,
            ..t
        },
        StepKind::Error => t,
    }
}

/// The tally after counting a whole run of steps, starting from zero.
pub open spec fn tally_of(kinds: Seq<StepKind>) -> TallyModel
    decreases kinds.len(),
{
    if kinds.len() == 0 {
        TallyModel { started: 0, finished: 0, commands: 0, invalid_input: 0 }
    } else {
        count_step(tally_of(kinds.drop_last()), kinds.last())
    }
}

/// How many steps of a run have the kind `k`.
pub open spec fn count_kind(kinds: Seq<StepKind>, k: StepKind) -> nat
    decreases kinds.len(),
{
    if kinds.len() == 0 {
        0
    } else {
        count_kind(kinds.drop_last(), k) + if kinds.last() == k {
            1nat
        } else {
            0nat
        }
    }
}

/// Law: tally accounting.  Over any run, the `commands` counter equals
/// `invalid_input` plus the number of successful commands, and each counter
/// equals the number of steps of its kind.
pub proof fn lemma_tally_accounting(kinds: Seq<StepKind>)
    ensures
        tally_of(kinds).commands == tally_of(kinds).invalid_input + count_kind(
            kinds,
            StepKind::CommandOk,
        ),
        tally_of(kinds).started == count_kind(kinds, StepKind::Created),
        tally_of(kinds).finished == count_kind(kinds, StepKind::Finished),
        tally_of(kinds).invalid_input == count_kind(kinds, StepKind::UserError),
        tally_of(kinds).commands == count_kind(kinds, StepKind::CommandOk) + count_kind(
            kinds,
            StepKind::UserError,
        ),
    decreases kinds.len(),
{
    if kinds.len() > 0 {
        lemma_tally_accounting(kinds.drop_last());
    }
}

/// A presence trace: starting with no live session, each step of the run
/// relates the session's presence before and after its iteration as
/// [`step_presence_ok`] demands.
pub open spec fn valid_presence_trace(kinds: Seq<StepKind>, pres: Seq<bool>) -> bool {
    &&& pres.len() == kinds.len() + 1
    &&& pres[0] == false
    &&& forall|i: int|
        0 <= i < kinds.len() ==> step_presence_ok(#[trigger] kinds[i], pres[i], pres[i + 1])
}

/// Law: session accounting.  Over any run, the number of games started
/// equals the number finished, plus one if a game is currently live.
pub proof fn lemma_started_finished(kinds: Seq<StepKind>, pres: Seq<bool>)
    requires
        valid_presence_trace(kinds, pres),
    ensures
        count_kind(kinds, StepKind::Created) == count_kind(kinds, StepKind::Finished) + if pres[
            kinds.len() as int
        ] {
            1nat
        } else {
            0nat
        },
    decreases kinds.len(),
{
    if kinds.len() > 0 {
        assert(valid_presence_trace(kinds.drop_last(), pres.drop_last()));
        lemma_started_finished(kinds.drop_last(), pres.drop_last());
        assert(step_presence_ok(
            kinds[kinds.len() - 1],
            pres[kinds.len() - 1],
            pres[kinds.len() as int],
        ));
    }
}

/// Law: a session does not outlive its game.  In any run, immediately
/// after a `Finished` step no session is live — so the iteration that
/// follows a finished game must attempt a new one — and a `Created` step
/// only ever happens while no session is live.
pub proof fn lemma_finished_clears_session(kinds: Seq<StepKind>, pres: Seq<bool>, i: int)
    requires
        valid_presence_trace(kinds, pres),
        0 <= i < kinds.len(),
    ensures
        kinds[i] == StepKind::Finished ==> pres[i + 1] == false,
        kinds[i] == StepKind::Created ==> pres[i] == false,
{
}

/// The rendered status line of a tally.
pub open spec fn render_spec(t: FuzzTally) -> Seq<char> {
    "Games started: "@ + dec_spec(t.started as nat) + "   Games finished: "@ + dec_spec(
        t.finished as nat,
    ) + "   Commands: "@ + dec_spec(t.commands as nat) + "   Commands failed: "@ + dec_spec(
        t.invalid_input as nat,
    )
}

impl FuzzTally {
    /// The status line printed periodically by the consuming loop.
    pub fn render(&self) -> (r: String)
        ensures
            r@ == render_spec(*self),
    {
        let mut r = String::from_str("Games started: ");
        let started = u64_to_string(self.started as u64);
        r.append(started.as_str());
        r.append("   Games finished: ");
        let finished = u64_to_string(self.finished as u64);
        r.append(finished.as_str());
        r.append("   Commands: ");
        let commands = u64_to_string(self.commands as u64);
        r.append(commands.as_str());
        r.append("   Commands failed: ");
        let invalid = u64_to_string(self.invalid_input as u64);
        r.append(invalid.as_str());
        proof {
            assert(r@ =~= render_spec(*self));
        }
        r
    }
}

} // verus!
