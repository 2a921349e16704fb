//! The per-lane fuzzing state machine.
//!
//! A fuzzer owns at most one live [`Session`] and drives the
//! create-game/play-command cycle: each iteration it either hands its caller
//! one backend exchange to perform ([`Fuzzer::next_request`]) and classifies
//! the typed reply ([`Fuzzer::next_response`]), or fails the iteration on
//! its own when the protocol state is inconsistent.  Exactly one
//! [`FuzzStep`] comes out of each request/response round.
//!
//! The random choices — which player count to use for a new game and which
//! active player to play for — are drawn from a thread-local generator held
//! by the fuzzer, so the contracts state what holds of every possible
//! choice.

use vstd::prelude::*;
use vstd::pervasive::cloned;
use vstd::string::*;

use crate::protocol::BackendRequest;
use crate::protocol::BackendResponse;
use crate::protocol::PlayOutcome;
use crate::session::Session;
use crate::session::SessionView;
use crate::session::Status;
use crate::session::StatusView;
use crate::session::copy_strings;
use crate::session::names;
use crate::session::player_name;
use crate::step::FuzzStep;
use crate::step::StepKind;
use crate::step::step_presence_ok;
use crate::text::blank_spec;
use crate::text::dec_spec;
use crate::text::is_blank;
use crate::text::u64_to_string;

verus! {

/// Relies on rand::rngs::ThreadRng: the thread-local generator's handle,
/// declared opaquely so a fuzzer can hold one.
#[verifier::external_type_specification]
#[verifier::external_body]
pub struct ExThreadRng(rand::rngs::ThreadRng);

/// Relies on rand::thread_rng: a handle to the thread-local generator.
#[verifier::external_body]
fn new_thread_rng() -> rand::rngs::ThreadRng {
    rand::thread_rng()
}

/// Relies on rand::seq::SliceRandom::choose: a uniformly random element of
/// the slice, or `None` exactly when the slice is empty.
#[verifier::external_body]
fn choose_usize(rng: &mut rand::rngs::ThreadRng, v: &Vec<usize>) -> (r: Option<usize>)
    ensures
        r is None <==> v@.len() == 0,
        r matches Some(x) ==> v@.contains(x),
{
    rand::seq::SliceRandom::choose(v.as_slice(), rng).copied()
}

/// The model of an optional session.
pub open spec fn game_view<S>(g: Option<Session<S>>) -> Option<SessionView> {
    match g {
        None => None,
        Some(s) => Some(s@),
    }
}

/// The active players of a session's model, empty when the game is over.
pub open spec fn active_turn(v: SessionView) -> Seq<usize> {
    match v.status {
        StatusView::Active { whose_turn } => whose_turn,
        StatusView::Finished => Seq::empty(),
    }
}

/// The step is fatal, carries no command, and carries a session snapshot
/// with the given model.
pub open spec fn error_step_snap<S>(step: FuzzStep<S>, snap: Option<SessionView>) -> bool {
    match step {
        FuzzStep::Error { game, command, error } => {
            &&& command is None
            &&& game_view(game) == snap
        },
        _ => false,
    }
}

/// The step is fatal with exactly the message `msg`, beside a session
/// snapshot with the given model.
pub open spec fn error_step_with<S>(
    step: FuzzStep<S>,
    snap: Option<SessionView>,
    msg: Seq<char>,
) -> bool {
    match step {
        FuzzStep::Error { game, command, error } => {
            &&& command is None
            &&& game_view(game) == snap
            &&& error@ == msg
        },
        _ => false,
    }
}

/// The request plays, for one player whose turn it is in session model `v`,
/// that player's own grammar, against the session's state blob, with the
/// given player names.
pub open spec fn play_request_for<S: Clone>(
    req: BackendRequest<S>,
    s: Session<S>,
    names0: Seq<Seq<char>>,
) -> bool {
    match req {
        BackendRequest::Play { game, player, names, command_spec } => {
            &&& active_turn(s@).contains(player)
            &&& game@ == s@.state
            &&& names.deep_view() == names0
            &&& player < s.player_renders@.len()
            &&& match s.player_renders@[player as int].command_spec {
                Some(cs) => cloned::<S>(cs, command_spec),
                None => false,
            }
        },
        _ => false,
    }
}

/// The kind of step one play reply leads to, whatever the message texts:
/// trailing unparsed input and explicit refusals are user errors, a clean
/// reply advances — or finishes — the game, and everything else is fatal.
pub open spec fn play_step_kind<S>(response: Result<BackendResponse<S>, String>) -> StepKind {
    match response {
        Ok(BackendResponse::Play { session, remaining_input }) => if !blank_spec(
            remaining_input@,
        ) {
            StepKind::UserError
        } else if session@.status is Finished {
            StepKind::Finished
        } else {
            StepKind::CommandOk
        },
        Ok(BackendResponse::UserError { .. }) => StepKind::UserError,
        Ok(_) => StepKind::Error,
        Err(_) => StepKind::Error,
    }
}

/// Law: classification is stable.  A reply whose parse left trailing input
/// is always emitted as a user error, never as a fatal step, whatever the
/// fuzzer's state and however often it is classified.
pub proof fn lemma_incomplete_is_user_error<S>(response: Result<BackendResponse<S>, String>)
    requires
        response matches Ok(BackendResponse::Play { session, remaining_input }) && !blank_spec(
            remaining_input@,
        ),
    ensures
        play_step_kind(response) == StepKind::UserError,
        play_step_kind(response) != StepKind::Error,
{
}

/// Classify the backend's reply to one play exchange: trailing unparsed
/// input is an incomplete parse, a clean reply applies the new session, an
/// explicit refusal is a rejection, and anything else — a transport failure
/// or a reply of the wrong shape — fails the iteration.
pub fn classify_play<S>(response: Result<BackendResponse<S>, String>) -> (r: Result<
    PlayOutcome<S>,
    String,
>)
    ensures
        response matches Ok(BackendResponse::Play { session, remaining_input }) ==> (if blank_spec(
            remaining_input@,
        ) {
            r == Ok::<PlayOutcome<S>, String>(PlayOutcome::Applied { session })
        } else {
            r == Ok::<PlayOutcome<S>, String>(PlayOutcome::Incomplete)
        }),
        response matches Ok(BackendResponse::UserError { message }) ==> r == Ok::<
            PlayOutcome<S>,
            String,
        >(PlayOutcome::Rejected { message }),
        response matches Ok(BackendResponse::PlayerCounts { .. }) ==> ({
            &&& r matches Err(m)
            &&& m@ == "invalid response for play command"@
        }),
        response matches Ok(BackendResponse::New { .. }) ==> ({
            &&& r matches Err(m)
            &&& m@ == "invalid response for play command"@
        }),
        response matches Ok(BackendResponse::Unexpected { detail }) ==> r == Err::<
            PlayOutcome<S>,
            String,
        >(detail),
        response matches Err(e) ==> r == Err::<PlayOutcome<S>, String>(e),
{
    match response {
        Ok(BackendResponse::Play { session, remaining_input }) => {
            if !is_blank(remaining_input.as_str()) {
                Ok(PlayOutcome::Incomplete)
            } else {
                Ok(PlayOutcome::Applied { session })
            }
        },
        Ok(BackendResponse::UserError { message }) => Ok(PlayOutcome::Rejected { message }),
        Ok(BackendResponse::Unexpected { detail }) => Err(detail),
        Ok(_) => Err(String::from_str("invalid response for play command")),
        Err(e) => Err(e),
    }
}

/// One independent fuzzing lane: the allowed player counts, the synthetic
/// player names of the current game, at most one live session, and the
/// lane's own random generator.
pub struct Fuzzer<S> {
    pub player_counts: Vec<usize>,
    pub names: Vec<String>,
    pub game: Option<Session<S>>,
    pub rng: rand::rngs::ThreadRng,
}

/// What one iteration needs next: either a backend exchange to perform, or
/// a step that is already decided without one.
pub enum NextAction<S> {
    Request(BackendRequest<S>),
    Step(FuzzStep<S>),
}

impl<S: Clone> Fuzzer<S> {
    /// Build a fuzzer from the backend's reply to the player-counts
    /// request.  Any reply besides a list of player counts — including a
    /// transport failure — is a construction error.
    pub fn new(response: Result<BackendResponse<S>, String>) -> (r: Result<Fuzzer<S>, String>)
        ensures
            response matches Ok(BackendResponse::PlayerCounts { player_counts }) ==> ({
                &&& r matches Ok(f)
                &&& f.player_counts == player_counts
                &&& f.game is None
                &&& f.names@.len() == 0
            }),
            !(response matches Ok(BackendResponse::PlayerCounts { .. })) ==> r is Err,
            response matches Err(e) ==> ({
                &&& r matches Err(m)
                &&& m == e
            }),
            response matches Ok(resp) && !(resp matches BackendResponse::PlayerCounts {
                ..
            }) ==> ({
                &&& r matches Err(m)
                &&& m@ == "invalid response to player counts request"@
            }),
    {
        match response {
            Ok(BackendResponse::PlayerCounts { player_counts }) => Ok(
                Fuzzer { player_counts, names: Vec::new(), game: None, rng: new_thread_rng() },
            ),
            Ok(_) => Err(String::from_str("invalid response to player counts request")),
            Err(e) => Err(e),
        }
    }

    /// Decide the next exchange when no game is live: choose a player count
    /// at random, fix the synthetic player names, and ask for a new game.
    /// With an empty allowed set the iteration fails instead.
    pub fn new_game_request(&mut self) -> (r: Result<BackendRequest<S>, String>)
        requires
            old(self).game is None,
        ensures
            final(self).player_counts == old(self).player_counts,
            final(self).game == old(self).game,
            old(self).player_counts@.len() == 0 ==> ({
                &&& r matches Err(m)
                &&& m@ == "could not get player counts"@
                &&& final(self).names == old(self).names
            }),
            old(self).player_counts@.len() > 0 ==> ({
                &&& r matches Ok(req)
                &&& req matches BackendRequest::New { players }
                &&& old(self).player_counts@.contains(players)
                &&& final(self).names@.len() == players
                &&& forall|i: int|
                    0 <= i < players ==> final(self).names.deep_view()[i] == player_name(i as nat)
            }),
    {
        match choose_usize(&mut self.rng, &self.player_counts) {
            None => Err(String::from_str("could not get player counts")),
            Some(players) => {
                self.names = names(players);
                Ok(BackendRequest::New { players })
            },
        }
    }

    /// Decide the next exchange when a game is live: pick one active player
    /// at random, require that player's command grammar, and hand back a
    /// play directive carrying the grammar for the caller's synthesizer.
    /// A finished or missing session, an empty active set, and a missing
    /// grammar each fail the iteration instead: those are protocol errors,
    /// not user errors.
    pub fn command_request(&mut self) -> (r: Result<BackendRequest<S>, String>)
        ensures
            final(self).player_counts == old(self).player_counts,
            final(self).names == old(self).names,
            final(self).game == old(self).game,
            old(self).game is None ==> ({
                &&& r matches Err(m)
                &&& m@ == "there isn't a game"@
            }),
            old(self).game matches Some(s) && s@.status is Finished ==> ({
                &&& r matches Err(m)
                &&& m@ == "the game is already finished"@
            }),
            old(self).game matches Some(s) && s@.status is Active && active_turn(s@).len()
                == 0 ==> ({
                &&& r matches Err(m)
                &&& m@ == "unable to pick active turn player"@
            }),
            old(self).game matches Some(s) && s@.status is Active && active_turn(s@).len() > 0
                && s@.playable() ==> r is Ok,
            r matches Ok(req) ==> ({
                &&& old(self).game matches Some(s)
                &&& play_request_for(req, s, old(self).names.deep_view())
            }),
            old(self).game matches Some(s) ==> (s@.status is Active && active_turn(s@).len() > 0
                ==> (r matches Err(m) ==> (exists|p: usize|
                #[trigger] active_turn(s@).contains(p) && (p >= s@.specs_present.len() && m@
                    == "there is no player_render for player "@ + dec_spec(p as nat) || p < s@
                    .specs_present.len() && !s@.specs_present[p as int] && m@ == "player "@
                    + dec_spec(p as nat) + "'s command_spec is None"@)))),
    {
        match &self.game {
            None => Err(String::from_str("there isn't a game")),
            Some(session) => match &session.status {
                Status::Finished => Err(String::from_str("the game is already finished")),
                Status::Active { whose_turn } => match choose_usize(&mut self.rng, whose_turn) {
                    None => Err(String::from_str("unable to pick active turn player")),
                    Some(player) => {
                        if player >= session.player_renders.len() {
                            let mut m = String::from_str("there is no player_render for player ");
                            let num = u64_to_string(player as u64);
                            m.append(num.as_str());
                            Err(m)
                        } else {
                            match &session.player_renders[player].command_spec {
                                None => {
                                    let mut m = String::from_str("player ");
                                    let num = u64_to_string(player as u64);
                                    m.append(num.as_str());
                                    m.append("'s command_spec is None");
                                    Err(m)
                                },
                                Some(cs) => Ok(
                                    BackendRequest::Play {
                                        game: session.state.clone(),
                                        player,
                                        names: copy_strings(&self.names),
                                        command_spec: cs.clone(),
                                    },
                                ),
                            }
                        }
                    },
                },
            },
        }
    }

    /// One iteration's first half: decide what happens next.  With no live
    /// session the fuzzer tries to create a game; with a live one it tries
    /// to play a command; a failure to decide is itself the iteration's
    /// step, a fatal one carrying the current session snapshot.
    pub fn next_request(&mut self) -> (r: NextAction<S>)
        ensures
            final(self).player_counts == old(self).player_counts,
            final(self).game == old(self).game,
            old(self).game is None ==> ({
                &&& (old(self).player_counts@.len() == 0 ==> ({
                    &&& r matches NextAction::Step(st)
                    &&& error_step_with(st, None, "could not get player counts"@)
                }))
                &&& (old(self).player_counts@.len() > 0 ==> ({
                    &&& r matches NextAction::Request(req)
                    &&& req matches BackendRequest::New { players }
                    &&& old(self).player_counts@.contains(players)
                    &&& final(self).names@.len() == players
                    &&& forall|i: int|
                        0 <= i < players ==> final(self).names.deep_view()[i] == player_name(
                            i as nat,
                        )
                }))
            }),
            old(self).game matches Some(g0) ==> ({
                &&& final(self).names == old(self).names
                &&& (g0@.status is Finished ==> ({
                    &&& r matches NextAction::Step(st)
                    &&& error_step_with(st, Some(g0@), "the game is already finished"@)
                }))
                &&& (g0@.status is Active && active_turn(g0@).len() > 0 && g0@.playable() ==> r
                    is Request)
                &&& (r matches NextAction::Request(req) ==> play_request_for(
                    req,
                    g0,
                    old(self).names.deep_view(),
                ))
                &&& (r matches NextAction::Step(st) ==> error_step_snap(st, Some(g0@)))
            }),
    {
        if self.game.is_none() {
            match self.new_game_request() {
                Ok(req) => NextAction::Request(req),
                Err(m) => NextAction::Step(FuzzStep::Error { game: None, command: None, error: m }),
            }
        } else {
            match self.command_request() {
                Ok(req) => NextAction::Request(req),
                Err(m) => {
                    let snap = match &self.game {
                        Some(g) => Some(g.snapshot()),
                        None => None,
                    };
                    NextAction::Step(FuzzStep::Error { game: snap, command: None, error: m })
                },
            }
        }
    }

    /// One iteration's second half: classify the backend's reply into the
    /// iteration's step and update the session.  With no live session the
    /// reply answers a new-game request: the session is stored and the step
    /// is `Created`, or the iteration fails.  With a live session the reply
    /// answers a play: trailing input and explicit refusals are user errors
    /// that leave the session unchanged, a clean reply replaces the session
    /// — and clears it when the new status is finished — and anything else
    /// is fatal, leaving the session in place for diagnosis.
    pub fn next_response(&mut self, response: Result<BackendResponse<S>, String>) -> (step:
        FuzzStep<S>)
        ensures
            final(self).player_counts == old(self).player_counts,
            final(self).names == old(self).names,
            step_presence_ok(step.kind(), old(self).game is Some, final(self).game is Some),
            old(self).game is Some ==> step.kind() == play_step_kind(response),
            response matches Ok(BackendResponse::New { session }) ==> (old(self).game is None
                ==> ({
                &&& step is Created
                &&& final(self).game == Some(session)
            })),
            old(self).game is None && !(response matches Ok(BackendResponse::New { .. })) ==> ({
                &&& final(self).game is None
                &&& (response matches Err(e) ==> error_step_with(step, None, e@))
                &&& (response is Ok ==> error_step_with(
                    step,
                    None,
                    "invalid response for new game"@,
                ))
            }),
            old(self).game matches Some(g0) ==> ({
                &&& (response matches Ok(BackendResponse::Play { session, remaining_input })
                    ==> ({
                    &&& (!blank_spec(remaining_input@) ==> step is UserError && final(self).game
                        == old(self).game)
                    &&& (blank_spec(remaining_input@) && session@.status is Finished ==> step
                        is Finished && final(self).game is None)
                    &&& (blank_spec(remaining_input@) && session@.status is Active ==> step
                        is CommandOk && final(self).game == Some(session))
                }))
                &&& (response matches Ok(BackendResponse::UserError { .. }) ==> step is UserError
                    && final(self).game == old(self).game)
                &&& (response matches Err(e) ==> final(self).game == old(self).game
                    && error_step_with(step, Some(g0@), e@))
                &&& (response matches Ok(BackendResponse::Unexpected { detail }) ==> final(self).game == old(self).game && error_step_with(step, Some(g0@), detail@))
                &&& (response matches Ok(BackendResponse::PlayerCounts { .. }) ==> final(self).game == old(self).game && error_step_with(
                    step,
                    Some(g0@),
                    "invalid response for play command"@,
                ))
                &&& (response matches Ok(BackendResponse::New { .. }) ==> final(self).game == old(self).game && error_step_with(step, Some(g0@), "invalid response for play command"@))
            }),
    {
        if self.game.is_none() {
            match response {
                Ok(BackendResponse::New { session }) => {
                    self.game = Some(session);
                    FuzzStep::Created
                },
                Ok(_) => FuzzStep::Error {
                    game: None,
                    command: None,
                    error: String::from_str("invalid response for new game"),
                },
                Err(e) => FuzzStep::Error { game: None, command: None, error: e },
            }
        } else {
            match classify_play(response) {
                Ok(PlayOutcome::Incomplete) => FuzzStep::UserError,
                Ok(PlayOutcome::Rejected { message: _ }) => FuzzStep::UserError,
                Ok(PlayOutcome::Applied { session }) => {
                    let finished = match &session.status {
                        Status::Finished => true,
                        Status::Active { .. } => false,
                    };
                    if finished {
                        self.game = None;
                        FuzzStep::Finished
                    } else {
                        self.game = Some(session);
                        FuzzStep::CommandOk
                    }
                },
                Err(m) => {
                    let snap = match &self.game {
                        Some(g) => Some(g.snapshot()),
                        None => None,
                    };
                    FuzzStep::Error { game: snap, command: None, error: m }
                },
            }
        }
    }
}

} // verus!
