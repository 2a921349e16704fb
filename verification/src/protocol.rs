//! The typed boundary between the fuzzer and the backend it exercises.
//!
//! The fuzzer never talks to a backend itself: it decides which exchange
//! comes next and hands a [`BackendRequest`] to its caller, which performs
//! the exchange — including synthesizing the command text from the grammar
//! carried in a play directive — and feeds the typed reply back.

use vstd::prelude::*;

use crate::session::Session;

verus! {

/// One exchange the fuzzer asks its caller to perform against the backend.
pub enum BackendRequest<S> {
    /// Ask for the set of allowed player counts for new games.
    PlayerCounts,
    /// Create a new game for `players` players.
    New { players: usize },
    /// Synthesize one random command from `command_spec` — the grammar of
    /// the selected player — and play it for that player against the given
    /// serialized game state.
    Play { game: String, player: usize, names: Vec<String>, command_spec: S },
}

/// One typed backend reply, as the caller decoded it.
pub enum BackendResponse<S> {
    /// The allowed player counts for new games.
    PlayerCounts { player_counts: Vec<usize> },
    /// The session of a freshly created game.
    New { session: Session<S> },
    /// The session after a play, plus whatever trailing input the backend
    /// did not parse.
    Play { session: Session<S>, remaining_input: String },
    /// The backend explicitly reports the command as invalid input.
    UserError { message: String },
    /// Any other reply, rendered by the caller; always a protocol error.
    Unexpected { detail: String },
}

/// The classification of one play exchange.
pub enum PlayOutcome<S> {
    /// The command parsed but left trailing input; treated as a user error.
    Incomplete,
    /// The command was fully consumed and the session advances.
    Applied { session: Session<S> },
    /// The backend explicitly rejected the command as invalid input.
    Rejected { message: String },
}

} // verus!
