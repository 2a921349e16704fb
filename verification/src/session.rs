//! The live state of one fuzzed game instance: an opaque serialized game
//! blob, the game's status, and per-player command-availability metadata.
//!
//! The command grammar of a player is opaque to the harness: it is carried
//! through unmodified between the backend and the command synthesizer, so it
//! is a type parameter `S` here, and the model of a session only records for
//! each player whether a grammar is present.

use vstd::prelude::*;
use vstd::string::*;

use crate::text::dec_spec;
use crate::text::u64_to_string;

verus! {

/// Per-player render metadata.  `None` means the player currently has no
/// legal input grammar, and selecting them for a command is an error.
pub struct PlayerRender<S> {
    pub command_spec: Option<S>,
}

/// Whether a game is still running, and whose input it awaits.
pub enum Status {
    Active { whose_turn: Vec<usize> },
    Finished,
}

/// The model of a [`Status`]: the indices of the players whose turn it is,
/// or the fact that the game is over.
#[verifier::ext_equal]
pub enum StatusView {
    Active { whose_turn: Seq<usize> },
    Finished,
}

impl View for Status {
    type V = StatusView;

    open spec fn view(&self) -> StatusView {
        match self {
            Status::Active { whose_turn } => StatusView::Active { whose_turn: whose_turn@ },
            Status::Finished => StatusView::Finished,
        }
    }
}

/// One live game: the opaque serialized game state, the status, and one
/// render per player.
pub struct Session<S> {
    pub state: String,
    pub status: Status,
    pub player_renders: Vec<PlayerRender<S>>,
}

/// The model of a [`Session`]: the characters of the state blob, the status,
/// and for each player whether a command grammar is present.
#[verifier::ext_equal]
pub struct SessionView {
    pub state: Seq<char>,
    pub status: StatusView,
    pub specs_present: Seq<bool>,
}

impl<S> View for Session<S> {
    type V = SessionView;

    open spec fn view(&self) -> SessionView {
        SessionView {
            state: self.state@,
            status: self.status@,
            specs_present: self.player_renders@.map(
                |i: int, r: PlayerRender<S>| r.command_spec is Some,
            ),
        }
    }
}

impl SessionView {
    /// Every player whose turn it is exists in the render list and has a
    /// command grammar to draw from, so any choice of an active player can
    /// be played.
    pub open spec fn playable(self) -> bool {
        self.status matches StatusView::Active { whose_turn } ==> forall|i: int|
            0 <= i < whose_turn.len() ==> (#[trigger] whose_turn[i]) < self.specs_present.len()
                && self.specs_present[whose_turn[i] as int]
    }
}

fn copy_usizes(v: &Vec<usize>) -> (r: Vec<usize>)
    ensures
        r@ == v@,
{
    let mut r: Vec<usize> = Vec::new();
    let mut i: usize = 0;
    while i < v.len()
        invariant
            i <= v.len(),
            r@ == v@.subrange(0, i as int),
        decreases v.len() - i,
    {
        r.push(v[i]);
        proof {
            assert(r@ =~= v@.subrange(0, i + 1 as int));
        }
        i += 1;
    }
    proof {
        assert(r@ =~= v@);
    }
    r
}

/// A copy of a list of names with the same characters in each entry.
pub(crate) fn copy_strings(v: &Vec<String>) -> (r: Vec<String>)
    ensures
        r.deep_view() == v.deep_view(),
{
    let mut r: Vec<String> = Vec::new();
    let mut i: usize = 0;
    while i < v.len()
        invariant
            i <= v.len(),
            r@.len() == i,
            forall|j: int| 0 <= j < i ==> r.deep_view()[j] == v.deep_view()[j],
        decreases v.len() - i,
    {
        r.push(v[i].clone());
        i += 1;
    }
    proof {
        assert(r.deep_view() =~~= v.deep_view());
    }
    r
}

impl Status {
    /// A duplicate with the same model.
    pub fn snapshot(&self) -> (r: Status)
        ensures
            r@ == self@,
    {
        match self {
            Status::Active { whose_turn } => Status::Active { whose_turn: copy_usizes(whose_turn) },
            Status::Finished => Status::Finished,
        }
    }
}

impl<S: Clone> Session<S> {
    /// A duplicate with the same model; the opaque grammars are cloned.
    pub fn snapshot(&self) -> (r: Session<S>)
        ensures
            r@ == self@,
    {
        let mut renders: Vec<PlayerRender<S>> = Vec::new();
        let mut i: usize = 0;
        while i < self.player_renders.len()
            invariant
                i <= self.player_renders.len(),
                renders@.len() == i,
                forall|j: int|
                    0 <= j < i ==> (#[trigger] renders@[j].command_spec) is Some
                        == self.player_renders@[j].command_spec is Some,
            decreases self.player_renders.len() - i,
        {
            let spec_copy: Option<S> = match &self.player_renders[i].command_spec {
                Some(s) => Some(s.clone()),
                None => None,
            };
            renders.push(PlayerRender { command_spec: spec_copy });
            i += 1;
        }
        let r = Session {
            state: self.state.clone(),
            status: self.status.snapshot(),
            player_renders: renders,
        };
        proof {
            assert(r@.specs_present =~= self@.specs_present);
            assert(r@ =~= self@);
        }
        r
    }
}

/// The name of player `p`: `player` followed by the decimal numeral of `p`.
pub open spec fn player_name(p: nat) -> Seq<char> {
    "player"@ + dec_spec(p)
}

/// The synthetic player names `player0` through `playerN-1` for a game of
/// `players` players.
pub fn names(players: usize) -> (r: Vec<String>)
    ensures
        r@.len() == players,
        forall|i: int| 0 <= i < players ==> r.deep_view()[i] == player_name(i as nat),
{
    let mut r: Vec<String> = Vec::new();
    let mut p: usize = 0;
    while p < players
        invariant
            p <= players,
            r@.len() == p,
            forall|i: int| 0 <= i < p ==> r.deep_view()[i] == player_name(i as nat),
        decreases players - p,
    {
        let mut name = String::from_str("player");
        let numeral = u64_to_string(p as u64);
        name.append(numeral.as_str());
        let ghost prev_dv = r.deep_view();
        let ghost name_view = name@;
        proof {
            assert(name_view == player_name(p as nat));
        }
        r.push(name);
        proof {
            assert forall|i: int| 0 <= i < p + 1 implies r.deep_view()[i] == player_name(
                i as nat,
            ) by {
                if i < p {
                    assert(r.deep_view()[i] == prev_dv[i]);
                } else {
                    assert(r.deep_view()[i] == name_view);
                }
            }
        }
        p += 1;
    }
    r
}

} // verus!
