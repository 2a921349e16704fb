//! A stress-testing harness core for turn-based game backends.
//!
//! The library holds the verified logic of the harness: the per-lane game
//! session state machine, the classification of each play into a discrete
//! step, the tally kept by the consuming loop, and the stop-signal policy of
//! a worker lane.  Backend I/O and thread plumbing live with the caller,
//! which performs each requested exchange and hands the typed outcome back.

pub mod fuzzer;
pub mod orchestrator;
pub mod protocol;
pub mod session;
pub mod step;
pub mod tally;
pub mod text;
pub mod worker;
