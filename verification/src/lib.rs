//! A verified arbiter for a two-party code-breaking game.
//!
//! One party, the code-maker, commits to a secret code of four pegs in six
//! colours by publishing a digest. The other, the code-breaker, submits
//! guesses. The code-maker scores each guess and accompanies the score with
//! the digest of a proof that it is correct. The arbiter records the moves,
//! enforces their order, and decides the winner: the code-breaker on a perfect
//! match, the code-maker after twelve scored guesses without one.
//!
//! The arbiter never sees the secret or the proofs. Commitments and proof
//! digests are opaque to it: it stores them and hands them out again.
//!
//! - [`game`] holds the record of a session and its state machine.
//! - [`env`] holds the environment: the ledger's clock, the store with its
//!   expiring sessions, and the authorizations of the call at hand.
//! - [`contract`] holds the arbiter's operations on a session in the store.
//! - [`access`] holds the door that tests a call's authorization.
//! - [`laws`] holds what is proved of all of them together.

pub mod access;
pub mod address;
pub mod contract;
pub mod env;
pub mod error;
pub mod game;
pub mod laws;

pub use crate::access::{Invocation, Outcome};
pub use crate::address::Address;
pub use crate::contract::{EndGame, ZKMindContract};
pub use crate::env::{DataKey, Env, GAME_TTL_LEDGERS};
pub use crate::error::Error;
pub use crate::game::{Feedback, GamePhase, GameState, MAX_GUESSES};
