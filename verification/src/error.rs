//! The error kinds of the arbiter.

use vstd::prelude::*;

verus! {

/// Why the arbiter rejected an operation.
///
/// A rejected operation changes nothing. `MaxGuessesReached` and
/// `GameAlreadyEnded` are reserved: exhausting the guesses ends the game in
/// the code-maker's favour instead of failing, and an operation on an ended
/// game is answered with `InvalidPhase`.
#[derive(Copy, Clone, Debug, PartialEq, Eq, PartialOrd, Ord, Structural)]
pub enum Error {
    /// No live session is stored under the session id.
    GameNotFound,
    /// The caller is not the session's code-maker.
    NotCodeMaker,
    /// The caller is not the session's code-breaker.
    NotCodeBreaker,
    /// The session is not in the phase that the operation needs.
    InvalidPhase,
    /// The guess has not exactly four pegs, or a peg is not one of the six colours.
    InvalidGuessValue,
    /// Reserved.
    MaxGuessesReached,
    /// A feedback count is above four, or the two counts add up to more than four.
    InvalidFeedback,
    /// Reserved.
    GameAlreadyEnded,
}

impl Error {
    /// The number under which the error is reported to callers of the arbiter.
    pub open spec fn spec_code(self) -> u32 {
        match self {
            Error::GameNotFound => 1,
            Error::NotCodeMaker => 2,
            Error::NotCodeBreaker => 3,
            Error::InvalidPhase => 4,
            Error::InvalidGuessValue => 5,
            Error::MaxGuessesReached => 6,
            Error::InvalidFeedback => 7,
            Error::GameAlreadyEnded => 8,
        }
    }

    /// The number under which the error is reported to callers of the arbiter.
    #[verifier::when_used_as_spec(spec_code)]
    pub fn code(self) -> (c: u32)
        ensures
            c == self.spec_code(),
    {
        match self {
            Error::GameNotFound => 1,
            Error::NotCodeMaker => 2,
            Error::NotCodeBreaker => 3,
            Error::InvalidPhase => 4,
            Error::InvalidGuessValue => 5,
            Error::MaxGuessesReached => 6,
            Error::InvalidFeedback => 7,
            Error::GameAlreadyEnded => 8,
        }
    }
}

} // verus!
