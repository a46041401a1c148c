//! Who may call what.
//!
//! Every call that changes what the arbiter stores names a party as its
//! actor, and is void unless that party has authorized it: the two players
//! for a new game, the code-maker for the commitment and for a score, the
//! code-breaker for a guess, the administrator for the configuration. The
//! arbiter's operations take this as a precondition. `invoke` is the door for
//! callers that cannot promise it: it tests the authorization first, and
//! turns the call away before anything is read or written.

use vstd::prelude::*;

use crate::address::Address;
use crate::contract::ZKMindContract;
use crate::env::{Env, EnvView};
use crate::error::Error;
use crate::game::Feedback;

verus! {

/// A call that changes what the arbiter stores, with its arguments.
#[derive(Debug, PartialEq, Eq)]
pub enum Invocation {
    NewGame { session_id: u32, codemaker: Address, codebreaker: Address },
    CommitCode { session_id: u32, codemaker: Address, commitment: [u8; 32] },
    SubmitGuess { session_id: u32, codebreaker: Address, guess: Vec<u32> },
    SubmitFeedback {
        session_id: u32,
        codemaker: Address,
        correct_position: u32,
        correct_color: u32,
        proof_hash: [u8; 32],
    },
    SetAdmin { new_admin: Address },
    SetVerifier { new_verifier: Address },
    SetHub { new_hub: Address },
    Upgrade { new_wasm_hash: [u8; 32] },
}

/// What became of a call.
#[derive(Copy, Clone, Debug, PartialEq, Eq)]
pub enum Outcome {
    /// The call lacked an authorization and was turned away.
    Unauthorized,
    /// The call was let through, and the operation answered it thus.
    Completed(Result<(), Error>),
}

impl Invocation {
    /// Whether every party whose authorization the call needs has given it.
    pub open spec fn permitted(self, env: EnvView) -> bool {
        match self {
            Invocation::NewGame { codemaker, codebreaker, .. } => env.authorized(codemaker@)
                && env.authorized(codebreaker@),
            Invocation::CommitCode { codemaker, .. } => env.authorized(codemaker@),
            Invocation::SubmitGuess { codebreaker, .. } => env.authorized(codebreaker@),
            Invocation::SubmitFeedback { codemaker, .. } => env.authorized(codemaker@),
            Invocation::SetAdmin { .. } => env.admin_authorized(),
            Invocation::SetVerifier { .. } => env.admin_authorized(),
            Invocation::SetHub { .. } => env.admin_authorized(),
            Invocation::Upgrade { .. } => env.admin_authorized(),
        }
    }

    /// How the operation answers the call.
    pub open spec fn result(self, env: EnvView) -> Result<(), Error> {
        match self {
            Invocation::NewGame { .. } => Ok(()),
            Invocation::CommitCode { session_id, codemaker, .. } => env.commit_code_result(
                session_id,
                codemaker@,
            ),
            Invocation::SubmitGuess { session_id, codebreaker, guess } => env.submit_guess_result(
                session_id,
                codebreaker@,
                guess@,
            ),
            Invocation::SubmitFeedback {
                session_id,
                codemaker,
                correct_position,
                correct_color,
                ..
            } => env.submit_feedback_result(
                session_id,
                codemaker@,
                correct_position,
                correct_color,
            ),
            Invocation::SetAdmin { .. } => Ok(()),
            Invocation::SetVerifier { .. } => Ok(()),
            Invocation::SetHub { .. } => Ok(()),
            Invocation::Upgrade { .. } => Ok(()),
        }
    }

    /// The environment after the operation.
    pub open spec fn effect(self, env: EnvView) -> EnvView {
        match self {
            Invocation::NewGame { session_id, codemaker, codebreaker } => env.after_new_game(
                session_id,
                codemaker@,
                codebreaker@,
            ),
            Invocation::CommitCode { session_id, codemaker, commitment } => env.after_commit_code(
                session_id,
                codemaker@,
                commitment@,
            ),
            Invocation::SubmitGuess { session_id, codebreaker, guess } => env.after_submit_guess(
                session_id,
                codebreaker@,
                guess@,
            ),
            Invocation::SubmitFeedback {
                session_id,
                codemaker,
                correct_position,
                correct_color,
                proof_hash,
            } => env.after_submit_feedback(
                session_id,
                codemaker@,
                Feedback { correct_position, correct_color, proof_hash },
            ),
            Invocation::SetAdmin { new_admin } => EnvView { admin: Some(new_admin@), ..env },
            Invocation::SetVerifier { new_verifier } => EnvView {
                verifier: Some(new_verifier@),
                ..env
            },
            Invocation::SetHub { new_hub } => EnvView { game_hub: Some(new_hub@), ..env },
            Invocation::Upgrade { new_wasm_hash } => EnvView { executable: new_wasm_hash@, ..env },
        }
    }

    /// What becomes of the call.
    pub open spec fn outcome(self, env: EnvView) -> Outcome {
        if self.permitted(env) {
            Outcome::Completed(self.result(env))
        } else {
            Outcome::Unauthorized
        }
    }

    /// The environment after the call.
    pub open spec fn after(self, env: EnvView) -> EnvView {
        if self.permitted(env) {
            self.effect(env)
        } else {
            env
        }
    }
}

impl ZKMindContract {
    /// Lets `call` through to its operation if it is authorized, and turns
    /// it away if not. A call that is turned away changes nothing.
    pub fn invoke(env: &mut Env, call: Invocation) -> (outcome: Outcome)
        ensures
            outcome == call.outcome(old(env)@),
            final(env)@ == call.after(old(env)@),
            final(env)@.wf(),
    {
        proof {
            use_type_invariant(&*env);
            env.lemma_inv_wf();
        }
        match call {
            Invocation::NewGame { session_id, codemaker, codebreaker } => {
                if env.is_authorized(&codemaker) && env.is_authorized(&codebreaker) {
                    Outcome::Completed(Self::new_game(env, session_id, codemaker, codebreaker))
                } else {
                    Outcome::Unauthorized
                }
            },
            Invocation::CommitCode { session_id, codemaker, commitment } => {
                if env.is_authorized(&codemaker) {
                    Outcome::Completed(Self::commit_code(env, session_id, codemaker, commitment))
                } else {
                    Outcome::Unauthorized
                }
            },
            Invocation::SubmitGuess { session_id, codebreaker, guess } => {
                if env.is_authorized(&codebreaker) {
                    Outcome::Completed(Self::submit_guess(env, session_id, codebreaker, guess))
                } else {
                    Outcome::Unauthorized
                }
            },
            Invocation::SubmitFeedback {
                session_id,
                codemaker,
                correct_position,
                correct_color,
                proof_hash,
            } => {
                if env.is_authorized(&codemaker) {
                    Outcome::Completed(
                        Self::submit_feedback(
                            env,
                            session_id,
                            codemaker,
                            correct_position,
                            correct_color,
                            proof_hash,
                        ),
                    )
                } else {
                    Outcome::Unauthorized
                }
            },
            Invocation::SetAdmin { new_admin } => {
                if env.is_admin_authorized() {
                    Self::set_admin(env, new_admin);
                    Outcome::Completed(Ok(()))
                } else {
                    Outcome::Unauthorized
                }
            },
            Invocation::SetVerifier { new_verifier } => {
                if env.is_admin_authorized() {
                    Self::set_verifier(env, new_verifier);
                    Outcome::Completed(Ok(()))
                } else {
                    Outcome::Unauthorized
                }
            },
            Invocation::SetHub { new_hub } => {
                if env.is_admin_authorized() {
                    Self::set_hub(env, new_hub);
                    Outcome::Completed(Ok(()))
                } else {
                    Outcome::Unauthorized
                }
            },
            Invocation::Upgrade { new_wasm_hash } => {
                if env.is_admin_authorized() {
                    Self::upgrade(env, new_wasm_hash);
                    Outcome::Completed(Ok(()))
                } else {
                    Outcome::Unauthorized
                }
            },
        }
    }
}

} // verus!
