//! The arbiter's operations.
//!
//! Each operation runs in an environment: it reads the session it is about,
//! checks the call against the rules of the game, and writes the session
//! back, which also renews the session's lifetime. A call that is rejected
//! writes nothing.
//!
//! Every operation that changes something must have been authorized by the
//! party that it names as its actor (the administrator, for the
//! configuration). That is a precondition here: who hosts the arbiter checks
//! the authorization before the call and aborts without it.

use vstd::prelude::*;

use crate::address::Address;
use crate::env::{Env, EnvView};
use crate::error::Error;
use crate::game::{Feedback, GamePhase, GameState, GameStateView};

verus! {

/// The arbiter.
pub struct ZKMindContract;

/// The notice that a game has ended, for the game hub.
#[derive(Debug, PartialEq, Eq)]
pub struct EndGame {
    /// The game hub that is to be told.
    pub game_hub: Address,
    /// The session that has ended.
    pub session_id: u32,
    /// Whether the first player, the code-maker, has won.
    pub player1_won: bool,
}

impl EnvView {
    /// The environment after the arbiter was set up.
    pub open spec fn constructed(
        self,
        admin: Seq<u8>,
        game_hub: Seq<u8>,
        verifier: Seq<u8>,
    ) -> EnvView {
        EnvView {
            admin: Some(admin),
            game_hub: Some(game_hub),
            verifier: Some(verifier),
            ..self
        }
    }

    /// The environment after `new_game`.
    pub open spec fn after_new_game(
        self,
        session_id: u32,
        codemaker: Seq<u8>,
        codebreaker: Seq<u8>,
    ) -> EnvView {
        self.put(GameStateView::created(session_id, codemaker, codebreaker))
    }

    /// How `get_game` is answered.
    pub open spec fn get_game_result(self, session_id: u32) -> Result<GameStateView, Error> {
        match self.game(session_id) {
            Some(game) => Ok(game),
            None => Err(Error::GameNotFound),
        }
    }

    /// How `commit_code` is answered.
    pub open spec fn commit_code_result(self, session_id: u32, caller: Seq<u8>) -> Result<
        (),
        Error,
    > {
        match self.game(session_id) {
            Some(game) => game.commit_code_result(caller),
            None => Err(Error::GameNotFound),
        }
    }

    /// The environment after `commit_code`.
    pub open spec fn after_commit_code(
        self,
        session_id: u32,
        caller: Seq<u8>,
        commitment: Seq<u8>,
    ) -> EnvView {
        if self.commit_code_result(session_id, caller) is Ok {
            self.put(self.game(session_id)->0.committed(commitment))
        } else {
            self
        }
    }

    /// How `submit_guess` is answered.
    pub open spec fn submit_guess_result(
        self,
        session_id: u32,
        caller: Seq<u8>,
        guess: Seq<u32>,
    ) -> Result<(), Error> {
        match self.game(session_id) {
            Some(game) => game.submit_guess_result(caller, guess),
            None => Err(Error::GameNotFound),
        }
    }

    /// The environment after `submit_guess`.
    pub open spec fn after_submit_guess(
        self,
        session_id: u32,
        caller: Seq<u8>,
        guess: Seq<u32>,
    ) -> EnvView {
        if self.submit_guess_result(session_id, caller, guess) is Ok {
            self.put(self.game(session_id)->0.guessed(guess))
        } else {
            self
        }
    }

    /// How `submit_feedback` is answered.
    pub open spec fn submit_feedback_result(
        self,
        session_id: u32,
        caller: Seq<u8>,
        correct_position: u32,
        correct_color: u32,
    ) -> Result<(), Error> {
        match self.game(session_id) {
            Some(game) => game.submit_feedback_result(caller, correct_position, correct_color),
            None => Err(Error::GameNotFound),
        }
    }

    /// The environment after `submit_feedback`.
    pub open spec fn after_submit_feedback(
        self,
        session_id: u32,
        caller: Seq<u8>,
        feedback: Feedback,
    ) -> EnvView {
        if self.submit_feedback_result(
            session_id,
            caller,
            feedback.correct_position,
            feedback.correct_color,
        ) is Ok {
            self.put(self.game(session_id)->0.scored(feedback))
        } else {
            self
        }
    }

    /// Whether `report_result` is answered with a notice, and else why not.
    pub open spec fn report_result_result(self, session_id: u32) -> Result<(), Error> {
        match self.game(session_id) {
            Some(game) => if game.phase != GamePhase::Finished {
                Err(Error::InvalidPhase)
            } else {
                Ok(())
            },
            None => Err(Error::GameNotFound),
        }
    }
}

impl ZKMindContract {
    /// Sets the arbiter up with its administrator, the game hub that it
    /// reports to, and the proof verifier that the parties may consult.
    pub fn __constructor(env: &mut Env, admin: Address, game_hub: Address, verifier: Address)
        ensures
            final(env)@ == old(env)@.constructed(admin@, game_hub@, verifier@),
            final(env)@.wf(),
    {
        env.store_admin(admin);
        env.store_game_hub(game_hub);
        env.store_verifier(verifier);
    }

    /// Starts a session between `codemaker` and `codebreaker` under
    /// `session_id`. Both must have authorized the call.
    ///
    /// The session awaits the commitment; it has no guess and no score. It
    /// replaces whatever was stored under `session_id`: not to reuse the id
    /// of a session that is still live is for the callers to see to.
    pub fn new_game(env: &mut Env, session_id: u32, codemaker: Address, codebreaker: Address) -> (r:
        Result<(), Error>)
        requires
            old(env)@.authorized(codemaker@),
            old(env)@.authorized(codebreaker@),
        ensures
            r == Ok::<(), Error>(()),
            final(env)@ == old(env)@.after_new_game(session_id, codemaker@, codebreaker@),
            final(env)@.wf(),
    {
        let game = GameState::new(session_id, codemaker, codebreaker);
        env.put_game(game);
        Ok(())
    }

    /// The code-maker commits to a code by its digest. The code-maker must
    /// have authorized the call.
    ///
    /// Answered with `GameNotFound` where no live session is stored under
    /// `session_id`, and else as the session answers it.
    pub fn commit_code(
        env: &mut Env,
        session_id: u32,
        codemaker: Address,
        commitment: [u8; 32],
    ) -> (r: Result<(), Error>)
        requires
            old(env)@.authorized(codemaker@),
        ensures
            r == old(env)@.commit_code_result(session_id, codemaker@),
            final(env)@ == old(env)@.after_commit_code(session_id, codemaker@, commitment@),
            final(env)@.wf(),
    {
        proof {
            use_type_invariant(&*env);
            env.lemma_inv_wf();
        }
        let mut game = match env.game(session_id) {
            Some(game) => game,
            None => {
                return Err(Error::GameNotFound);
            },
        };
        match game.commit_code(&codemaker, commitment) {
            Ok(()) => {
                env.put_game(game);
                Ok(())
            },
            Err(e) => Err(e),
        }
    }

    /// The code-breaker submits a guess of four pegs in the colours `0..=5`.
    /// The code-breaker must have authorized the call.
    ///
    /// Answered with `GameNotFound` where no live session is stored under
    /// `session_id`, and else as the session answers it.
    pub fn submit_guess(env: &mut Env, session_id: u32, codebreaker: Address, guess: Vec<u32>) -> (r:
        Result<(), Error>)
        requires
            old(env)@.authorized(codebreaker@),
        ensures
            r == old(env)@.submit_guess_result(session_id, codebreaker@, guess@),
            final(env)@ == old(env)@.after_submit_guess(session_id, codebreaker@, guess@),
            final(env)@.wf(),
    {
        proof {
            use_type_invariant(&*env);
            env.lemma_inv_wf();
        }
        let mut game = match env.game(session_id) {
            Some(game) => game,
            None => {
                return Err(Error::GameNotFound);
            },
        };
        match game.submit_guess(&codebreaker, guess) {
            Ok(()) => {
                env.put_game(game);
                Ok(())
            },
            Err(e) => Err(e),
        }
    }

    /// The code-maker scores the pending guess and hands in the digest of
    /// the proof that the score is right. The code-maker must have
    /// authorized the call.
    ///
    /// Answered with `GameNotFound` where no live session is stored under
    /// `session_id`, and else as the session answers it.
    pub fn submit_feedback(
        env: &mut Env,
        session_id: u32,
        codemaker: Address,
        correct_position: u32,
        correct_color: u32,
        proof_hash: [u8; 32],
    ) -> (r: Result<(), Error>)
        requires
            old(env)@.authorized(codemaker@),
        ensures
            r == old(env)@.submit_feedback_result(
                session_id,
                codemaker@,
                correct_position,
                correct_color,
            ),
            final(env)@ == old(env)@.after_submit_feedback(
                session_id,
                codemaker@,
                (Feedback { correct_position, correct_color, proof_hash }),
            ),
            final(env)@.wf(),
    {
        proof {
            use_type_invariant(&*env);
            env.lemma_inv_wf();
        }
        let mut game = match env.game(session_id) {
            Some(game) => game,
            None => {
                return Err(Error::GameNotFound);
            },
        };
        match game.submit_feedback(&codemaker, correct_position, correct_color, proof_hash) {
            Ok(()) => {
                env.put_game(game);
                Ok(())
            },
            Err(e) => Err(e),
        }
    }

    /// The session that is stored under `session_id`, as it stands.
    ///
    /// Answered with `GameNotFound` where none is stored there or its
    /// lifetime has lapsed.
    pub fn get_game(env: &Env, session_id: u32) -> (r: Result<GameState, Error>)
        ensures
            match r {
                Ok(game) => env@.get_game_result(session_id) == Ok::<GameStateView, Error>(game@),
                Err(e) => env@.get_game_result(session_id) == Err::<GameStateView, Error>(e),
            },
            r matches Ok(game) ==> game@.wf() && game.session_id == session_id,
    {
        match env.game(session_id) {
            Some(game) => Ok(game),
            None => Err(Error::GameNotFound),
        }
    }

    /// The address of the proof verifier. One must be configured.
    pub fn get_verifier(env: &Env) -> (who: Address)
        requires
            env@.verifier is Some,
        ensures
            Some(who@) == env@.verifier,
    {
        env.stored_verifier().unwrap()
    }

    /// Makes out the notice of a game's end for the game hub. Anybody may
    /// ask for it, and each call makes out one notice: whether the hub was
    /// told before is not recorded.
    ///
    /// Answered with `GameNotFound` where no live session is stored under
    /// `session_id`, and with `InvalidPhase` unless the game is over. Where
    /// a notice is due, a game hub must be configured.
    pub fn report_result(env: &Env, session_id: u32) -> (r: Result<EndGame, Error>)
        requires
            env@.report_result_result(session_id) is Ok ==> env@.game_hub is Some,
        ensures
            match r {
                Ok(notice) => {
                    &&& env@.report_result_result(session_id) is Ok
                    &&& Some(notice.game_hub@) == env@.game_hub
                    &&& notice.session_id == session_id
                    &&& notice.player1_won == env@.game(session_id)->0.codemaker_won()
                },
                Err(e) => env@.report_result_result(session_id) == Err::<(), Error>(e),
            },
    {
        let game = match env.game(session_id) {
            Some(game) => game,
            None => {
                return Err(Error::GameNotFound);
            },
        };
        if game.phase != GamePhase::Finished {
            return Err(Error::InvalidPhase);
        }
        let game_hub = env.stored_game_hub().unwrap();
        let player1_won = game.codemaker_won();
        Ok(EndGame { game_hub, session_id, player1_won })
    }

    /// The administrator. One must be configured.
    pub fn get_admin(env: &Env) -> (who: Address)
        requires
            env@.admin is Some,
        ensures
            Some(who@) == env@.admin,
    {
        env.stored_admin().unwrap()
    }

    /// Hands the administration over to `new_admin`. The administrator must
    /// have authorized the call.
    pub fn set_admin(env: &mut Env, new_admin: Address)
        requires
            old(env)@.admin_authorized(),
        ensures
            final(env)@ == (EnvView { admin: Some(new_admin@), ..old(env)@ }),
            final(env)@.wf(),
    {
        env.store_admin(new_admin);
    }

    /// Replaces the address of the proof verifier. The administrator must
    /// have authorized the call.
    pub fn set_verifier(env: &mut Env, new_verifier: Address)
        requires
            old(env)@.admin_authorized(),
        ensures
            final(env)@ == (EnvView { verifier: Some(new_verifier@), ..old(env)@ }),
            final(env)@.wf(),
    {
        env.store_verifier(new_verifier);
    }

    /// Replaces the address of the game hub. The administrator must have
    /// authorized the call.
    pub fn set_hub(env: &mut Env, new_hub: Address)
        requires
            old(env)@.admin_authorized(),
        ensures
            final(env)@ == (EnvView { game_hub: Some(new_hub@), ..old(env)@ }),
            final(env)@.wf(),
    {
        env.store_game_hub(new_hub);
    }

    /// Replaces the arbiter's executable by the one with the digest
    /// `new_wasm_hash`. The administrator must have authorized the call.
    pub fn upgrade(env: &mut Env, new_wasm_hash: [u8; 32])
        requires
            old(env)@.admin_authorized(),
        ensures
            final(env)@ == (EnvView { executable: new_wasm_hash@, ..old(env)@ }),
            final(env)@.wf(),
    {
        env.store_executable(new_wasm_hash);
    }
}

} // verus!
