//! What holds of the arbiter whatever the calls: laws of the session's state
//! machine and of the store, proved of the functions by which the
//! operations' contracts are stated.

use vstd::prelude::*;

use crate::access::{Invocation, Outcome};
use crate::env::{DataKey, EnvView};
use crate::error::Error;
use crate::game::{valid_guess, Feedback, GamePhase, GameStateView};

verus! {

/// A session that was just created is what a read of it finds: it awaits the
/// commitment and has no guess, no score and a guess count of zero.
pub proof fn law_new_game_then_get_game(
    env: EnvView,
    session_id: u32,
    codemaker: Seq<u8>,
    codebreaker: Seq<u8>,
)
    ensures
        ({
            let after = env.after_new_game(session_id, codemaker, codebreaker);
            let created = GameStateView::created(session_id, codemaker, codebreaker);
            &&& after.get_game_result(session_id) == Ok::<GameStateView, Error>(created)
            &&& created.session_id == session_id
            &&& created.codemaker == codemaker
            &&& created.codebreaker == codebreaker
            &&& created.phase == GamePhase::WaitingForCommitment
            &&& created.guesses.len() == 0
            &&& created.feedbacks.len() == 0
            &&& created.guess_count == 0
            &&& created.winner is None
            &&& created.wf()
        }),
{
}

/// A commitment can be made once: after a `commit_code` that succeeded, any
/// further `commit_code` on the session, by whomever and with whatever
/// digest, is answered with `InvalidPhase`, and changes nothing.
pub proof fn law_commit_code_once(
    env: EnvView,
    session_id: u32,
    codemaker: Seq<u8>,
    commitment: Seq<u8>,
    second_caller: Seq<u8>,
    second_commitment: Seq<u8>,
)
    requires
        env.wf(),
        env.commit_code_result(session_id, codemaker) is Ok,
    ensures
        ({
            let after = env.after_commit_code(session_id, codemaker, commitment);
            &&& after.commit_code_result(session_id, second_caller) == Err::<(), Error>(
                Error::InvalidPhase,
            )
            &&& after.after_commit_code(session_id, second_caller, second_commitment) == after
        }),
{
}

/// A guess that has not exactly four pegs, or has a peg above 5, is answered
/// with `InvalidGuessValue` wherever a guess of the caller is due, and leaves
/// the environment as it was: the session's phase and pending guess with it.
pub proof fn law_invalid_guess_rejected(
    env: EnvView,
    session_id: u32,
    caller: Seq<u8>,
    guess: Seq<u32>,
)
    requires
        env.game(session_id) is Some,
        env.game(session_id)->0.phase == GamePhase::WaitingForGuess,
        env.game(session_id)->0.codebreaker == caller,
        guess.len() != 4 || exists|i: int| 0 <= i < guess.len() && guess[i] > 5,
    ensures
        env.submit_guess_result(session_id, caller, guess) == Err::<(), Error>(
            Error::InvalidGuessValue,
        ),
        env.after_submit_guess(session_id, caller, guess) == env,
{
    assert(!valid_guess(guess));
}

/// A score with a count above 4, or whose counts add up to more than 4, is
/// answered with `InvalidFeedback` wherever a score of the caller is due, and
/// leaves the environment as it was: nothing is appended to the rounds.
pub proof fn law_invalid_feedback_rejected(
    env: EnvView,
    session_id: u32,
    caller: Seq<u8>,
    feedback: Feedback,
)
    requires
        env.game(session_id) is Some,
        env.game(session_id)->0.phase == GamePhase::WaitingForFeedback,
        env.game(session_id)->0.codemaker == caller,
        feedback.correct_position + feedback.correct_color > 4 || feedback.correct_position > 4
            || feedback.correct_color > 4,
    ensures
        env.submit_feedback_result(
            session_id,
            caller,
            feedback.correct_position,
            feedback.correct_color,
        ) == Err::<(), Error>(Error::InvalidFeedback),
        env.after_submit_feedback(session_id, caller, feedback) == env,
{
}

/// A call that lacks the authorization of a party that it needs is turned
/// away, whatever the operation and whatever is stored, and nothing changes.
pub proof fn law_unauthorized_call_is_turned_away(env: EnvView, call: Invocation)
    requires
        !call.permitted(env),
    ensures
        call.outcome(env) == Outcome::Unauthorized,
        call.after(env) == env,
{
}

/// The authorization that a call needs is that of its actor: of both
/// players for a new game, of the code-maker for the commitment and for a
/// score, of the code-breaker for a guess, and of the administrator, who
/// must be configured, for the configuration.
pub proof fn law_who_authorizes(env: EnvView, call: Invocation)
    requires
        call.permitted(env),
    ensures
        call matches Invocation::NewGame { codemaker, codebreaker, .. } ==> env.auths.contains(
            codemaker@,
        ) && env.auths.contains(codebreaker@),
        call matches Invocation::CommitCode { codemaker, .. } ==> env.auths.contains(codemaker@),
        call matches Invocation::SubmitGuess { codebreaker, .. } ==> env.auths.contains(
            codebreaker@,
        ),
        call matches Invocation::SubmitFeedback { codemaker, .. } ==> env.auths.contains(
            codemaker@,
        ),
        (call is SetAdmin || call is SetVerifier || call is SetHub || call is Upgrade)
            ==> env.admin is Some && env.auths.contains(env.admin->0),
{
}

/// A call that is rejected changes nothing.
pub proof fn law_rejected_call_changes_nothing(
    env: EnvView,
    session_id: u32,
    caller: Seq<u8>,
    commitment: Seq<u8>,
    guess: Seq<u32>,
    feedback: Feedback,
)
    ensures
        env.commit_code_result(session_id, caller) is Err ==> env.after_commit_code(
            session_id,
            caller,
            commitment,
        ) == env,
        env.submit_guess_result(session_id, caller, guess) is Err ==> env.after_submit_guess(
            session_id,
            caller,
            guess,
        ) == env,
        env.submit_feedback_result(
            session_id,
            caller,
            feedback.correct_position,
            feedback.correct_color,
        ) is Err ==> env.after_submit_feedback(session_id, caller, feedback) == env,
{
}

/// The invariant of a session says that its rounds are counted rightly, that
/// the count is within the bound, and that there is a winner exactly when
/// the game is over, who is then one of the two parties.
pub proof fn law_well_formed_session(game: GameStateView)
    requires
        game.wf(),
    ensures
        game.guess_count == game.guesses.len(),
        game.guess_count == game.feedbacks.len(),
        game.guess_count <= game.max_guesses,
        game.max_guesses == 12,
        game.winner is Some <==> game.phase == GamePhase::Finished,
        game.winner is Some ==> game.winner == Some(game.codemaker) || game.winner == Some(
            game.codebreaker,
        ),
{
}

/// Each step of the state machine keeps the invariant of a session.
pub proof fn law_steps_keep_session_well_formed(
    game: GameStateView,
    caller: Seq<u8>,
    commitment: Seq<u8>,
    guess: Seq<u32>,
    feedback: Feedback,
)
    requires
        game.wf(),
    ensures
        GameStateView::created(game.session_id, game.codemaker, game.codebreaker).wf(),
        game.commit_code_result(caller) is Ok ==> game.committed(commitment).wf(),
        game.submit_guess_result(caller, guess) is Ok ==> game.guessed(guess).wf(),
        game.submit_feedback_result(caller, feedback.correct_position, feedback.correct_color)
            is Ok ==> game.scored(feedback).wf(),
{
    if game.submit_feedback_result(caller, feedback.correct_position, feedback.correct_color)
        is Ok {
        crate::game::lemma_scored_wf(game, feedback);
    }
}

/// No step changes who plays, under which id, or how many guesses there
/// are to be; the commitment is set by `commit_code` and by nothing else;
/// and the rounds only grow: what was recorded stays, in its place.
pub proof fn law_steps_keep_what_is_fixed(
    game: GameStateView,
    commitment: Seq<u8>,
    guess: Seq<u32>,
    feedback: Feedback,
)
    ensures
        ({
            let a = game.committed(commitment);
            let b = game.guessed(guess);
            let c = game.scored(feedback);
            &&& a.session_id == game.session_id && b.session_id == game.session_id && c.session_id
                == game.session_id
            &&& a.codemaker == game.codemaker && b.codemaker == game.codemaker && c.codemaker
                == game.codemaker
            &&& a.codebreaker == game.codebreaker && b.codebreaker == game.codebreaker
                && c.codebreaker == game.codebreaker
            &&& a.max_guesses == game.max_guesses && b.max_guesses == game.max_guesses
                && c.max_guesses == game.max_guesses
            &&& a.commitment == commitment && b.commitment == game.commitment && c.commitment
                == game.commitment
            &&& a.guesses == game.guesses && b.guesses == game.guesses
            &&& a.feedbacks == game.feedbacks && b.feedbacks == game.feedbacks
            &&& a.guess_count == game.guess_count && b.guess_count == game.guess_count
            &&& c.guesses.len() == game.guesses.len() + 1
            &&& c.feedbacks.len() == game.feedbacks.len() + 1
            &&& c.guesses.subrange(0, game.guesses.len() as int) == game.guesses
            &&& c.feedbacks.subrange(0, game.feedbacks.len() as int) == game.feedbacks
        }),
{
    let c = game.scored(feedback);
    assert(c.guesses.subrange(0, game.guesses.len() as int) =~= game.guesses);
    assert(c.feedbacks.subrange(0, game.feedbacks.len() as int) =~= game.feedbacks);
}

/// Each operation keeps the invariant of the store.
pub proof fn law_operations_keep_store_well_formed(
    env: EnvView,
    session_id: u32,
    caller: Seq<u8>,
    other: Seq<u8>,
    commitment: Seq<u8>,
    guess: Seq<u32>,
    feedback: Feedback,
)
    requires
        env.wf(),
    ensures
        env.after_new_game(session_id, caller, other).wf(),
        env.after_commit_code(session_id, caller, commitment).wf(),
        env.after_submit_guess(session_id, caller, guess).wf(),
        env.after_submit_feedback(session_id, caller, feedback).wf(),
{
    if env.game(session_id) is Some {
        let game = env.game(session_id)->0;
        assert(env.games.contains_key(session_id));
        law_steps_keep_session_well_formed(game, caller, commitment, guess, feedback);
    }
}

/// After every score that was accepted, the session's guess count is the
/// number of its recorded guesses and the number of its recorded scores: one
/// more of each than before.
pub proof fn law_rounds_counted(
    env: EnvView,
    session_id: u32,
    caller: Seq<u8>,
    feedback: Feedback,
)
    requires
        env.wf(),
        env.submit_feedback_result(
            session_id,
            caller,
            feedback.correct_position,
            feedback.correct_color,
        ) is Ok,
    ensures
        ({
            let before = env.game(session_id)->0;
            let after = env.after_submit_feedback(session_id, caller, feedback).game(session_id);
            &&& after is Some
            &&& after->0.guess_count == after->0.guesses.len()
            &&& after->0.guess_count == after->0.feedbacks.len()
            &&& after->0.guess_count == before.guess_count + 1
            &&& after->0.guesses.last() == before.current_guess
            &&& after->0.feedbacks.last() == feedback
        }),
{
    assert(env.games.contains_key(session_id));
}

/// How a score decides the game: four pegs in the right position make the
/// code-breaker the winner, whatever the round; any other score in the last
/// round makes the code-maker the winner; any other score before that opens
/// the next round, with no winner.
pub proof fn law_score_decides(game: GameStateView, feedback: Feedback)
    requires
        game.wf(),
        game.phase == GamePhase::WaitingForFeedback,
        feedback.valid(),
    ensures
        ({
            let after = game.scored(feedback);
            &&& feedback.correct_position == 4 ==> after.phase == GamePhase::Finished
                && after.winner == Some(game.codebreaker)
            &&& feedback.correct_position < 4 && game.guess_count == 11 ==> after.phase
                == GamePhase::Finished && after.winner == Some(game.codemaker)
            &&& feedback.correct_position < 4 && game.guess_count < 11 ==> after.phase
                == GamePhase::WaitingForGuess && after.winner is None
        }),
{
}

/// A session whose lifetime has lapsed is as good as one that was never
/// created. No read finds it. Every operation on it is answered with
/// `GameNotFound` and changes nothing, as it is in the environment that
/// differs only in not holding the session. To create a session under its id
/// gives the same in both. And no later ledger brings it back.
pub proof fn law_lapsed_session_is_gone(
    env: EnvView,
    session_id: u32,
    caller: Seq<u8>,
    other: Seq<u8>,
    commitment: Seq<u8>,
    guess: Seq<u32>,
    feedback: Feedback,
    later: u32,
)
    requires
        env.games.contains_key(session_id),
        env.games[session_id].live_until < env.ledger,
    ensures
        ({
            let never = EnvView { games: env.games.remove(session_id), ..env };
            let p = feedback.correct_position;
            let c = feedback.correct_color;
            &&& !env.has(DataKey::Game(session_id))
            &&& !never.has(DataKey::Game(session_id))
            &&& env.get_game_result(session_id) == Err::<GameStateView, Error>(Error::GameNotFound)
            &&& never.get_game_result(session_id) == env.get_game_result(session_id)
            &&& env.commit_code_result(session_id, caller) == Err::<(), Error>(Error::GameNotFound)
            &&& never.commit_code_result(session_id, caller) == env.commit_code_result(
                session_id,
                caller,
            )
            &&& env.after_commit_code(session_id, caller, commitment) == env
            &&& env.submit_guess_result(session_id, caller, guess) == Err::<(), Error>(
                Error::GameNotFound,
            )
            &&& never.submit_guess_result(session_id, caller, guess) == env.submit_guess_result(
                session_id,
                caller,
                guess,
            )
            &&& env.after_submit_guess(session_id, caller, guess) == env
            &&& env.submit_feedback_result(session_id, caller, p, c) == Err::<(), Error>(
                Error::GameNotFound,
            )
            &&& never.submit_feedback_result(session_id, caller, p, c)
                == env.submit_feedback_result(session_id, caller, p, c)
            &&& env.after_submit_feedback(session_id, caller, feedback) == env
            &&& env.report_result_result(session_id) == Err::<(), Error>(Error::GameNotFound)
            &&& never.report_result_result(session_id) == env.report_result_result(session_id)
            &&& env.after_new_game(session_id, caller, other) == never.after_new_game(
                session_id,
                caller,
                other,
            )
            &&& env.advanced_to(later).game(session_id) is None
        }),
{
    let never = EnvView { games: env.games.remove(session_id), ..env };
    assert(env.after_new_game(session_id, caller, other).games =~= never.after_new_game(
        session_id,
        caller,
        other,
    ).games);
}

/// A write renews a session's lifetime: a session that was written at some
/// ledger is found by every read up to `GAME_TTL_LEDGERS` ledgers later, and
/// by none after that.
pub proof fn law_session_lifetime(env: EnvView, game: GameStateView, later: u32)
    ensures
        ({
            let found = env.put(game).advanced_to(later).game(game.session_id);
            if later <= env.ledger + crate::env::GAME_TTL_LEDGERS {
                found == Some(game)
            } else {
                found is None
            }
        }),
{
}

/// Sessions do not touch one another: an operation on one session leaves
/// every other session, and the configuration, as they were.
pub proof fn law_sessions_independent(
    env: EnvView,
    session_id: u32,
    other_id: u32,
    caller: Seq<u8>,
    other: Seq<u8>,
    commitment: Seq<u8>,
    guess: Seq<u32>,
    feedback: Feedback,
)
    requires
        env.wf(),
        session_id != other_id,
    ensures
        ({
            let a = env.after_new_game(session_id, caller, other);
            let b = env.after_commit_code(session_id, caller, commitment);
            let c = env.after_submit_guess(session_id, caller, guess);
            let d = env.after_submit_feedback(session_id, caller, feedback);
            &&& a.game(other_id) == env.game(other_id)
            &&& b.game(other_id) == env.game(other_id)
            &&& c.game(other_id) == env.game(other_id)
            &&& d.game(other_id) == env.game(other_id)
            &&& a.admin == env.admin && a.game_hub == env.game_hub && a.verifier == env.verifier
            &&& b.admin == env.admin && b.game_hub == env.game_hub && b.verifier == env.verifier
            &&& c.admin == env.admin && c.game_hub == env.game_hub && c.verifier == env.verifier
            &&& d.admin == env.admin && d.game_hub == env.game_hub && d.verifier == env.verifier
        }),
{
    if env.game(session_id) is Some {
        assert(env.games.contains_key(session_id));
    }
}

} // verus!
