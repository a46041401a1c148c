//! The record of one game session, and the rules by which it moves from
//! phase to phase.

use vstd::prelude::*;

use crate::address::Address;
use crate::error::Error;

verus! {

/// The number of scored guesses after which the code-maker wins.
pub const MAX_GUESSES: u32 = 12;

/// The number of pegs in a code and in a guess.
pub const CODE_LENGTH: usize = 4;

/// The highest colour of a peg; the colours are `0..=MAX_COLOR`.
pub const MAX_COLOR: u32 = 5;

/// The length of a commitment and of a proof digest, in bytes.
pub const DIGEST_LENGTH: usize = 32;

/// Where a session stands in the protocol.
#[derive(Copy, Clone, Debug, PartialEq, Eq, Structural)]
pub enum GamePhase {
    /// Created; the code-maker has not committed to a code yet.
    WaitingForCommitment,
    /// The code-breaker is to guess.
    WaitingForGuess,
    /// The code-maker is to score the pending guess.
    WaitingForFeedback,
    /// The game is over and the winner is known.
    Finished,
}

/// The score of one guess, with the digest of the proof that it is correct.
#[derive(Copy, Clone, Debug, PartialEq, Eq)]
pub struct Feedback {
    /// How many pegs have the right colour in the right position.
    pub correct_position: u32,
    /// How many further pegs have a right colour in a wrong position.
    pub correct_color: u32,
    /// The digest of the proof; the arbiter stores it and never reads it.
    pub proof_hash: [u8; 32],
}

/// One game session.
#[derive(Debug, PartialEq, Eq)]
pub struct GameState {
    /// The key under which the session is stored.
    pub session_id: u32,
    /// The party that holds the secret code.
    pub codemaker: Address,
    /// The party that guesses.
    pub codebreaker: Address,
    /// Where the session stands.
    pub phase: GamePhase,
    /// The code-maker's commitment; all zero until it is made.
    pub commitment: [u8; 32],
    /// The scored guesses, oldest first.
    pub guesses: Vec<Vec<u32>>,
    /// The score of each guess in `guesses`, at the same index.
    pub feedbacks: Vec<Feedback>,
    /// The number of scored guesses.
    pub guess_count: u32,
    /// The number of scored guesses at which the game ends.
    pub max_guesses: u32,
    /// The winner, once the game is over.
    pub winner: Option<Address>,
    /// The latest guess; it awaits its score while the phase is `WaitingForFeedback`.
    pub current_guess: Vec<u32>,
}

/// A session as a mathematical value.
pub struct GameStateView {
    pub session_id: u32,
    pub codemaker: Seq<u8>,
    pub codebreaker: Seq<u8>,
    pub phase: GamePhase,
    pub commitment: Seq<u8>,
    pub guesses: Seq<Seq<u32>>,
    pub feedbacks: Seq<Feedback>,
    pub guess_count: u32,
    pub max_guesses: u32,
    pub winner: Option<Seq<u8>>,
    pub current_guess: Seq<u32>,
}

/// The view of an identity that may be absent.
pub open spec fn view_of(who: Option<Address>) -> Option<Seq<u8>> {
    match who {
        Some(a) => Some(a@),
        None => None,
    }
}

impl View for GameState {
    type V = GameStateView;

    open spec fn view(&self) -> GameStateView {
        GameStateView {
            session_id: self.session_id,
            codemaker: self.codemaker@,
            codebreaker: self.codebreaker@,
            phase: self.phase,
            commitment: self.commitment@,
            guesses: self.guesses@.map_values(|g: Vec<u32>| g@),
            feedbacks: self.feedbacks@,
            guess_count: self.guess_count,
            max_guesses: self.max_guesses,
            winner: view_of(self.winner),
            current_guess: self.current_guess@,
        }
    }
}

/// A guess is valid when it has four pegs, each in one of the six colours.
pub open spec fn valid_guess(guess: Seq<u32>) -> bool {
    &&& guess.len() == CODE_LENGTH
    &&& forall|i: int| 0 <= i < guess.len() ==> guess[i] <= MAX_COLOR
}

/// A score is valid when neither count is above four and they add up to at
/// most four.
pub open spec fn valid_feedback(correct_position: u32, correct_color: u32) -> bool {
    &&& correct_position <= CODE_LENGTH
    &&& correct_color <= CODE_LENGTH
    &&& correct_position + correct_color <= CODE_LENGTH
}

/// The digest of all zero bytes. It stands for "none": it is the commitment
/// of a session whose code-maker has not committed yet.
pub open spec fn zero_digest() -> Seq<u8> {
    Seq::new(DIGEST_LENGTH as nat, |i: int| 0u8)
}

impl Feedback {
    /// Whether the score is valid.
    pub open spec fn valid(self) -> bool {
        valid_feedback(self.correct_position, self.correct_color)
    }

    /// Whether the score reports a perfect match.
    pub open spec fn perfect(self) -> bool {
        self.correct_position == CODE_LENGTH
    }
}

impl GameStateView {
    /// The session as `new_game` creates it.
    pub open spec fn created(
        session_id: u32,
        codemaker: Seq<u8>,
        codebreaker: Seq<u8>,
    ) -> GameStateView {
        GameStateView {
            session_id,
            codemaker,
            codebreaker,
            phase: GamePhase::WaitingForCommitment,
            commitment: zero_digest(),
            guesses: Seq::empty(),
            feedbacks: Seq::empty(),
            guess_count: 0,
            max_guesses: MAX_GUESSES,
            winner: None,
            current_guess: Seq::empty(),
        }
    }

    /// The rounds are recorded consistently: one valid guess and one valid
    /// score per round, and no round but the last was a perfect match.
    pub open spec fn rounds_recorded(self) -> bool {
        &&& self.guesses.len() == self.guess_count
        &&& self.feedbacks.len() == self.guess_count
        &&& forall|i: int| 0 <= i < self.guesses.len() ==> valid_guess(#[trigger] self.guesses[i])
        &&& forall|i: int|
            0 <= i < self.feedbacks.len() ==> (#[trigger] self.feedbacks[i]).valid()
        &&& forall|i: int|
            0 <= i < self.feedbacks.len() - 1 ==> !(#[trigger] self.feedbacks[i]).perfect()
    }

    /// The game is still open: nobody has won, guesses are left, and the
    /// latest score, if there is one, was no perfect match.
    pub open spec fn undecided(self) -> bool {
        &&& self.winner is None
        &&& self.guess_count < self.max_guesses
        &&& self.feedbacks.len() > 0 ==> !self.feedbacks.last().perfect()
    }

    /// The game was decided by its latest score: a perfect match makes the
    /// code-breaker the winner; otherwise the guesses are used up and the
    /// code-maker is.
    pub open spec fn decided(self) -> bool {
        &&& self.feedbacks.len() > 0
        &&& if self.feedbacks.last().perfect() {
            self.winner == Some(self.codebreaker)
        } else {
            self.guess_count == self.max_guesses && self.winner == Some(self.codemaker)
        }
    }

    /// The invariant of a session: what holds of every session that the
    /// arbiter's operations produce.
    pub open spec fn wf(self) -> bool {
        &&& self.max_guesses == MAX_GUESSES
        &&& self.guess_count <= self.max_guesses
        &&& self.rounds_recorded()
        &&& match self.phase {
            GamePhase::WaitingForCommitment => {
                &&& self.guess_count == 0
                &&& self.winner is None
                &&& self.commitment == zero_digest()
            },
            GamePhase::WaitingForGuess => self.undecided(),
            GamePhase::WaitingForFeedback => self.undecided() && valid_guess(self.current_guess),
            GamePhase::Finished => self.decided(),
        }
    }

    /// Whether the code-maker has won.
    pub open spec fn codemaker_won(self) -> bool {
        self.winner == Some(self.codemaker)
    }

    /// How `commit_code` by `caller` is answered.
    pub open spec fn commit_code_result(self, caller: Seq<u8>) -> Result<(), Error> {
        if self.phase != GamePhase::WaitingForCommitment {
            Err(Error::InvalidPhase)
        } else if self.codemaker != caller {
            Err(Error::NotCodeMaker)
        } else {
            Ok(())
        }
    }

    /// The session after the code-maker has committed to `commitment`.
    pub open spec fn committed(self, commitment: Seq<u8>) -> GameStateView {
        GameStateView { commitment, phase: GamePhase::WaitingForGuess, ..self }
    }

    /// How `submit_guess` of `guess` by `caller` is answered.
    pub open spec fn submit_guess_result(self, caller: Seq<u8>, guess: Seq<u32>) -> Result<
        (),
        Error,
    > {
        if self.phase != GamePhase::WaitingForGuess {
            Err(Error::InvalidPhase)
        } else if self.codebreaker != caller {
            Err(Error::NotCodeBreaker)
        } else if !valid_guess(guess) {
            Err(Error::InvalidGuessValue)
        } else {
            Ok(())
        }
    }

    /// The session after the code-breaker has submitted `guess`.
    pub open spec fn guessed(self, guess: Seq<u32>) -> GameStateView {
        GameStateView { current_guess: guess, phase: GamePhase::WaitingForFeedback, ..self }
    }

    /// How `submit_feedback` of the two counts by `caller` is answered.
    pub open spec fn submit_feedback_result(
        self,
        caller: Seq<u8>,
        correct_position: u32,
        correct_color: u32,
    ) -> Result<(), Error> {
        if self.phase != GamePhase::WaitingForFeedback {
            Err(Error::InvalidPhase)
        } else if self.codemaker != caller {
            Err(Error::NotCodeMaker)
        } else if !valid_feedback(correct_position, correct_color) {
            Err(Error::InvalidFeedback)
        } else {
            Ok(())
        }
    }

    /// The session after the code-maker has scored the pending guess with
    /// `feedback`: the round is recorded, and the game ends on a perfect
    /// match or with the last guess.
    pub open spec fn scored(self, feedback: Feedback) -> GameStateView {
        let rounds = self.guess_count + 1;
        let last = rounds >= self.max_guesses;
        GameStateView {
            guesses: self.guesses.push(self.current_guess),
            feedbacks: self.feedbacks.push(feedback),
            guess_count: rounds as u32,
            phase: if feedback.perfect() || last {
                GamePhase::Finished
            } else {
                GamePhase::WaitingForGuess
            },
            winner: if feedback.perfect() {
                Some(self.codebreaker)
            } else if last {
                Some(self.codemaker)
            } else {
                self.winner
            },
            ..self
        }
    }
}

/// Whether `guess` has four pegs, each in one of the six colours.
pub fn is_valid_guess(guess: &Vec<u32>) -> (ok: bool)
    ensures
        ok == valid_guess(guess@),
{
    if guess.len() != CODE_LENGTH {
        return false;
    }
    let mut i: usize = 0;
    while i < CODE_LENGTH
        invariant
            i <= CODE_LENGTH,
            guess@.len() == CODE_LENGTH,
            forall|j: int| 0 <= j < i ==> guess@[j] <= MAX_COLOR,
        decreases CODE_LENGTH - i,
    {
        if guess[i] > MAX_COLOR {
            return false;
        }
        i += 1;
    }
    true
}

/// Whether the two counts of a score are valid.
pub fn is_valid_feedback(correct_position: u32, correct_color: u32) -> (ok: bool)
    ensures
        ok == valid_feedback(correct_position, correct_color),
{
    !(correct_position > 4 || correct_color > 4 || correct_position + correct_color > 4)
}

/// A copy of a list of guesses.
fn copy_guesses(guesses: &Vec<Vec<u32>>) -> (copy: Vec<Vec<u32>>)
    ensures
        copy@.map_values(|g: Vec<u32>| g@) == guesses@.map_values(|g: Vec<u32>| g@),
{
    let mut copy: Vec<Vec<u32>> = Vec::new();
    let mut i: usize = 0;
    while i < guesses.len()
        invariant
            i <= guesses.len(),
            copy@.len() == i,
            forall|j: int| 0 <= j < i ==> copy@[j]@ == guesses@[j]@,
        decreases guesses.len() - i,
    {
        let guess = guesses[i].clone();
        assert(guess@ =~= guesses@[i as int]@);
        copy.push(guess);
        i += 1;
    }
    assert(copy@.map_values(|g: Vec<u32>| g@) =~= guesses@.map_values(|g: Vec<u32>| g@));
    copy
}

impl Clone for GameState {
    fn clone(&self) -> (copy: GameState)
        ensures
            copy@ == self@,
    {
        let winner = match &self.winner {
            Some(a) => Some(a.clone()),
            None => None,
        };
        let current_guess = self.current_guess.clone();
        let feedbacks = self.feedbacks.clone();
        assert(current_guess@ =~= self.current_guess@);
        assert(feedbacks@ =~= self.feedbacks@);
        GameState {
            session_id: self.session_id,
            codemaker: self.codemaker.clone(),
            codebreaker: self.codebreaker.clone(),
            phase: self.phase,
            commitment: self.commitment,
            guesses: copy_guesses(&self.guesses),
            feedbacks,
            guess_count: self.guess_count,
            max_guesses: self.max_guesses,
            winner,
            current_guess,
        }
    }
}

impl GameState {
    /// A new session between `codemaker` and `codebreaker`: no commitment
    /// yet, no guess, no score.
    pub fn new(session_id: u32, codemaker: Address, codebreaker: Address) -> (game: GameState)
        ensures
            game@ == GameStateView::created(session_id, codemaker@, codebreaker@),
            game@.wf(),
    {
        let game = GameState {
            session_id,
            codemaker,
            codebreaker,
            phase: GamePhase::WaitingForCommitment,
            commitment: [0u8; 32],
            guesses: Vec::new(),
            feedbacks: Vec::new(),
            guess_count: 0,
            max_guesses: MAX_GUESSES,
            winner: None,
            current_guess: Vec::new(),
        };
        assert(game@.commitment =~= zero_digest());
        assert(game@.guesses =~= Seq::empty());
        game
    }

    /// The code-maker commits to a code by its digest.
    ///
    /// Answered with `InvalidPhase` unless the session awaits the commitment,
    /// and with `NotCodeMaker` unless `codemaker` is the session's code-maker.
    /// On success the digest is stored as it is and the session awaits the
    /// first guess. A rejected call changes nothing.
    pub fn commit_code(&mut self, codemaker: &Address, commitment: [u8; 32]) -> (r: Result<
        (),
        Error,
    >)
        ensures
            r == old(self)@.commit_code_result(codemaker@),
            r is Ok ==> final(self)@ == old(self)@.committed(commitment@),
            r is Err ==> final(self)@ == old(self)@,
            old(self)@.wf() ==> final(self)@.wf(),
    {
        if self.phase != GamePhase::WaitingForCommitment {
            return Err(Error::InvalidPhase);
        }
        if self.codemaker != *codemaker {
            return Err(Error::NotCodeMaker);
        }
        self.commitment = commitment;
        self.phase = GamePhase::WaitingForGuess;
        Ok(())
    }

    /// The code-breaker submits a guess.
    ///
    /// Answered with `InvalidPhase` unless the session awaits a guess, with
    /// `NotCodeBreaker` unless `codebreaker` is the session's code-breaker,
    /// and with `InvalidGuessValue` unless the guess is valid. On success the
    /// guess becomes the pending guess and the session awaits its score; the
    /// guess is not recorded among the rounds yet. A rejected call changes
    /// nothing.
    pub fn submit_guess(&mut self, codebreaker: &Address, guess: Vec<u32>) -> (r: Result<
        (),
        Error,
    >)
        ensures
            r == old(self)@.submit_guess_result(codebreaker@, guess@),
            r is Ok ==> final(self)@ == old(self)@.guessed(guess@),
            r is Err ==> final(self)@ == old(self)@,
            old(self)@.wf() ==> final(self)@.wf(),
    {
        if self.phase != GamePhase::WaitingForGuess {
            return Err(Error::InvalidPhase);
        }
        if self.codebreaker != *codebreaker {
            return Err(Error::NotCodeBreaker);
        }
        if !is_valid_guess(&guess) {
            return Err(Error::InvalidGuessValue);
        }
        self.current_guess = guess;
        self.phase = GamePhase::WaitingForFeedback;
        Ok(())
    }

    /// The code-maker scores the pending guess.
    ///
    /// Answered with `InvalidPhase` unless the session awaits a score, with
    /// `NotCodeMaker` unless `codemaker` is the session's code-maker, and with
    /// `InvalidFeedback` unless the two counts are valid. On success the
    /// pending guess and its score are recorded as one more round. Then the
    /// game is decided, in this order: on four pegs in the right position the
    /// code-breaker has won; else, if this was the last guess, the code-maker
    /// has won; else the session awaits the next guess. A rejected call
    /// changes nothing.
    ///
    /// The proof digest is stored as it is: that the proof it stands for was
    /// checked is for the parties to see to. Where the score is accepted, the
    /// guess count must have room for one more round, as it has in every
    /// well-formed session.
    pub fn submit_feedback(
        &mut self,
        codemaker: &Address,
        correct_position: u32,
        correct_color: u32,
        proof_hash: [u8; 32],
    ) -> (r: Result<(), Error>)
        requires
            old(self)@.submit_feedback_result(codemaker@, correct_position, correct_color) is Ok
                ==> old(self).guess_count < u32::MAX,
        ensures
            r == old(self)@.submit_feedback_result(codemaker@, correct_position, correct_color),
            r is Ok ==> final(self)@ == old(self)@.scored(
                (Feedback { correct_position, correct_color, proof_hash }),
            ),
            r is Err ==> final(self)@ == old(self)@,
            old(self)@.wf() ==> final(self)@.wf(),
    {
        if self.phase != GamePhase::WaitingForFeedback {
            return Err(Error::InvalidPhase);
        }
        if self.codemaker != *codemaker {
            return Err(Error::NotCodeMaker);
        }
        if !is_valid_feedback(correct_position, correct_color) {
            return Err(Error::InvalidFeedback);
        }
        let feedback = Feedback { correct_position, correct_color, proof_hash };
        let guess = self.current_guess.clone();
        assert(guess@ =~= self.current_guess@);
        self.guesses.push(guess);
        self.feedbacks.push(feedback);
        self.guess_count += 1;
        if correct_position == 4 {
            self.phase = GamePhase::Finished;
            self.winner = Some(self.codebreaker.clone());
        } else if self.guess_count >= self.max_guesses {
            self.phase = GamePhase::Finished;
            self.winner = Some(self.codemaker.clone());
        } else {
            self.phase = GamePhase::WaitingForGuess;
        }
        proof {
            let before = old(self)@;
            let after = before.scored(feedback);
            assert(self@.guesses =~= after.guesses);
            assert(self@ == after);
            if before.wf() {
                lemma_scored_wf(before, feedback);
            }
        }
        Ok(())
    }

    /// Whether the code-maker is the winner.
    pub fn codemaker_won(&self) -> (won: bool)
        ensures
            won == self@.codemaker_won(),
    {
        self.winner_is(&self.codemaker)
    }

    /// Whether `who` is the winner.
    fn winner_is(&self, who: &Address) -> (is: bool)
        ensures
            is == (self@.winner == Some(who@)),
    {
        match &self.winner {
            Some(winner) => *winner == *who,
            None => false,
        }
    }

    /// Whether the rounds are recorded consistently.
    fn has_rounds_recorded(&self) -> (ok: bool)
        ensures
            ok == self@.rounds_recorded(),
    {
        let rounds = self.guesses.len();
        if self.feedbacks.len() != rounds || rounds > u32::MAX as usize || rounds as u32
            != self.guess_count {
            return false;
        }
        let mut i: usize = 0;
        while i < rounds
            invariant
                i <= rounds,
                rounds == self.guesses@.len(),
                rounds == self.feedbacks@.len(),
                forall|j: int| 0 <= j < i ==> valid_guess(#[trigger] self@.guesses[j]),
                forall|j: int| 0 <= j < i ==> (#[trigger] self@.feedbacks[j]).valid(),
                forall|j: int| 0 <= j < i && j < rounds - 1 ==> !(#[trigger] self@.feedbacks[j]).perfect(),
            decreases rounds - i,
        {
            let feedback = self.feedbacks[i];
            assert(self@.guesses[i as int] == self.guesses@[i as int]@);
            assert(self@.feedbacks[i as int] == feedback);
            if !is_valid_guess(&self.guesses[i]) {
                return false;
            }
            if !is_valid_feedback(feedback.correct_position, feedback.correct_color) {
                return false;
            }
            if i + 1 < rounds && feedback.correct_position == 4 {
                return false;
            }
            i += 1;
        }
        true
    }

    /// Whether the game is still open.
    fn is_undecided(&self) -> (ok: bool)
        requires
            self@.feedbacks.len() == self.guess_count,
        ensures
            ok == self@.undecided(),
    {
        let rounds = self.feedbacks.len();
        self.winner.is_none() && self.guess_count < self.max_guesses && (rounds == 0
            || self.feedbacks[rounds - 1].correct_position != 4)
    }

    /// Whether the game was decided by its latest score.
    fn is_decided(&self) -> (ok: bool)
        ensures
            ok == self@.decided(),
    {
        let rounds = self.feedbacks.len();
        if rounds == 0 {
            return false;
        }
        if self.feedbacks[rounds - 1].correct_position == 4 {
            self.winner_is(&self.codebreaker)
        } else {
            self.guess_count == self.max_guesses && self.winner_is(&self.codemaker)
        }
    }

    /// Whether no commitment has been stored.
    fn has_zero_digest(&self) -> (ok: bool)
        ensures
            ok == (self@.commitment == zero_digest()),
    {
        let mut i: usize = 0;
        while i < DIGEST_LENGTH
            invariant
                i <= DIGEST_LENGTH,
                forall|j: int| 0 <= j < i ==> self.commitment@[j] == 0u8,
            decreases DIGEST_LENGTH - i,
        {
            if self.commitment[i] != 0 {
                assert(zero_digest()[i as int] == 0u8);
                return false;
            }
            i += 1;
        }
        assert(self@.commitment =~= zero_digest());
        true
    }

    /// Whether the record satisfies the invariant of a session.
    ///
    /// The fields of a session are public, so a record that was put together
    /// by hand, or read back from storage, need not be one that the
    /// operations produce. This is the test to make before such a record is
    /// handed to them.
    pub fn is_well_formed(&self) -> (ok: bool)
        ensures
            ok == self@.wf(),
    {
        if self.max_guesses != MAX_GUESSES || self.guess_count > self.max_guesses {
            return false;
        }
        if !self.has_rounds_recorded() {
            return false;
        }
        match self.phase {
            GamePhase::WaitingForCommitment => {
                self.guess_count == 0 && self.winner.is_none() && self.has_zero_digest()
            },
            GamePhase::WaitingForGuess => self.is_undecided(),
            GamePhase::WaitingForFeedback => self.is_undecided() && is_valid_guess(
                &self.current_guess,
            ),
            GamePhase::Finished => self.is_decided(),
        }
    }
}

/// Scoring the pending guess of a well-formed session that awaits a score
/// gives a well-formed session.
pub proof fn lemma_scored_wf(game: GameStateView, feedback: Feedback)
    requires
        game.wf(),
        game.phase == GamePhase::WaitingForFeedback,
        feedback.valid(),
    ensures
        game.scored(feedback).wf(),
{
    let after = game.scored(feedback);
    assert(after.feedbacks.last() == feedback);
    assert forall|i: int| 0 <= i < after.guesses.len() implies valid_guess(
        #[trigger] after.guesses[i],
    ) by {
        if i < game.guesses.len() {
            assert(after.guesses[i] == game.guesses[i]);
        }
    }
    assert forall|i: int| 0 <= i < after.feedbacks.len() implies (
    #[trigger] after.feedbacks[i]).valid() by {
        if i < game.feedbacks.len() {
            assert(after.feedbacks[i] == game.feedbacks[i]);
        }
    }
    assert forall|i: int| 0 <= i < after.feedbacks.len() - 1 implies !(
    #[trigger] after.feedbacks[i]).perfect() by {
        assert(after.feedbacks[i] == game.feedbacks[i]);
        if i == game.feedbacks.len() - 1 {
            assert(game.feedbacks[i] == game.feedbacks.last());
        }
    }
}

} // verus!
