use zkmind::{Address, Env, Error, GamePhase, ZKMindContract};

fn party(name: &str) -> Address {
    Address::from_bytes(name.as_bytes().to_vec())
}

fn setup_test() -> (Env, Address, Address) {
    let mut env = Env::new();

    let admin = party("admin");
    let game_hub = party("game hub");
    let verifier = party("verifier");
    ZKMindContract::__constructor(&mut env, admin.clone(), game_hub, verifier);

    let codemaker = party("codemaker");
    let codebreaker = party("codebreaker");
    env.authorize(admin);
    env.authorize(codemaker.clone());
    env.authorize(codebreaker.clone());

    (env, codemaker, codebreaker)
}

fn play_round(env: &mut Env, codemaker: &Address, codebreaker: &Address, guess: Vec<u32>, p: u32, c: u32) {
    ZKMindContract::submit_guess(env, 1, codebreaker.clone(), guess).unwrap();
    ZKMindContract::submit_feedback(env, 1, codemaker.clone(), p, c, [0xCDu8; 32]).unwrap();
}

#[test]
fn test_new_game_and_commit() {
    let (mut env, codemaker, codebreaker) = setup_test();

    ZKMindContract::new_game(&mut env, 1u32, codemaker.clone(), codebreaker.clone()).unwrap();

    let game = ZKMindContract::get_game(&env, 1u32).unwrap();
    assert_eq!(game.phase, GamePhase::WaitingForCommitment);
    assert_eq!(game.codemaker, codemaker);
    assert_eq!(game.codebreaker, codebreaker);

    // Commit a code hash
    let commitment = [0xABu8; 32];
    ZKMindContract::commit_code(&mut env, 1u32, codemaker.clone(), commitment).unwrap();

    let game = ZKMindContract::get_game(&env, 1u32).unwrap();
    assert_eq!(game.phase, GamePhase::WaitingForGuess);
    assert_eq!(game.commitment, commitment);
}

#[test]
fn test_full_game_codebreaker_wins() {
    let (mut env, codemaker, codebreaker) = setup_test();

    ZKMindContract::new_game(&mut env, 1u32, codemaker.clone(), codebreaker.clone()).unwrap();

    let commitment = [0xABu8; 32];
    ZKMindContract::commit_code(&mut env, 1u32, codemaker.clone(), commitment).unwrap();

    // Submit a guess
    let mut guess = Vec::new();
    guess.push(0u32);
    guess.push(1u32);
    guess.push(2u32);
    guess.push(3u32);
    ZKMindContract::submit_guess(&mut env, 1u32, codebreaker.clone(), guess).unwrap();

    let game = ZKMindContract::get_game(&env, 1u32).unwrap();
    assert_eq!(game.phase, GamePhase::WaitingForFeedback);

    // Submit feedback: perfect match (4 red pegs)
    let proof_hash = [0xCDu8; 32];
    ZKMindContract::submit_feedback(&mut env, 1u32, codemaker.clone(), 4u32, 0u32, proof_hash)
        .unwrap();

    let game = ZKMindContract::get_game(&env, 1u32).unwrap();
    assert_eq!(game.phase, GamePhase::Finished);
    assert_eq!(game.winner, Some(codebreaker));
    assert_eq!(game.guess_count, 1);
}

#[test]
fn test_game_continues_after_partial_match() {
    let (mut env, codemaker, codebreaker) = setup_test();

    ZKMindContract::new_game(&mut env, 1u32, codemaker.clone(), codebreaker.clone()).unwrap();

    let commitment = [0xABu8; 32];
    ZKMindContract::commit_code(&mut env, 1u32, codemaker.clone(), commitment).unwrap();

    // Submit guess
    let mut guess = Vec::new();
    guess.push(0u32);
    guess.push(1u32);
    guess.push(2u32);
    guess.push(3u32);
    ZKMindContract::submit_guess(&mut env, 1u32, codebreaker.clone(), guess).unwrap();

    // Partial match: 1 red, 2 white
    let proof_hash = [0xCDu8; 32];
    ZKMindContract::submit_feedback(&mut env, 1u32, codemaker.clone(), 1u32, 2u32, proof_hash)
        .unwrap();

    let game = ZKMindContract::get_game(&env, 1u32).unwrap();
    assert_eq!(game.phase, GamePhase::WaitingForGuess);
    assert_eq!(game.guess_count, 1);
    assert_eq!(game.feedbacks.len(), 1);
}

#[test]
fn new_game_is_found_as_created() {
    let (mut env, codemaker, codebreaker) = setup_test();
    assert_eq!(
        ZKMindContract::new_game(&mut env, 7, codemaker.clone(), codebreaker.clone()),
        Ok(())
    );

    let game = ZKMindContract::get_game(&env, 7).unwrap();
    assert_eq!(game.session_id, 7);
    assert_eq!(game.codemaker, codemaker);
    assert_eq!(game.codebreaker, codebreaker);
    assert_eq!(game.phase, GamePhase::WaitingForCommitment);
    assert_eq!(game.commitment, [0u8; 32]);
    assert!(game.guesses.is_empty());
    assert!(game.feedbacks.is_empty());
    assert_eq!(game.guess_count, 0);
    assert_eq!(game.max_guesses, 12);
    assert_eq!(game.winner, None);
    assert!(game.current_guess.is_empty());
    assert!(game.is_well_formed());
}

#[test]
fn new_game_replaces_a_live_session() {
    let (mut env, codemaker, codebreaker) = setup_test();
    ZKMindContract::new_game(&mut env, 1, codemaker.clone(), codebreaker.clone()).unwrap();
    ZKMindContract::commit_code(&mut env, 1, codemaker.clone(), [1u8; 32]).unwrap();

    ZKMindContract::new_game(&mut env, 1, codebreaker.clone(), codemaker.clone()).unwrap();
    let game = ZKMindContract::get_game(&env, 1).unwrap();
    assert_eq!(game.phase, GamePhase::WaitingForCommitment);
    assert_eq!(game.codemaker, codebreaker);
    assert_eq!(game.codebreaker, codemaker);
    assert_eq!(game.commitment, [0u8; 32]);
}

#[test]
fn second_commit_is_rejected_with_invalid_phase() {
    let (mut env, codemaker, codebreaker) = setup_test();
    ZKMindContract::new_game(&mut env, 1, codemaker.clone(), codebreaker.clone()).unwrap();
    assert_eq!(ZKMindContract::commit_code(&mut env, 1, codemaker.clone(), [0xAB; 32]), Ok(()));
    assert_eq!(
        ZKMindContract::commit_code(&mut env, 1, codemaker.clone(), [0x11; 32]),
        Err(Error::InvalidPhase)
    );
    // also for somebody else: the phase is tested first
    assert_eq!(
        ZKMindContract::commit_code(&mut env, 1, codebreaker.clone(), [0x11; 32]),
        Err(Error::InvalidPhase)
    );
    let game = ZKMindContract::get_game(&env, 1).unwrap();
    assert_eq!(game.commitment, [0xAB; 32]);
    assert_eq!(game.phase, GamePhase::WaitingForGuess);
}

#[test]
fn guess_is_pending_until_it_is_scored() {
    let (mut env, codemaker, codebreaker) = setup_test();
    ZKMindContract::new_game(&mut env, 1, codemaker.clone(), codebreaker.clone()).unwrap();
    ZKMindContract::commit_code(&mut env, 1, codemaker.clone(), [0xAB; 32]).unwrap();
    ZKMindContract::submit_guess(&mut env, 1, codebreaker.clone(), vec![5, 4, 3, 2]).unwrap();

    let game = ZKMindContract::get_game(&env, 1).unwrap();
    assert_eq!(game.phase, GamePhase::WaitingForFeedback);
    assert_eq!(game.current_guess, vec![5, 4, 3, 2]);
    assert!(game.guesses.is_empty());
    assert!(game.feedbacks.is_empty());
    assert_eq!(game.guess_count, 0);

    ZKMindContract::submit_feedback(&mut env, 1, codemaker.clone(), 0, 4, [0xCD; 32]).unwrap();
    let game = ZKMindContract::get_game(&env, 1).unwrap();
    assert_eq!(game.guesses, vec![vec![5, 4, 3, 2]]);
    assert_eq!(game.feedbacks.len(), 1);
    assert_eq!(game.feedbacks[0].correct_position, 0);
    assert_eq!(game.feedbacks[0].correct_color, 4);
    assert_eq!(game.feedbacks[0].proof_hash, [0xCD; 32]);
    assert_eq!(game.current_guess, vec![5, 4, 3, 2]);
}

#[test]
fn perfect_match_ends_the_game_for_the_codebreaker() {
    let (mut env, codemaker, codebreaker) = setup_test();
    ZKMindContract::new_game(&mut env, 1, codemaker.clone(), codebreaker.clone()).unwrap();
    ZKMindContract::commit_code(&mut env, 1, codemaker.clone(), [0xAB; 32]).unwrap();
    play_round(&mut env, &codemaker, &codebreaker, vec![0, 1, 2, 3], 4, 0);

    let game = ZKMindContract::get_game(&env, 1).unwrap();
    assert_eq!(game.phase, GamePhase::Finished);
    assert_eq!(game.winner, Some(codebreaker.clone()));
    assert_eq!(game.guess_count, 1);
    assert!(!game.codemaker_won());
    assert!(game.is_well_formed());
}

#[test]
fn partial_match_opens_the_next_round() {
    let (mut env, codemaker, codebreaker) = setup_test();
    ZKMindContract::new_game(&mut env, 1, codemaker.clone(), codebreaker.clone()).unwrap();
    ZKMindContract::commit_code(&mut env, 1, codemaker.clone(), [0xAB; 32]).unwrap();
    play_round(&mut env, &codemaker, &codebreaker, vec![0, 1, 2, 3], 1, 2);

    let game = ZKMindContract::get_game(&env, 1).unwrap();
    assert_eq!(game.phase, GamePhase::WaitingForGuess);
    assert_eq!(game.guess_count, 1);
    assert_eq!(game.feedbacks.len(), 1);
    assert_eq!(game.winner, None);
}

#[test]
fn twelfth_round_ends_the_game_for_the_codemaker() {
    let (mut env, codemaker, codebreaker) = setup_test();
    ZKMindContract::new_game(&mut env, 1, codemaker.clone(), codebreaker.clone()).unwrap();
    ZKMindContract::commit_code(&mut env, 1, codemaker.clone(), [0xAB; 32]).unwrap();

    for round in 1..=11u32 {
        play_round(&mut env, &codemaker, &codebreaker, vec![round % 6, 1, 2, 3], round % 4, 0);
        let game = ZKMindContract::get_game(&env, 1).unwrap();
        assert_eq!(game.phase, GamePhase::WaitingForGuess);
        assert_eq!(game.winner, None);
        assert_eq!(game.guess_count, round);
        assert_eq!(game.guesses.len(), round as usize);
        assert_eq!(game.feedbacks.len(), round as usize);
    }
    play_round(&mut env, &codemaker, &codebreaker, vec![5, 5, 5, 5], 3, 0);

    let game = ZKMindContract::get_game(&env, 1).unwrap();
    assert_eq!(game.phase, GamePhase::Finished);
    assert_eq!(game.winner, Some(codemaker.clone()));
    assert_eq!(game.guess_count, 12);
    assert_eq!(game.guesses.len(), 12);
    assert_eq!(game.feedbacks.len(), 12);
    assert!(game.codemaker_won());
    assert!(game.is_well_formed());

    // the game is over: nothing more is accepted
    assert_eq!(
        ZKMindContract::submit_guess(&mut env, 1, codebreaker.clone(), vec![0, 0, 0, 0]),
        Err(Error::InvalidPhase)
    );
    assert_eq!(
        ZKMindContract::submit_feedback(&mut env, 1, codemaker.clone(), 0, 0, [0; 32]),
        Err(Error::InvalidPhase)
    );
}

#[test]
fn perfect_match_in_the_twelfth_round_is_the_codebreakers() {
    let (mut env, codemaker, codebreaker) = setup_test();
    ZKMindContract::new_game(&mut env, 1, codemaker.clone(), codebreaker.clone()).unwrap();
    ZKMindContract::commit_code(&mut env, 1, codemaker.clone(), [0xAB; 32]).unwrap();
    for _ in 0..11 {
        play_round(&mut env, &codemaker, &codebreaker, vec![0, 0, 0, 0], 0, 0);
    }
    play_round(&mut env, &codemaker, &codebreaker, vec![1, 2, 3, 4], 4, 0);

    let game = ZKMindContract::get_game(&env, 1).unwrap();
    assert_eq!(game.phase, GamePhase::Finished);
    assert_eq!(game.guess_count, 12);
    assert_eq!(game.winner, Some(codebreaker));
}

#[test]
fn sessions_do_not_touch_one_another() {
    let (mut env, codemaker, codebreaker) = setup_test();
    ZKMindContract::new_game(&mut env, 1, codemaker.clone(), codebreaker.clone()).unwrap();
    ZKMindContract::new_game(&mut env, 2, codebreaker.clone(), codemaker.clone()).unwrap();
    ZKMindContract::commit_code(&mut env, 1, codemaker.clone(), [0xAB; 32]).unwrap();

    let one = ZKMindContract::get_game(&env, 1).unwrap();
    let two = ZKMindContract::get_game(&env, 2).unwrap();
    assert_eq!(one.phase, GamePhase::WaitingForGuess);
    assert_eq!(two.phase, GamePhase::WaitingForCommitment);
    assert_eq!(two.session_id, 2);
    assert_eq!(two.codemaker, codebreaker);
}
