use zkmind::{Address, DataKey, EndGame, Env, Error, GamePhase, GameState, ZKMindContract, GAME_TTL_LEDGERS, MAX_GUESSES};

fn who(name: &str) -> Address {
    Address::from_bytes(name.as_bytes().to_vec())
}

fn deployed() -> Env {
    let mut env = Env::new();
    ZKMindContract::__constructor(&mut env, who("admin"), who("hub"), who("verifier"));
    env
}

fn finished_game(env: &mut Env, correct_position: u32) {
    env.authorize(who("maker"));
    env.authorize(who("breaker"));
    ZKMindContract::new_game(env, 1, who("maker"), who("breaker")).unwrap();
    ZKMindContract::commit_code(env, 1, who("maker"), [0xAB; 32]).unwrap();
    for _ in 0..MAX_GUESSES {
        let game = ZKMindContract::get_game(env, 1).unwrap();
        if game.phase == GamePhase::Finished {
            break;
        }
        ZKMindContract::submit_guess(env, 1, who("breaker"), vec![0, 1, 2, 3]).unwrap();
        ZKMindContract::submit_feedback(env, 1, who("maker"), correct_position, 0, [0xCD; 32])
            .unwrap();
    }
}

#[test]
fn constants() {
    assert_eq!(GAME_TTL_LEDGERS, 518_400);
    assert_eq!(MAX_GUESSES, 12);
}

#[test]
fn identities_are_their_bytes() {
    let a = Address::from_bytes(vec![1, 2, 3]);
    let b = Address::from_bytes(vec![1, 2, 3]);
    let c = Address::from_bytes(vec![1, 2, 4]);
    let d = Address::from_bytes(vec![1, 2]);
    assert_eq!(a, b);
    assert_ne!(a, c);
    assert_ne!(a, d);
    assert_eq!(a.clone(), a);
    assert_eq!(a.to_bytes(), vec![1, 2, 3]);
    assert_eq!(Address::from_bytes(vec![]), Address::from_bytes(vec![]));
}

#[test]
fn new_environment_is_empty() {
    let env = Env::new();
    assert_eq!(env.ledger_sequence(), 0);
    assert_eq!(env.stored_admin(), None);
    assert_eq!(env.stored_game_hub(), None);
    assert_eq!(env.stored_verifier(), None);
    assert_eq!(env.executable(), [0u8; 32]);
    assert!(!env.has(&DataKey::Admin));
    assert!(!env.has(&DataKey::GameHubAddress));
    assert!(!env.has(&DataKey::VerifierAddress));
    assert!(!env.has(&DataKey::Game(0)));
    assert!(!env.is_authorized(&who("anybody")));
    assert!(!env.is_admin_authorized());
    assert_eq!(env.game(0), None);
    assert_eq!(env.live_until(0), None);
}

#[test]
fn constructor_configures_the_arbiter() {
    let env = deployed();
    assert_eq!(ZKMindContract::get_admin(&env), who("admin"));
    assert_eq!(ZKMindContract::get_verifier(&env), who("verifier"));
    assert_eq!(env.stored_game_hub(), Some(who("hub")));
    assert!(env.has(&DataKey::Admin));
    assert!(env.has(&DataKey::GameHubAddress));
    assert!(env.has(&DataKey::VerifierAddress));
}

#[test]
fn authorizations_are_recorded_and_cleared() {
    let mut env = deployed();
    assert!(!env.is_authorized(&who("maker")));
    assert!(!env.is_admin_authorized());
    env.authorize(who("maker"));
    assert!(env.is_authorized(&who("maker")));
    assert!(!env.is_authorized(&who("breaker")));
    assert!(!env.is_admin_authorized());
    env.authorize(who("admin"));
    assert!(env.is_admin_authorized());
    env.clear_authorizations();
    assert!(!env.is_authorized(&who("maker")));
    assert!(!env.is_admin_authorized());
}

#[test]
fn administrator_reconfigures() {
    let mut env = deployed();
    env.authorize(who("admin"));

    ZKMindContract::set_verifier(&mut env, who("verifier 2"));
    assert_eq!(ZKMindContract::get_verifier(&env), who("verifier 2"));
    assert_eq!(ZKMindContract::get_admin(&env), who("admin"));

    ZKMindContract::set_hub(&mut env, who("hub 2"));
    assert_eq!(env.stored_game_hub(), Some(who("hub 2")));

    ZKMindContract::upgrade(&mut env, [7; 32]);
    assert_eq!(env.executable(), [7; 32]);

    ZKMindContract::set_admin(&mut env, who("admin 2"));
    assert_eq!(ZKMindContract::get_admin(&env), who("admin 2"));
    // the old administrator's authorization is of no use any more
    assert!(!env.is_admin_authorized());
    env.authorize(who("admin 2"));
    assert!(env.is_admin_authorized());

    assert_eq!(ZKMindContract::get_verifier(&env), who("verifier 2"));
    assert_eq!(env.stored_game_hub(), Some(who("hub 2")));
}

#[test]
fn configuration_leaves_sessions_alone() {
    let mut env = deployed();
    env.authorize(who("admin"));
    env.authorize(who("maker"));
    env.authorize(who("breaker"));
    ZKMindContract::new_game(&mut env, 5, who("maker"), who("breaker")).unwrap();
    let before = ZKMindContract::get_game(&env, 5).unwrap();
    ZKMindContract::set_admin(&mut env, who("maker"));
    ZKMindContract::set_hub(&mut env, who("hub 2"));
    ZKMindContract::set_verifier(&mut env, who("verifier 2"));
    ZKMindContract::upgrade(&mut env, [1; 32]);
    assert_eq!(ZKMindContract::get_game(&env, 5).unwrap(), before);
    assert_eq!(env.live_until(5), Some(518_400));
}

#[test]
fn clock_never_moves_back() {
    let mut env = Env::new();
    env.advance_to(10);
    assert_eq!(env.ledger_sequence(), 10);
    env.advance_to(5);
    assert_eq!(env.ledger_sequence(), 10);
    env.advance_to(10);
    assert_eq!(env.ledger_sequence(), 10);
    env.advance_to(u32::MAX);
    assert_eq!(env.ledger_sequence(), u32::MAX);
}

#[test]
fn session_lives_for_its_lifetime_after_a_write() {
    let mut env = deployed();
    env.authorize(who("maker"));
    env.authorize(who("breaker"));
    env.advance_to(100);
    ZKMindContract::new_game(&mut env, 1, who("maker"), who("breaker")).unwrap();
    assert_eq!(env.live_until(1), Some(100 + 518_400));
    assert!(env.has(&DataKey::Game(1)));

    // a write renews the lifetime
    env.advance_to(1_000);
    ZKMindContract::commit_code(&mut env, 1, who("maker"), [0xAB; 32]).unwrap();
    assert_eq!(env.live_until(1), Some(1_000 + 518_400));

    // a rejected call, and a read, do not
    env.advance_to(2_000);
    assert_eq!(
        ZKMindContract::commit_code(&mut env, 1, who("maker"), [0xAB; 32]),
        Err(Error::InvalidPhase)
    );
    assert!(ZKMindContract::get_game(&env, 1).is_ok());
    assert_eq!(env.live_until(1), Some(1_000 + 518_400));

    // live through the last ledger of its lifetime
    env.advance_to(1_000 + 518_400);
    assert!(ZKMindContract::get_game(&env, 1).is_ok());
    assert!(env.has(&DataKey::Game(1)));

    // and gone at the next
    env.advance_to(1_000 + 518_400 + 1);
    assert_eq!(ZKMindContract::get_game(&env, 1), Err(Error::GameNotFound));
    assert!(!env.has(&DataKey::Game(1)));
    assert_eq!(env.live_until(1), None);
    assert_eq!(env.game(1), None);
}

#[test]
fn lapsed_session_is_like_one_never_created() {
    let mut env = deployed();
    env.authorize(who("maker"));
    env.authorize(who("breaker"));
    ZKMindContract::new_game(&mut env, 1, who("maker"), who("breaker")).unwrap();
    ZKMindContract::commit_code(&mut env, 1, who("maker"), [0xAB; 32]).unwrap();
    ZKMindContract::submit_guess(&mut env, 1, who("breaker"), vec![0, 1, 2, 3]).unwrap();
    env.advance_to(518_401);

    assert_eq!(ZKMindContract::get_game(&env, 1), Err(Error::GameNotFound));
    assert_eq!(
        ZKMindContract::commit_code(&mut env, 1, who("maker"), [0xAB; 32]),
        Err(Error::GameNotFound)
    );
    assert_eq!(
        ZKMindContract::submit_guess(&mut env, 1, who("breaker"), vec![0, 1, 2, 3]),
        Err(Error::GameNotFound)
    );
    assert_eq!(
        ZKMindContract::submit_feedback(&mut env, 1, who("maker"), 4, 0, [0xCD; 32]),
        Err(Error::GameNotFound)
    );
    assert_eq!(ZKMindContract::report_result(&env, 1), Err(Error::GameNotFound));
    assert_eq!(ZKMindContract::get_game(&env, 1), Err(Error::GameNotFound));

    // the id can be used anew, and the new session owes nothing to the old
    ZKMindContract::new_game(&mut env, 1, who("maker"), who("breaker")).unwrap();
    let game = ZKMindContract::get_game(&env, 1).unwrap();
    assert_eq!(game, GameState::new(1, who("maker"), who("breaker")));
    assert_eq!(env.live_until(1), Some(518_401 + 518_400));
}

#[test]
fn session_written_at_the_last_ledger_has_its_full_lifetime() {
    let mut env = Env::new();
    env.authorize(who("maker"));
    env.authorize(who("breaker"));
    env.advance_to(u32::MAX);
    ZKMindContract::new_game(&mut env, 1, who("maker"), who("breaker")).unwrap();
    assert_eq!(env.live_until(1), Some(u32::MAX as u64 + 518_400));
    assert!(ZKMindContract::get_game(&env, 1).is_ok());
}

#[test]
fn put_game_stores_under_the_games_id() {
    let mut env = Env::new();
    env.advance_to(3);
    let mut game = GameState::new(9, who("maker"), who("breaker"));
    game.commit_code(&who("maker"), [4; 32]).unwrap();
    assert!(game.is_well_formed());
    env.put_game(game.clone());
    assert_eq!(env.game(9), Some(game));
    assert_eq!(env.game(1), None);
    assert_eq!(env.live_until(9), Some(3 + 518_400));
}

#[test]
fn report_names_the_hub_and_the_winner() {
    let mut env = deployed();
    finished_game(&mut env, 4);
    assert_eq!(
        ZKMindContract::report_result(&env, 1),
        Ok(EndGame { game_hub: who("hub"), session_id: 1, player1_won: false })
    );
    // asking again gives the same notice again
    assert_eq!(
        ZKMindContract::report_result(&env, 1),
        Ok(EndGame { game_hub: who("hub"), session_id: 1, player1_won: false })
    );

    let mut env = deployed();
    finished_game(&mut env, 3);
    let game = ZKMindContract::get_game(&env, 1).unwrap();
    assert_eq!(game.guess_count, 12);
    assert_eq!(
        ZKMindContract::report_result(&env, 1),
        Ok(EndGame { game_hub: who("hub"), session_id: 1, player1_won: true })
    );

    // the hub that is configured when the notice is made out
    env.authorize(who("admin"));
    ZKMindContract::set_hub(&mut env, who("hub 2"));
    assert_eq!(
        ZKMindContract::report_result(&env, 1),
        Ok(EndGame { game_hub: who("hub 2"), session_id: 1, player1_won: true })
    );
}

#[test]
fn report_leaves_the_session_as_it_is() {
    let mut env = deployed();
    finished_game(&mut env, 4);
    let before = ZKMindContract::get_game(&env, 1).unwrap();
    let until = env.live_until(1);
    ZKMindContract::report_result(&env, 1).unwrap();
    assert_eq!(ZKMindContract::get_game(&env, 1).unwrap(), before);
    assert_eq!(env.live_until(1), until);
}

#[test]
fn same_party_may_play_both_sides() {
    let mut env = Env::new();
    env.authorize(who("solo"));
    ZKMindContract::new_game(&mut env, 1, who("solo"), who("solo")).unwrap();
    ZKMindContract::commit_code(&mut env, 1, who("solo"), [1; 32]).unwrap();
    ZKMindContract::submit_guess(&mut env, 1, who("solo"), vec![0, 0, 0, 0]).unwrap();
    ZKMindContract::submit_feedback(&mut env, 1, who("solo"), 4, 0, [2; 32]).unwrap();
    let game = ZKMindContract::get_game(&env, 1).unwrap();
    assert_eq!(game.winner, Some(who("solo")));
    assert!(game.codemaker_won());
}
