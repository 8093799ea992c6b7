use tycoon::contract::TycoonMainGame;
use tycoon::game::{Game, GameMode, GameSettings, Identity};
use tycoon::types::GameStatus;

fn addr(name: &str) -> Identity {
    Identity::new(name.to_string())
}

fn setup_contract() -> (TycoonMainGame, Identity, Identity, Identity) {
    (
        TycoonMainGame::new(),
        addr("GOWNER"),
        addr("GREWARDSYSTEM"),
        addr("CUSDCTOKEN"),
    )
}

fn make_settings() -> GameSettings {
    GameSettings {
        max_players: 4,
        auction: false,
        starting_cash: 1500,
        private_room_code: String::new(),
    }
}

fn make_game(id: u64, creator: Identity) -> Game {
    Game {
        id,
        code: "ABC123".to_string(),
        creator: creator.clone(),
        status: GameStatus::Pending,
        winner: None,
        number_of_players: 4,
        joined_players: vec![creator],
        mode: GameMode::Public,
        ai: false,
        stake_per_player: 100,
        total_staked: 100,
        created_at: 1_000_000,
        ended_at: 0,
    }
}

#[test]
fn test_game_settings_stores_and_retrieves() {
    let (mut c, _, _, _) = setup_contract();
    c.set_game_settings(1, make_settings());
    let retrieved = c.get_game_settings(1).expect("Settings not found");
    assert_eq!(retrieved.max_players, 4);
    assert_eq!(retrieved.auction, false);
    assert_eq!(retrieved.starting_cash, 1500);
    assert_eq!(retrieved.private_room_code, "");
}

#[test]
fn test_game_settings_private_room_code_stored() {
    let (mut c, _, _, _) = setup_contract();
    let settings = GameSettings {
        max_players: 2,
        auction: true,
        starting_cash: 2000,
        private_room_code: "SECRET99".to_string(),
    };
    c.set_game_settings(42, settings);
    let retrieved = c.get_game_settings(42).unwrap();
    assert_eq!(retrieved.private_room_code, "SECRET99");
    assert_eq!(retrieved.auction, true);
    assert_eq!(retrieved.max_players, 2);
    assert_eq!(retrieved.starting_cash, 2000);
}

#[test]
fn test_game_settings_returns_none_for_unknown_id() {
    let (c, _, _, _) = setup_contract();
    assert!(c.get_game_settings(999).is_none());
}

#[test]
fn test_game_settings_overwrite() {
    let (mut c, _, _, _) = setup_contract();
    let v1 = GameSettings {
        max_players: 4,
        auction: false,
        starting_cash: 1500,
        private_room_code: String::new(),
    };
    c.set_game_settings(1, v1);
    let v2 = GameSettings {
        max_players: 6,
        auction: true,
        starting_cash: 3000,
        private_room_code: "NEWCODE".to_string(),
    };
    c.set_game_settings(1, v2);
    let retrieved = c.get_game_settings(1).unwrap();
    assert_eq!(retrieved.max_players, 6);
    assert_eq!(retrieved.starting_cash, 3000);
    assert_eq!(retrieved.private_room_code, "NEWCODE");
}

#[test]
fn test_game_stores_and_retrieves_all_fields() {
    let (mut c, _, _, _) = setup_contract();
    let creator = addr("GCREATOR");
    c.set_game(make_game(1, creator.clone()));
    let retrieved = c.get_game(1).expect("Game not found");
    assert_eq!(retrieved.id, 1);
    assert_eq!(retrieved.code, "ABC123");
    assert_eq!(retrieved.creator, creator);
    assert_eq!(retrieved.status, GameStatus::Pending);
    assert_eq!(retrieved.winner, None);
    assert_eq!(retrieved.number_of_players, 4);
    assert_eq!(retrieved.joined_players.len(), 1);
    assert_eq!(retrieved.mode, GameMode::Public);
    assert_eq!(retrieved.ai, false);
    assert_eq!(retrieved.stake_per_player, 100);
    assert_eq!(retrieved.total_staked, 100);
    assert_eq!(retrieved.created_at, 1_000_000);
    assert_eq!(retrieved.ended_at, 0);
}

#[test]
fn test_game_returns_none_for_unknown_id() {
    let (c, _, _, _) = setup_contract();
    assert!(c.get_game(404).is_none());
}

#[test]
fn test_game_status_transitions_stored_correctly() {
    let (mut c, _, _, _) = setup_contract();
    let mut game = make_game(1, addr("GCREATOR"));

    c.set_game(game.clone());
    assert_eq!(c.get_game(1).unwrap().status, GameStatus::Pending);

    game.status = GameStatus::Ongoing;
    c.set_game(game.clone());
    assert_eq!(c.get_game(1).unwrap().status, GameStatus::Ongoing);

    game.status = GameStatus::Ended;
    game.ended_at = 2_000_000;
    c.set_game(game.clone());
    let ended = c.get_game(1).unwrap();
    assert_eq!(ended.status, GameStatus::Ended);
    assert_eq!(ended.ended_at, 2_000_000);
}

#[test]
fn test_game_winner_stored_correctly() {
    let (mut c, _, _, _) = setup_contract();
    let winner = addr("GWINNER");
    let mut game = make_game(1, addr("GCREATOR"));
    game.status = GameStatus::Ended;
    game.winner = Some(winner.clone());
    game.ended_at = 5_000_000;

    c.set_game(game);
    let retrieved = c.get_game(1).unwrap();
    assert_eq!(retrieved.winner, Some(winner));
    assert_eq!(retrieved.ended_at, 5_000_000);
}

#[test]
fn test_game_joined_players_stored_correctly() {
    let (mut c, _, _, _) = setup_contract();
    let creator = addr("GCREATOR");
    let player2 = addr("GPLAYER2");
    let player3 = addr("GPLAYER3");

    let game = Game {
        id: 1,
        code: "XYZ789".to_string(),
        creator: creator.clone(),
        status: GameStatus::Ongoing,
        winner: None,
        number_of_players: 4,
        joined_players: vec![creator.clone(), player2.clone(), player3.clone()],
        mode: GameMode::Public,
        ai: false,
        stake_per_player: 0,
        total_staked: 0,
        created_at: 1_000,
        ended_at: 0,
    };

    c.set_game(game);
    let retrieved = c.get_game(1).unwrap();
    assert_eq!(retrieved.joined_players.len(), 3);
    assert_eq!(retrieved.joined_players.get(0), Some(&creator));
    assert_eq!(retrieved.joined_players.get(1), Some(&player2));
    assert_eq!(retrieved.joined_players.get(2), Some(&player3));
}

#[test]
fn test_game_ai_flag_stored() {
    let (mut c, _, _, _) = setup_contract();
    let mut game = make_game(1, addr("GCREATOR"));
    game.ai = true;
    c.set_game(game);
    assert!(c.get_game(1).unwrap().ai);
}

#[test]
fn test_game_private_mode_stored() {
    let (mut c, _, _, _) = setup_contract();
    let mut game = make_game(1, addr("GCREATOR"));
    game.mode = GameMode::Private;
    c.set_game(game);
    assert_eq!(c.get_game(1).unwrap().mode, GameMode::Private);
}

#[test]
fn test_game_staking_fields_stored() {
    let (mut c, _, _, _) = setup_contract();
    let mut game = make_game(1, addr("GCREATOR"));
    game.stake_per_player = 500;
    game.total_staked = 2000;
    c.set_game(game);
    let retrieved = c.get_game(1).unwrap();
    assert_eq!(retrieved.stake_per_player, 500);
    assert_eq!(retrieved.total_staked, 2000);
}

#[test]
fn test_multiple_games_stored_independently() {
    let (mut c, _, _, _) = setup_contract();
    let creator1 = addr("GCREATOR1");
    let creator2 = addr("GCREATOR2");

    let game1 = make_game(1, creator1.clone());
    let mut game2 = make_game(2, creator2.clone());
    game2.code = "GAME2X".to_string();
    game2.mode = GameMode::Private;
    game2.stake_per_player = 250;

    c.set_game(game1);
    c.set_game(game2);

    let r1 = c.get_game(1).unwrap();
    let r2 = c.get_game(2).unwrap();

    assert_eq!(r1.id, 1);
    assert_eq!(r1.creator, creator1);
    assert_eq!(r1.mode, GameMode::Public);

    assert_eq!(r2.id, 2);
    assert_eq!(r2.creator, creator2);
    assert_eq!(r2.mode, GameMode::Private);
    assert_eq!(r2.stake_per_player, 250);
    assert_eq!(r2.code, "GAME2X");
}

#[test]
fn test_game_and_settings_stored_independently_for_same_id() {
    let (mut c, _, _, _) = setup_contract();
    let settings = GameSettings {
        max_players: 4,
        auction: true,
        starting_cash: 2000,
        private_room_code: "ROOM1".to_string(),
    };
    c.set_game(make_game(1, addr("GCREATOR")));
    c.set_game_settings(1, settings);

    let retrieved_game = c.get_game(1).unwrap();
    let retrieved_settings = c.get_game_settings(1).unwrap();

    assert_eq!(retrieved_game.id, 1);
    assert_eq!(retrieved_settings.max_players, 4);
    assert_eq!(retrieved_settings.auction, true);
}

#[test]
fn test_next_game_id_increments() {
    let (mut c, _, _, _) = setup_contract();
    assert_eq!(c.next_game_id(), 1);
    assert_eq!(c.next_game_id(), 2);
    assert_eq!(c.next_game_id(), 3);
}

#[test]
fn test_get_game_via_contract_view() {
    let (mut c, owner, reward_system, usdc_token) = setup_contract();
    c.initialize(owner, reward_system, usdc_token, true).unwrap();
    c.set_game(make_game(1, addr("GCREATOR")));
    let retrieved = c.get_game(1).expect("Game not returned");
    assert_eq!(retrieved.id, 1);
    assert_eq!(retrieved.status, GameStatus::Pending);
}

#[test]
fn test_get_game_settings_via_contract_view() {
    let (mut c, owner, reward_system, usdc_token) = setup_contract();
    c.initialize(owner, reward_system, usdc_token, true).unwrap();
    c.set_game_settings(1, make_settings());
    let retrieved = c.get_game_settings(1).expect("Settings not returned");
    assert_eq!(retrieved.max_players, 4);
    assert_eq!(retrieved.starting_cash, 1500);
}

#[test]
fn test_get_game_returns_none_for_unknown_via_contract() {
    let (mut c, owner, reward_system, usdc_token) = setup_contract();
    c.initialize(owner, reward_system, usdc_token, true).unwrap();
    assert!(c.get_game(999).is_none());
}

#[test]
fn test_initialize_stores_all_values() {
    let (mut c, owner, reward_system, usdc_token) = setup_contract();
    c.initialize(owner.clone(), reward_system.clone(), usdc_token.clone(), true)
        .unwrap();
    assert_eq!(c.get_owner(), owner);
    assert_eq!(c.get_reward_system(), reward_system);
    assert_eq!(c.get_usdc_token(), usdc_token);
}
