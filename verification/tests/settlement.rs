use equinox::engine::PositionStatus;
use equinox::payout::Difficulty;
use equinox::payout::MAX_STAKE;
use equinox::session::GameAccount;
use equinox::session::GameError;
use equinox::session::SettlementOutcome;
use equinox::session::make_move;
use equinox::session::settle_move;
use equinox::session::start_game;

fn fresh_account(difficulty: Difficulty, stake: u64, move_count: u64, is_active: bool) -> GameAccount {
    GameAccount {
        player: [7u8; 32],
        difficulty,
        stake,
        move_count,
        board: chess::Game::new(),
        is_active,
    }
}

#[test]
fn start_game_rejects_zero_stake() {
    assert!(matches!(start_game([1u8; 32], 0, 0), Err(GameError::InvalidArgument)));
    assert!(matches!(start_game([1u8; 32], 2, 0), Err(GameError::InvalidArgument)));
}

#[test]
fn start_game_rejects_oversized_stake() {
    assert!(matches!(
        start_game([1u8; 32], 0, MAX_STAKE + 1),
        Err(GameError::InvalidArgument)
    ));
    assert!(matches!(
        start_game([1u8; 32], 0, u64::MAX),
        Err(GameError::InvalidArgument)
    ));
    let acc = start_game([1u8; 32], 0, MAX_STAKE).unwrap();
    assert_eq!(acc.stake, MAX_STAKE);
}

#[test]
fn start_game_rejects_unknown_difficulty() {
    assert!(matches!(start_game([1u8; 32], 3, 1000), Err(GameError::InvalidArgument)));
    assert!(matches!(start_game([1u8; 32], 200, 1000), Err(GameError::InvalidArgument)));
}

#[test]
fn start_game_initializes_active_session() {
    let acc = start_game([9u8; 32], 1, 500).unwrap();
    assert_eq!(acc.player, [9u8; 32]);
    assert_eq!(acc.difficulty, Difficulty::Medium);
    assert_eq!(acc.stake, 500);
    assert_eq!(acc.move_count, 0);
    assert!(acc.is_active);
}

#[test]
fn inactive_session_rejects_moves() {
    let mut acc = fresh_account(Difficulty::Easy, 1000, 5, false);
    assert_eq!(make_move(&mut acc, "e4"), Err(GameError::SessionInactive));
    assert_eq!(acc.move_count, 5);
    assert!(!acc.is_active);
}

#[test]
fn illegal_move_leaves_session_unchanged() {
    let mut acc = start_game([2u8; 32], 0, 1000).unwrap();
    assert_eq!(make_move(&mut acc, "Qh5"), Err(GameError::IllegalMove));
    assert_eq!(make_move(&mut acc, "xyzzy"), Err(GameError::IllegalMove));
    assert_eq!(acc.move_count, 0);
    assert!(acc.is_active);
}

#[test]
fn fools_mate_pays_curve_payout() {
    let mut acc = start_game([3u8; 32], 0, 1000).unwrap();
    assert_eq!(make_move(&mut acc, "f3"), Ok(SettlementOutcome::InProgress));
    assert_eq!(make_move(&mut acc, "e5"), Ok(SettlementOutcome::InProgress));
    assert_eq!(make_move(&mut acc, "g4"), Ok(SettlementOutcome::InProgress));
    assert_eq!(make_move(&mut acc, "Qh4"), Ok(SettlementOutcome::Won(2000)));
    assert_eq!(acc.move_count, 4);
    assert!(!acc.is_active);
}

#[test]
fn won_session_is_settled_exactly_once() {
    let mut acc = start_game([3u8; 32], 0, 1000).unwrap();
    for mv in ["f3", "e5", "g4", "Qh4"] {
        make_move(&mut acc, mv).unwrap();
    }
    assert_eq!(make_move(&mut acc, "d4"), Err(GameError::SessionInactive));
    assert_eq!(acc.move_count, 4);
}

#[test]
fn draw_at_five_moves_forfeits_stake() {
    let mut acc = fresh_account(Difficulty::Hard, 800, 4, true);
    let out = settle_move(&mut acc, PositionStatus::Stalemate);
    assert_eq!(out, SettlementOutcome::Forfeited(800));
    assert_eq!(acc.move_count, 5);
    assert!(!acc.is_active);
}

#[test]
fn settle_move_ongoing_keeps_session_active() {
    let mut acc = fresh_account(Difficulty::Easy, 1000, 0, true);
    let out = settle_move(&mut acc, PositionStatus::Ongoing);
    assert_eq!(out, SettlementOutcome::InProgress);
    assert_eq!(acc.move_count, 1);
    assert!(acc.is_active);
}

#[test]
fn settle_move_checkmate_pays_curve_payout() {
    let mut acc = fresh_account(Difficulty::Medium, 1000, 49, true);
    let out = settle_move(&mut acc, PositionStatus::Checkmate);
    assert_eq!(out, SettlementOutcome::Won(3000));
    assert_eq!(acc.move_count, 50);
    assert!(!acc.is_active);
}

#[test]
fn stalemate_game_forfeits_stake() {
    let mut acc = start_game([4u8; 32], 0, 1000).unwrap();
    let moves = [
        "e3", "a5", "Qh5", "Ra6", "Qxa5", "h5", "Qxc7", "Rah6", "h4", "f6", "Qxd7", "Kf7",
        "Qxb7", "Qd3", "Qxb8", "Qh7", "Qxc8", "Kg6",
    ];
    for mv in moves {
        assert_eq!(make_move(&mut acc, mv), Ok(SettlementOutcome::InProgress));
    }
    assert_eq!(make_move(&mut acc, "Qe6"), Ok(SettlementOutcome::Forfeited(1000)));
    assert_eq!(acc.move_count, 19);
    assert!(!acc.is_active);
}
