//! The session state machine: creation, per-move transitions, and
//! exactly-once settlement.

use vstd::prelude::*;
use crate::engine::PositionStatus;
use crate::engine::accepts;
use crate::engine::parse_san;
use crate::engine::position_of;
use crate::engine::position_status;
use crate::engine::san_of;
use crate::engine::status_of;
use crate::payout::Difficulty;
use crate::payout::MAX_STAKE;
use crate::payout::calculate_payout;
use crate::payout::payout_spec;

verus! {

/// Every way an operation on a session can be rejected.
#[derive(Clone, Copy, Debug, PartialEq, Eq, Structural)]
pub enum GameError {
    /// The difficulty code is out of range, the stake is zero, or the
    /// stake is too large for its settlement arithmetic to fit in a u64.
    InvalidArgument,
    /// The move is not legal in the current position.
    IllegalMove,
    /// The session has already been settled.
    SessionInactive,
    /// A ledger transfer could not be completed.
    TransferFailed,
}

/// What one applied move settled, if anything. The caller owes the
/// matching ledger transfer: the payout from escrow to the player on a
/// win, the stake from escrow to the treasury on a draw.
#[derive(Clone, Copy, Debug, PartialEq, Eq, Structural)]
pub enum SettlementOutcome {
    /// No terminal condition: the session stays active.
    InProgress,
    /// The player won; the amount is the payout owed from escrow.
    Won(u64),
    /// The game was drawn; the stake is forfeited to the treasury.
    Forfeited(u64),
}

/// One staking session: created once, mutated per move, and marked
/// inactive exactly once when a terminal condition settles it.
pub struct GameAccount {
    /// The staking party's identity. Immutable after creation.
    pub player: [u8; 32],
    /// Immutable after creation.
    pub difficulty: Difficulty,
    /// The amount held in escrow for this session. Immutable after
    /// creation, strictly positive, and within the settleable bound.
    pub stake: u64,
    /// Moves successfully applied so far; never decremented.
    pub move_count: u64,
    /// The rule engine's state, opaque to the settlement core.
    pub board: chess::Game,
    /// True from creation until the session settles, then false for good.
    pub is_active: bool,
}

impl GameAccount {
    /// Well-formedness: the stake a session escrows is strictly positive
    /// and small enough for every settlement computation to fit in a
    /// u64. Creation establishes it, and no operation changes the stake.
    pub open spec fn wf(self) -> bool {
        0 < self.stake <= MAX_STAKE
    }
}

/// Starts a session: validates the arguments and creates the account.
///
/// A stake above `MAX_STAKE` is rejected as invalid, since no settlement
/// of it could be computed within a u64. The caller owes the matching
/// ledger transfer of the stake from the player to escrow, and must keep
/// the account only when that transfer succeeds.
pub fn start_game(player: [u8; 32], difficulty: u8, stake: u64) -> (res: Result<
    GameAccount,
    GameError,
>)
    ensures
        match res {
            Ok(acc) => {
                &&& acc.wf()
                &&& Difficulty::from_code_spec(difficulty) == Some(acc.difficulty)
                &&& 0 < stake <= MAX_STAKE
                &&& acc.player == player
                &&& acc.stake == stake
                &&& acc.move_count == 0
                &&& acc.is_active
            },
            Err(e) => {
                &&& e == GameError::InvalidArgument
                &&& (Difficulty::from_code_spec(difficulty) is None || stake == 0 || stake
                    > MAX_STAKE)
            },
        },
{
    let diff = match Difficulty::from_code(difficulty) {
        Some(d) => d,
        None => {
            return Err(GameError::InvalidArgument);
        },
    };
    if stake == 0 {
        return Err(GameError::InvalidArgument);
    }
    if stake > MAX_STAKE {
        return Err(GameError::InvalidArgument);
    }
    Ok(
        GameAccount {
            player,
            difficulty: diff,
            stake,
            move_count: 0,
            board: chess::Game::new(),
            is_active: true,
        },
    )
}

/// Settles one successfully applied move: counts it and, for each possible
/// answer of the rule engine, decides the outcome the caller owes.
pub fn settle_move(acc: &mut GameAccount, status: PositionStatus) -> (out: SettlementOutcome)
    requires
        old(acc).is_active,
        old(acc).wf(),
        old(acc).move_count < u64::MAX,
    ensures
        final(acc).move_count == old(acc).move_count + 1,
        final(acc).player == old(acc).player,
        final(acc).difficulty == old(acc).difficulty,
        final(acc).stake == old(acc).stake,
        final(acc).board == old(acc).board,
        match status {
            PositionStatus::Checkmate => !final(acc).is_active && (match out {
                SettlementOutcome::Won(p) => p as int == payout_spec(
                    old(acc).difficulty,
                    old(acc).move_count as int + 1,
                    old(acc).stake as int,
                ),
                _ => false,
            }),
            PositionStatus::Stalemate => !final(acc).is_active && out
                == SettlementOutcome::Forfeited(old(acc).stake),
            PositionStatus::Ongoing => final(acc).is_active && out
                == SettlementOutcome::InProgress,
        },
{
    acc.move_count = acc.move_count + 1;
    match status {
        PositionStatus::Checkmate => {
            let p = calculate_payout(acc.difficulty, acc.move_count, acc.stake);
            acc.is_active = false;
            SettlementOutcome::Won(p)
        },
        PositionStatus::Stalemate => {
            acc.is_active = false;
            SettlementOutcome::Forfeited(acc.stake)
        },
        PositionStatus::Ongoing => SettlementOutcome::InProgress,
    }
}

/// Applies one move to an active session.
///
/// An inactive session is always rejected, whatever it holds. For an
/// active session the rule engine's named answers decide the result, if
/// and only if: the move is rejected as illegal, with the session
/// unchanged, exactly when the text parses to no move of the current
/// position or the engine refuses the parsed move; an accepted move is
/// counted, and the status of the position it leads to settles the
/// session — a checkmate pays the payout curve's amount, a stalemate
/// forfeits the stake, and otherwise the session stays active. The
/// caller owes the ledger transfer that the returned outcome names.
/// Dead positions count as still in progress: the rule engine has no
/// insufficient-material query.
pub fn make_move(acc: &mut GameAccount, move_str: &str) -> (res: Result<
    SettlementOutcome,
    GameError,
>)
    requires
        old(acc).is_active ==> old(acc).wf(),
        old(acc).is_active ==> old(acc).move_count < u64::MAX,
    ensures
        !old(acc).is_active ==> res == Err::<SettlementOutcome, GameError>(
            GameError::SessionInactive,
        ) && *final(acc) == *old(acc),
        old(acc).is_active ==> match san_of(position_of(old(acc).board), move_str@) {
            None => res == Err::<SettlementOutcome, GameError>(GameError::IllegalMove)
                && *final(acc) == *old(acc),
            Some(m) => {
                &&& !accepts(old(acc).board, m) ==> res == Err::<SettlementOutcome, GameError>(
                    GameError::IllegalMove,
                ) && *final(acc) == *old(acc)
                &&& accepts(old(acc).board, m) ==> {
                    &&& final(acc).move_count == old(acc).move_count + 1
                    &&& final(acc).player == old(acc).player
                    &&& final(acc).difficulty == old(acc).difficulty
                    &&& final(acc).stake == old(acc).stake
                    &&& match status_of(position_of(final(acc).board)) {
                        PositionStatus::Checkmate => !final(acc).is_active && (match res {
                            Ok(SettlementOutcome::Won(p)) => p as int == payout_spec(
                                old(acc).difficulty,
                                old(acc).move_count as int + 1,
                                old(acc).stake as int,
                            ),
                            _ => false,
                        }),
                        PositionStatus::Stalemate => !final(acc).is_active && res == Ok::<
                            SettlementOutcome,
                            GameError,
                        >(SettlementOutcome::Forfeited(old(acc).stake)),
                        PositionStatus::Ongoing => final(acc).is_active && res == Ok::<
                            SettlementOutcome,
                            GameError,
                        >(SettlementOutcome::InProgress),
                    }
                }
            },
        },
{
    if !acc.is_active {
        return Err(GameError::SessionInactive);
    }
    let position = acc.board.current_position();
    let mv = match parse_san(&position, move_str) {
        Some(m) => m,
        None => {
            return Err(GameError::IllegalMove);
        },
    };
    let legal = acc.board.make_move(mv);
    if !legal {
        return Err(GameError::IllegalMove);
    }
    let after = acc.board.current_position();
    let status = position_status(&after);
    Ok(settle_move(acc, status))
}

}
