//! The trusted boundary to the outside rule engine (the `chess` crate).
//!
//! The settlement core treats the rule engine's state as opaque: it only
//! creates a game, applies moves to it, and reads the terminal status of
//! the resulting position. Each answer the engine gives is a function of
//! its arguments alone, so it carries a name below, and the settlement
//! contracts speak of those names; the answers themselves are taken on
//! the contracts of the trusted items.
//!
//! One divergence from an ideal rule engine, stated here because every
//! caller inherits it: the `chess` crate has no insufficient-material
//! query, and `chess::Board::status` reports a dead position (say, king
//! against king) as ongoing. Such a game can therefore never settle; only
//! checkmate and stalemate are terminal here.

use vstd::prelude::*;

verus! {

/// The outside rule engine's game value, opaque to the settlement core.
#[verifier::external_type_specification]
#[verifier::external_body]
pub struct ExGame(chess::Game);

/// The outside rule engine's position value, opaque to the settlement core.
#[verifier::external_type_specification]
#[verifier::external_body]
pub struct ExBoard(chess::Board);

/// The outside rule engine's move value, opaque to the settlement core.
#[verifier::external_type_specification]
#[verifier::external_body]
pub struct ExChessMove(chess::ChessMove);

/// What a position reports of the game's end.
#[derive(Clone, Copy, Debug, PartialEq, Eq, Structural)]
pub enum PositionStatus {
    /// The side to move is checkmated.
    Checkmate,
    /// The side to move has no legal move but is not in check: the game
    /// is drawn.
    Stalemate,
    /// The game is still in progress. Dead positions that an
    /// insufficient-material rule would call drawn are reported here
    /// too: the rule engine offers no such query.
    Ongoing,
}

/// The position a game stands in after every move applied so far: what
/// chess::Game::current_position returns.
pub uninterp spec fn position_of(game: chess::Game) -> chess::Board;

/// The move, if any, that a text in standard algebraic notation names
/// among the legal moves of a position: what chess::ChessMove::from_san
/// returns, with the error case dropped.
pub uninterp spec fn san_of(board: chess::Board, move_text: Seq<char>) -> Option<chess::ChessMove>;

/// Whether a game accepts a move: what chess::Game::make_move returns,
/// true exactly when the game is not over and the move is legal.
pub uninterp spec fn accepts(game: chess::Game, chess_move: chess::ChessMove) -> bool;

/// The terminal status of a position: what chess::Board::status reports.
pub uninterp spec fn status_of(board: chess::Board) -> PositionStatus;

/// Relies on chess::Game::new: a fresh game in the standard starting
/// position.
pub assume_specification[ chess::Game::new ]() -> chess::Game;

/// Relies on chess::Game::current_position: the position after every move
/// applied so far, a function of the game value alone.
pub assume_specification[ chess::Game::current_position ](g: &chess::Game) -> (b: chess::Board)
    ensures
        b == position_of(*g),
;

/// Relies on chess::Game::make_move: whether the move is applied is a
/// function of the game and the move alone, and when the move is
/// rejected the game is, as its source shows, left unchanged.
pub assume_specification[ chess::Game::make_move ](
    g: &mut chess::Game,
    chess_move: chess::ChessMove,
) -> (r: bool)
    ensures
        r == accepts(*old(g), chess_move),
        !r ==> *final(g) == *old(g),
;

/// Relies on chess::ChessMove::from_san: parses standard algebraic
/// notation against the given position, a function of the position and
/// the text alone; the parse error is dropped.
#[verifier::external_body]
pub(crate) fn parse_san(board: &chess::Board, move_text: &str) -> (m: Option<chess::ChessMove>)
    ensures
        m == san_of(*board, move_text@),
{
    chess::ChessMove::from_san(board, move_text).ok()
}

/// Relies on chess::Board::status: whether the position is checkmate,
/// stalemate, or still ongoing, a function of the position alone.
#[verifier::external_body]
pub(crate) fn position_status(board: &chess::Board) -> (s: PositionStatus)
    ensures
        s == status_of(*board),
{
    match board.status() {
        chess::BoardStatus::Checkmate => PositionStatus::Checkmate,
        chess::BoardStatus::Stalemate => PositionStatus::Stalemate,
        chess::BoardStatus::Ongoing => PositionStatus::Ongoing,
    }
}

}
