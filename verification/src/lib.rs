//! A staking-backed settlement engine for a turn-based game.
//!
//! A player locks a stake, plays against an outside rule engine, and on a
//! win is paid out by move efficiency: the fewer moves, the larger the
//! return. A draw forfeits the stake to the treasury. The payout curve,
//! the session state machine and the settlement decisions are verified;
//! the rule engine itself is consulted through a small trusted boundary.
//!
//! Terminal conditions are what that engine reports: checkmate and
//! stalemate. It offers no insufficient-material query, so a dead
//! position counts as still in progress and never settles; see the
//! engine module for the details of this divergence.

pub mod engine;
pub mod payout;
pub mod session;
