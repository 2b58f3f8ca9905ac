//! Escrow and settlement engine for a two-party wagered chess game.
//!
//! A game holds each player's stake in a vault, moves through a fixed
//! lifecycle (waiting for players, waiting for deposits, in progress, then
//! finished or cancelled), logs the moves with a light anti-cheat check, and
//! settles by paying a one percent fee and the rest to the winner, or half of
//! it to each side on a draw. The operations are pure state transitions: each
//! returns the amounts to move, and the host moves them.

pub mod anti_cheat;
pub mod chess_validation;
pub mod escrow;
pub mod keys;
pub mod laws;
pub mod settlement;
pub mod state;
pub mod text;
pub mod tournament;

pub use anti_cheat::{is_impossible_move, is_suspicious_move_pattern};
pub use chess_validation::{parse_piece, parse_square, validate_move, Move, Piece, Position};
pub use escrow::{
    cancel_game, declare_result, deposit_stake, handle_timeout, initialize_game, join_game,
    record_move,
};
pub use keys::PlayerKey;
pub use settlement::{distribute_funds, Payout};
pub use state::{
    ChessError, GameEndReason, GameEscrow, GameFlags, GameState, GameWinner, MoveRecord,
    TimeControl, TimeControlType,
};
pub use tournament::{
    create_tournament, join_tournament, start_tournament, PlayerRating, Tournament,
    TournamentStatus,
};
