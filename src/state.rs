//! The game record held in escrow, and the enums that describe it.

use vstd::prelude::*;

use crate::keys::PlayerKey;
use crate::text::byte_len;

verus! {

/// Where a game stands in its lifecycle.
#[derive(Clone, Copy, Debug, PartialEq, Eq, Structural)]
pub enum GameState {
    WaitingForPlayers,
    WaitingForDeposits,
    InProgress,
    Finished,
    Cancelled,
}

/// The outcome of a game; `Undecided` until the game is finished.
#[derive(Clone, Copy, Debug, PartialEq, Eq, Structural)]
pub enum GameWinner {
    Undecided,
    White,
    Black,
    Draw,
}

/// Why a game ended.
#[derive(Clone, Copy, Debug, PartialEq, Eq, Structural)]
pub enum GameEndReason {
    Checkmate,
    Resignation,
    Timeout,
    Agreement,
    Stalemate,
    Abandonment,
}

/// The family a time control belongs to.
#[derive(Clone, Copy, Debug, PartialEq, Eq, Structural)]
pub enum TimeControlType {
    Rapid,
    Blitz,
    Bullet,
    Custom,
}

/// Time budget of a game, in seconds.
#[derive(Clone, Copy, Debug, PartialEq, Eq, Structural)]
pub struct TimeControl {
    pub initial_time: u64,
    pub increment: u64,
    pub delay: u64,
    pub time_control_type: TimeControlType,
}

/// Options fixed when a game is created.
#[derive(Clone, Copy, Debug, PartialEq, Eq, Structural)]
pub struct GameFlags {
    pub is_tournament_game: bool,
    pub is_rated: bool,
    pub allow_draw_offers: bool,
    pub allow_resignation: bool,
    pub require_move_validation: bool,
    pub enable_anti_cheat: bool,
}

/// One entry of a game's move log.
#[derive(Clone, Debug)]
pub struct MoveRecord {
    pub move_number: u32,
    pub from_square: String,
    pub to_square: String,
    pub piece: String,
    pub captured_piece: Option<String>,
    pub move_notation: String,
    pub position_hash: [u8; 32],
    pub timestamp: i64,
    pub time_spent: u64,
    pub is_check: bool,
    pub is_checkmate: bool,
    pub is_castle: bool,
    pub is_en_passant: bool,
    pub is_promotion: bool,
    pub promotion_piece: Option<String>,
}

/// Errors reported by the escrow, the tournament registry and move parsing.
#[derive(Clone, Copy, Debug, PartialEq, Eq, Structural)]
pub enum ChessError {
    RoomIdTooLong,
    InvalidStakeAmount,
    InvalidTimeLimit,
    GameNotWaitingForPlayers,
    CannotPlayAgainstSelf,
    InvalidGameStateForDeposit,
    UnauthorizedPlayer,
    AlreadyDeposited,
    GameNotInProgress,
    MoveNotationTooLong,
    MoveTimeExceeded,
    InvalidWinnerDeclaration,
    InvalidDrawDeclaration,
    CannotCancelStartedGame,
    TimeNotExceeded,
    NotPlayerTurn,
    InvalidMoveFormat,
    InvalidSquareFormat,
    InvalidSquareCoordinates,
    InvalidPiece,
    IllegalMove,
    MoveExposesKing,
    ImpossibleMove,
    InvalidTimeControl,
    TournamentNotFound,
    PlayerNotInTournament,
    TournamentAlreadyStarted,
    InvalidRating,
}

/// Longest accepted room id, in bytes.
pub const MAX_ROOM_ID_LEN: usize = 32;

/// Longest accepted move notation, in bytes.
pub const MAX_NOTATION_LEN: usize = 10;

/// Rating given to both sides of a new game.
pub const INITIAL_RATING: u32 = 1500;

/// The escrow record of one game: who plays, what is at stake, how far the
/// game has gone and the moves made so far.
#[derive(Debug)]
pub struct GameEscrow {
    pub room_id: String,
    pub player_white: PlayerKey,
    /// Absent until a second player joins.
    pub player_black: Option<PlayerKey>,
    pub stake_amount: u64,
    pub total_deposited: u64,
    pub game_state: GameState,
    pub winner: GameWinner,
    pub created_at: i64,
    pub started_at: i64,
    pub finished_at: i64,
    pub time_limit_seconds: i64,
    pub fee_collector: PlayerKey,
    pub white_deposited: bool,
    pub black_deposited: bool,
    pub move_count: u32,
    pub last_move_time: i64,
    pub time_control: TimeControl,
    pub position_hash: [u8; 32],
    pub move_history: Vec<MoveRecord>,
    pub anti_cheat_flags: u32,
    pub rating_white: u32,
    pub rating_black: u32,
    pub tournament_id: Option<String>,
    pub game_flags: GameFlags,
}

/// What the vault holds on behalf of the players: the stake of each player
/// whose deposit was taken.
pub open spec fn custody_of(g: GameEscrow) -> int {
    (if g.white_deposited { g.stake_amount as int } else { 0 }) + (if g.black_deposited {
        g.stake_amount as int
    } else {
        0
    })
}

/// The lifecycle's edges: a game moves from waiting for players, to waiting
/// for deposits, to in progress, to finished; it may be cancelled only while
/// waiting. Staying put is always allowed.
pub open spec fn transition_allowed(from: GameState, to: GameState) -> bool {
    from == to || match (from, to) {
        (GameState::WaitingForPlayers, GameState::WaitingForDeposits) => true,
        (GameState::WaitingForDeposits, GameState::InProgress) => true,
        (GameState::InProgress, GameState::Finished) => true,
        (GameState::WaitingForPlayers, GameState::Cancelled) => true,
        (GameState::WaitingForDeposits, GameState::Cancelled) => true,
        _ => false,
    }
}

/// A finished or cancelled game.
pub open spec fn is_closed(s: GameState) -> bool {
    s == GameState::Finished || s == GameState::Cancelled
}

impl GameEscrow {
    /// Whether `player` sits at this game, as white or as black.
    pub open spec fn has_player(self, player: PlayerKey) -> bool {
        player == self.player_white || self.player_black == Some(player)
    }

    /// The invariant that every operation of the escrow keeps.
    pub open spec fn wf(self) -> bool {
        &&& self.stake_amount > 0
        &&& self.time_limit_seconds > 0
        &&& byte_len(self.room_id@) <= MAX_ROOM_ID_LEN
        &&& self.total_deposited == custody_of(self)
        &&& self.player_black matches Some(b) ==> b != self.player_white
        &&& self.black_deposited ==> self.player_black is Some
        &&& self.game_state == GameState::WaitingForPlayers ==> self.player_black is None
        &&& (self.game_state == GameState::WaitingForDeposits || self.game_state
            == GameState::InProgress || self.game_state == GameState::Finished)
            ==> self.player_black is Some
        &&& (self.game_state == GameState::InProgress || self.game_state == GameState::Finished)
            ==> self.white_deposited && self.black_deposited
        &&& (self.winner != GameWinner::Undecided) <==> self.game_state == GameState::Finished
        &&& self.move_history@.len() == self.move_count
    }

    /// Whether `player` sits at this game, as white or as black.
    pub fn is_player(&self, player: &PlayerKey) -> (r: bool)
        ensures
            r == self.has_player(*player),
    {
        if *player == self.player_white {
            return true;
        }
        match &self.player_black {
            Some(b) => *player == *b,
            None => false,
        }
    }
}

} // verus!
