//! The escrow's operations on one game: creation, joining, deposits, moves,
//! result declaration, timeouts and cancellation.
//!
//! Each operation checks the game's state and its arguments first and, on an
//! error, leaves the game as it was. What it returns tells the caller which
//! amounts to move: the caller moves them and keeps the updated game in one
//! atomic step, or keeps neither.

use vstd::prelude::*;

use crate::anti_cheat::{impossible_move, is_impossible_move, is_suspicious_move_pattern, too_fast};
use crate::keys::PlayerKey;
use crate::settlement::{distribute_funds, payout_for, Payout};
use crate::state::{
    ChessError, GameEndReason, GameEscrow, GameFlags, GameState, GameWinner, TimeControl, TimeControlType,
    INITIAL_RATING, MAX_NOTATION_LEN, MAX_ROOM_ID_LEN, MoveRecord, transition_allowed,
};
use crate::text::{byte_len, str_byte_len, utf8_of};

verus! {

/// Why a game cannot be created from these parameters, if it cannot.
pub open spec fn initialize_error(room_id: Seq<char>, stake_amount: u64, time_limit_seconds: i64) -> Option<ChessError> {
    if byte_len(room_id) > MAX_ROOM_ID_LEN {
        Some(ChessError::RoomIdTooLong)
    } else if stake_amount == 0 {
        Some(ChessError::InvalidStakeAmount)
    } else if time_limit_seconds <= 0 {
        Some(ChessError::InvalidTimeLimit)
    } else {
        None
    }
}

/// The options of every new game.
pub open spec fn default_flags() -> GameFlags {
    GameFlags {
        is_tournament_game: false,
        is_rated: false,
        allow_draw_offers: true,
        allow_resignation: true,
        require_move_validation: true,
        enable_anti_cheat: true,
    }
}

/// Whether `g` is the game that `player` opens in room `room_id`: waiting for
/// an opponent, nothing deposited, no move made.
pub open spec fn is_new_game(
    g: GameEscrow,
    player: PlayerKey,
    fee_collector: PlayerKey,
    room_id: String,
    stake_amount: u64,
    time_limit_seconds: i64,
    now: i64,
) -> bool {
    &&& g.room_id == room_id
    &&& g.player_white == player
    &&& g.player_black is None
    &&& g.stake_amount == stake_amount
    &&& g.total_deposited == 0
    &&& g.game_state == GameState::WaitingForPlayers
    &&& g.winner == GameWinner::Undecided
    &&& g.created_at == now
    &&& g.started_at == 0
    &&& g.finished_at == 0
    &&& g.time_limit_seconds == time_limit_seconds
    &&& g.fee_collector == fee_collector
    &&& !g.white_deposited
    &&& !g.black_deposited
    &&& g.move_count == 0
    &&& g.last_move_time == 0
    &&& g.time_control.initial_time == time_limit_seconds
    &&& g.time_control.increment == 0
    &&& g.time_control.delay == 0
    &&& g.time_control.time_control_type == TimeControlType::Custom
    &&& g.position_hash@ == Seq::new(32, |i: int| 0u8)
    &&& g.move_history@.len() == 0
    &&& g.anti_cheat_flags == 0
    &&& g.rating_white == INITIAL_RATING
    &&& g.rating_black == INITIAL_RATING
    &&& g.tournament_id is None
    &&& g.game_flags == default_flags()
}

/// Opens a game in room `room_id`, with `player` as white, a stake of
/// `stake_amount` from each side and `time_limit_seconds` per move.
pub fn initialize_game(
    player: PlayerKey,
    fee_collector: PlayerKey,
    room_id: String,
    stake_amount: u64,
    time_limit_seconds: i64,
    now: i64,
) -> (r: Result<GameEscrow, ChessError>)
    ensures
        initialize_error(room_id@, stake_amount, time_limit_seconds) matches Some(e) ==> r == Err::<GameEscrow, ChessError>(e),
        initialize_error(room_id@, stake_amount, time_limit_seconds) is None ==> (r matches Ok(g) && is_new_game(
            g,
            player,
            fee_collector,
            room_id,
            stake_amount,
            time_limit_seconds,
            now,
        ) && g.wf()),
{
    if str_byte_len(room_id.as_str()) > MAX_ROOM_ID_LEN {
        return Err(ChessError::RoomIdTooLong);
    }
    if stake_amount == 0 {
        return Err(ChessError::InvalidStakeAmount);
    }
    if time_limit_seconds <= 0 {
        return Err(ChessError::InvalidTimeLimit);
    }
    let g = GameEscrow {
        room_id,
        player_white: player,
        player_black: None,
        stake_amount,
        total_deposited: 0,
        game_state: GameState::WaitingForPlayers,
        winner: GameWinner::Undecided,
        created_at: now,
        started_at: 0,
        finished_at: 0,
        time_limit_seconds,
        fee_collector,
        white_deposited: false,
        black_deposited: false,
        move_count: 0,
        last_move_time: 0,
        time_control: TimeControl {
            initial_time: time_limit_seconds as u64,
            increment: 0,
            delay: 0,
            time_control_type: TimeControlType::Custom,
        },
        position_hash: [0u8; 32],
        move_history: Vec::new(),
        anti_cheat_flags: 0,
        rating_white: INITIAL_RATING,
        rating_black: INITIAL_RATING,
        tournament_id: None,
        game_flags: GameFlags {
            is_tournament_game: false,
            is_rated: false,
            allow_draw_offers: true,
            allow_resignation: true,
            require_move_validation: true,
            enable_anti_cheat: true,
        },
    };
    assert(g.position_hash@ =~= Seq::new(32, |i: int| 0u8));
    Ok(g)
}

/// Why `player` cannot join `g`, if they cannot.
pub open spec fn join_error(g: GameEscrow, player: PlayerKey) -> Option<ChessError> {
    if g.game_state != GameState::WaitingForPlayers {
        Some(ChessError::GameNotWaitingForPlayers)
    } else if player == g.player_white {
        Some(ChessError::CannotPlayAgainstSelf)
    } else {
        None
    }
}

/// `g` once `player` has joined it as black.
pub open spec fn after_join(g: GameEscrow, player: PlayerKey) -> GameEscrow {
    GameEscrow { player_black: Some(player), game_state: GameState::WaitingForDeposits, ..g }
}

/// Seats `player` as black in a game waiting for an opponent.
pub fn join_game(game: &mut GameEscrow, player: PlayerKey) -> (r: Result<(), ChessError>)
    ensures
        join_error(*old(game), player) matches Some(e) ==> r == Err::<(), ChessError>(e) && *final(game) == *old(game),
        join_error(*old(game), player) is None ==> r is Ok && *final(game) == after_join(*old(game), player),
        transition_allowed(old(game).game_state, final(game).game_state),
        old(game).wf() ==> final(game).wf(),
{
    if game.game_state != GameState::WaitingForPlayers {
        return Err(ChessError::GameNotWaitingForPlayers);
    }
    if player == game.player_white {
        return Err(ChessError::CannotPlayAgainstSelf);
    }
    game.player_black = Some(player);
    game.game_state = GameState::WaitingForDeposits;
    Ok(())
}

/// Why `player` cannot deposit into `g`, if they cannot.
pub open spec fn deposit_error(g: GameEscrow, player: PlayerKey) -> Option<ChessError> {
    if !(g.game_state == GameState::WaitingForDeposits || g.game_state
        == GameState::WaitingForPlayers) {
        Some(ChessError::InvalidGameStateForDeposit)
    } else if !g.has_player(player) {
        Some(ChessError::UnauthorizedPlayer)
    } else if player == g.player_white && g.white_deposited {
        Some(ChessError::AlreadyDeposited)
    } else if player != g.player_white && g.black_deposited {
        Some(ChessError::AlreadyDeposited)
    } else {
        None
    }
}

/// `g` once the stake of `player` is in the vault; the game starts at `now`
/// when both stakes are.
pub open spec fn after_deposit(g: GameEscrow, player: PlayerKey, now: i64) -> GameEscrow {
    let white_deposited = g.white_deposited || player == g.player_white;
    let black_deposited = g.black_deposited || player != g.player_white;
    let paid = GameEscrow {
        white_deposited,
        black_deposited,
        total_deposited: (g.total_deposited + g.stake_amount) as u64,
        ..g
    };
    if white_deposited && black_deposited {
        GameEscrow {
            game_state: GameState::InProgress,
            started_at: now,
            last_move_time: now,
            ..paid
        }
    } else {
        paid
    }
}

/// Takes the stake of `player` into custody. On success it returns the
/// amount that the caller moves from `player` into the vault.
pub fn deposit_stake(game: &mut GameEscrow, player: PlayerKey, now: i64) -> (r: Result<u64, ChessError>)
    requires
        deposit_error(*old(game), player) is None ==> old(game).total_deposited
            + old(game).stake_amount <= u64::MAX,
    ensures
        deposit_error(*old(game), player) matches Some(e) ==> r == Err::<u64, ChessError>(e) && *final(game) == *old(game),
        deposit_error(*old(game), player) is None ==> r == Ok::<u64, ChessError>(old(game).stake_amount) && *final(game) == after_deposit(*old(game), player, now),
        old(game).wf() ==> transition_allowed(old(game).game_state, final(game).game_state),
        old(game).wf() ==> final(game).wf(),
{
    if !(game.game_state == GameState::WaitingForDeposits || game.game_state
        == GameState::WaitingForPlayers) {
        return Err(ChessError::InvalidGameStateForDeposit);
    }
    if !game.is_player(&player) {
        return Err(ChessError::UnauthorizedPlayer);
    }
    let is_white = player == game.player_white;
    if is_white {
        if game.white_deposited {
            return Err(ChessError::AlreadyDeposited);
        }
    } else if game.black_deposited {
        return Err(ChessError::AlreadyDeposited);
    }
    if is_white {
        game.white_deposited = true;
    } else {
        game.black_deposited = true;
    }
    game.total_deposited = game.total_deposited + game.stake_amount;
    if game.white_deposited && game.black_deposited {
        game.game_state = GameState::InProgress;
        game.started_at = now;
        game.last_move_time = now;
    }
    Ok(game.stake_amount)
}

/// Why `player` cannot cancel `g`, if they cannot.
pub open spec fn cancel_error(g: GameEscrow, player: PlayerKey) -> Option<ChessError> {
    if !(g.game_state == GameState::WaitingForPlayers || g.game_state
        == GameState::WaitingForDeposits) {
        Some(ChessError::CannotCancelStartedGame)
    } else if !g.has_player(player) {
        Some(ChessError::UnauthorizedPlayer)
    } else {
        None
    }
}

/// What a cancellation of `g` hands back: each player's stake, if that player
/// deposited it, and no fee.
pub open spec fn refund_of(g: GameEscrow) -> Payout {
    Payout {
        fee: 0,
        to_white: if g.white_deposited { g.stake_amount } else { 0 },
        to_black: if g.black_deposited { g.stake_amount } else { 0 },
    }
}

/// `g` once cancelled.
pub open spec fn after_cancel(g: GameEscrow) -> GameEscrow {
    GameEscrow { game_state: GameState::Cancelled, ..g }
}

/// Cancels a game that has not started. On success it returns the refunds
/// that the caller moves out of the vault.
pub fn cancel_game(game: &mut GameEscrow, player: PlayerKey) -> (r: Result<Payout, ChessError>)
    ensures
        cancel_error(*old(game), player) matches Some(e) ==> r == Err::<Payout, ChessError>(e) && *final(game) == *old(game),
        cancel_error(*old(game), player) is None ==> r == Ok::<Payout, ChessError>(refund_of(*old(game))) && *final(game) == after_cancel(*old(game)),
        transition_allowed(old(game).game_state, final(game).game_state),
        old(game).wf() ==> final(game).wf(),
{
    if !(game.game_state == GameState::WaitingForPlayers || game.game_state
        == GameState::WaitingForDeposits) {
        return Err(ChessError::CannotCancelStartedGame);
    }
    if !game.is_player(&player) {
        return Err(ChessError::UnauthorizedPlayer);
    }
    let refund = Payout {
        fee: 0,
        to_white: if game.white_deposited { game.stake_amount } else { 0 },
        to_black: if game.black_deposited { game.stake_amount } else { 0 },
    };
    game.game_state = GameState::Cancelled;
    Ok(refund)
}

/// The authorization table for result declarations: a side's win is declared
/// by the loser on resignation, or by the winner on timeout or checkmate; a
/// draw by either player on agreement or stalemate. Nothing else is accepted,
/// and an undecided result never is.
pub open spec fn declaration_error(
    white: PlayerKey,
    black: Option<PlayerKey>,
    declarer: PlayerKey,
    winner: GameWinner,
    reason: GameEndReason,
) -> Option<ChessError> {
    match winner {
        GameWinner::White => if (reason == GameEndReason::Resignation && black == Some(declarer))
            || (reason == GameEndReason::Timeout && declarer == white) || (reason
            == GameEndReason::Checkmate && declarer == white) {
            None
        } else {
            Some(ChessError::InvalidWinnerDeclaration)
        },
        GameWinner::Black => if (reason == GameEndReason::Resignation && declarer == white)
            || (reason == GameEndReason::Timeout && black == Some(declarer)) || (reason
            == GameEndReason::Checkmate && black == Some(declarer)) {
            None
        } else {
            Some(ChessError::InvalidWinnerDeclaration)
        },
        GameWinner::Draw => if reason == GameEndReason::Agreement || reason
            == GameEndReason::Stalemate {
            None
        } else {
            Some(ChessError::InvalidDrawDeclaration)
        },
        GameWinner::Undecided => Some(ChessError::InvalidWinnerDeclaration),
    }
}

/// Why `declarer` cannot declare this result of `g`, if they cannot.
pub open spec fn declare_error(
    g: GameEscrow,
    declarer: PlayerKey,
    winner: GameWinner,
    reason: GameEndReason,
) -> Option<ChessError> {
    if g.game_state != GameState::InProgress {
        Some(ChessError::GameNotInProgress)
    } else if !g.has_player(declarer) {
        Some(ChessError::UnauthorizedPlayer)
    } else {
        declaration_error(g.player_white, g.player_black, declarer, winner, reason)
    }
}

/// `g` once finished at `now` with `winner`.
pub open spec fn after_finish(g: GameEscrow, winner: GameWinner, now: i64) -> GameEscrow {
    GameEscrow { winner, game_state: GameState::Finished, finished_at: now, ..g }
}

/// The settlement of `g` for `winner`: its whole custody paid out.
pub open spec fn settlement_of(g: GameEscrow, winner: GameWinner) -> Payout {
    payout_for(winner, g.total_deposited)->Some_0
}

/// Whether the table of `declaration_error` accepts the declaration.
fn declaration_allowed(
    white: &PlayerKey,
    black: &Option<PlayerKey>,
    declarer: &PlayerKey,
    winner: GameWinner,
    reason: GameEndReason,
) -> (r: Result<(), ChessError>)
    ensures
        r == match declaration_error(*white, *black, *declarer, winner, reason) {
            Some(e) => Err(e),
            None => Ok(()),
        },
{
    let is_white = *declarer == *white;
    let is_black = match black {
        Some(b) => *declarer == *b,
        None => false,
    };
    match winner {
        GameWinner::White => {
            if (reason == GameEndReason::Resignation && is_black) || (reason
                == GameEndReason::Timeout && is_white) || (reason == GameEndReason::Checkmate
                && is_white) {
                Ok(())
            } else {
                Err(ChessError::InvalidWinnerDeclaration)
            }
        },
        GameWinner::Black => {
            if (reason == GameEndReason::Resignation && is_white) || (reason
                == GameEndReason::Timeout && is_black) || (reason == GameEndReason::Checkmate
                && is_black) {
                Ok(())
            } else {
                Err(ChessError::InvalidWinnerDeclaration)
            }
        },
        GameWinner::Draw => {
            if reason == GameEndReason::Agreement || reason == GameEndReason::Stalemate {
                Ok(())
            } else {
                Err(ChessError::InvalidDrawDeclaration)
            }
        },
        GameWinner::Undecided => Err(ChessError::InvalidWinnerDeclaration),
    }
}

/// Ends a game in progress with the result that `declarer` declares, if the
/// authorization table accepts it. On success it returns the settlement that
/// the caller moves out of the vault.
pub fn declare_result(
    game: &mut GameEscrow,
    declarer: PlayerKey,
    winner: GameWinner,
    reason: GameEndReason,
    now: i64,
) -> (r: Result<Payout, ChessError>)
    ensures
        declare_error(*old(game), declarer, winner, reason) matches Some(e) ==> r == Err::<Payout, ChessError>(e) && *final(game) == *old(game),
        declare_error(*old(game), declarer, winner, reason) is None ==> r == Ok::<Payout, ChessError>(settlement_of(*old(game), winner)) && *final(game) == after_finish(*old(game), winner, now),
        transition_allowed(old(game).game_state, final(game).game_state),
        old(game).wf() ==> final(game).wf(),
{
    if game.game_state != GameState::InProgress {
        return Err(ChessError::GameNotInProgress);
    }
    if !game.is_player(&declarer) {
        return Err(ChessError::UnauthorizedPlayer);
    }
    match declaration_allowed(&game.player_white, &game.player_black, &declarer, winner, reason) {
        Ok(()) => {},
        Err(e) => return Err(e),
    }
    let payout = match distribute_funds(winner, game.total_deposited) {
        Ok(p) => p,
        Err(e) => return Err(e),
    };
    game.winner = winner;
    game.game_state = GameState::Finished;
    game.finished_at = now;
    Ok(payout)
}

/// Why `g` cannot be ended on time at `now`, if it cannot.
pub open spec fn timeout_error(g: GameEscrow, now: i64) -> Option<ChessError> {
    if g.game_state != GameState::InProgress {
        Some(ChessError::GameNotInProgress)
    } else if now - g.last_move_time <= g.time_limit_seconds {
        Some(ChessError::TimeNotExceeded)
    } else {
        None
    }
}

/// Who wins `g` on time: the side not on move. White is on move after an
/// even number of moves.
pub open spec fn timeout_winner(g: GameEscrow) -> GameWinner {
    if g.move_count % 2 == 0 {
        GameWinner::Black
    } else {
        GameWinner::White
    }
}

/// Ends a game whose side on move let the time limit pass; anyone may call
/// it. On success it returns the settlement that the caller moves out of the
/// vault.
pub fn handle_timeout(game: &mut GameEscrow, now: i64) -> (r: Result<Payout, ChessError>)
    ensures
        timeout_error(*old(game), now) matches Some(e) ==> r == Err::<Payout, ChessError>(e) && *final(game) == *old(game),
        timeout_error(*old(game), now) is None ==> r == Ok::<Payout, ChessError>(settlement_of(*old(game), timeout_winner(*old(game)))) && *final(game) == after_finish(*old(game), timeout_winner(*old(game)), now),
        transition_allowed(old(game).game_state, final(game).game_state),
        old(game).wf() ==> final(game).wf(),
{
    if game.game_state != GameState::InProgress {
        return Err(ChessError::GameNotInProgress);
    }
    let time_elapsed: i128 = now as i128 - game.last_move_time as i128;
    if time_elapsed <= game.time_limit_seconds as i128 {
        return Err(ChessError::TimeNotExceeded);
    }
    let winner = if game.move_count % 2 == 0 {
        GameWinner::Black
    } else {
        GameWinner::White
    };
    let payout = match distribute_funds(winner, game.total_deposited) {
        Ok(p) => p,
        Err(e) => return Err(e),
    };
    game.winner = winner;
    game.game_state = GameState::Finished;
    game.finished_at = now;
    Ok(payout)
}

/// Anti-cheat bit raised when moves come implausibly fast.
pub const SUSPICIOUS_TIMING_FLAG: u32 = 1;

/// Why `player` cannot record a move from `from` to `to`, noted `notation`,
/// in `g` at `now`, if they cannot. The checks come in this order: state,
/// participant, notation length, turn, time budget, then, with anti-cheat on,
/// the squares' form and whether the move is possible at all.
pub open spec fn move_error(
    g: GameEscrow,
    player: PlayerKey,
    now: i64,
    notation: Seq<char>,
    from: Seq<char>,
    to: Seq<char>,
) -> Option<ChessError> {
    if g.game_state != GameState::InProgress {
        Some(ChessError::GameNotInProgress)
    } else if !g.has_player(player) {
        Some(ChessError::UnauthorizedPlayer)
    } else if byte_len(notation) > MAX_NOTATION_LEN {
        Some(ChessError::MoveNotationTooLong)
    } else if (g.move_count % 2 == 0) != (player == g.player_white) {
        Some(ChessError::NotPlayerTurn)
    } else if g.time_control.initial_time > 0 && now - g.last_move_time
        > g.time_control.initial_time + g.time_control.increment {
        Some(ChessError::MoveTimeExceeded)
    } else if g.game_flags.enable_anti_cheat && (byte_len(from) != 2 || byte_len(to) != 2) {
        Some(ChessError::InvalidMoveFormat)
    } else if g.game_flags.enable_anti_cheat && impossible_move(utf8_of(from), utf8_of(to)) {
        Some(ChessError::ImpossibleMove)
    } else {
        None
    }
}

/// The anti-cheat flags of `g` once a move is checked: the timing bit is
/// raised when the moves already logged came too fast, and no bit is cleared.
pub open spec fn flags_after_move(g: GameEscrow) -> u32 {
    if g.game_flags.enable_anti_cheat && too_fast(g.move_history@) {
        g.anti_cheat_flags | SUSPICIOUS_TIMING_FLAG
    } else {
        g.anti_cheat_flags
    }
}

/// The side that `player` plays in `g`.
pub open spec fn side_of(g: GameEscrow, player: PlayerKey) -> GameWinner {
    if player == g.player_white {
        GameWinner::White
    } else {
        GameWinner::Black
    }
}

/// `g` once `player` has moved at `now` to a position fingerprinted `hash`,
/// with `history` as its new move log; a move reported as checkmate ends the
/// game with the mover as winner.
pub open spec fn after_move(
    g: GameEscrow,
    history: Vec<MoveRecord>,
    player: PlayerKey,
    now: i64,
    hash: [u8; 32],
    is_checkmate: bool,
) -> GameEscrow {
    let moved = GameEscrow {
        move_history: history,
        move_count: (g.move_count + 1) as u32,
        last_move_time: now,
        position_hash: hash,
        anti_cheat_flags: flags_after_move(g),
        ..g
    };
    if is_checkmate {
        after_finish(moved, side_of(g, player), now)
    } else {
        moved
    }
}

/// Logs a move of the player on turn. On a move reported as checkmate the
/// game ends with the mover as winner, and the settlement that the caller
/// moves out of the vault is returned.
pub fn record_move(
    game: &mut GameEscrow,
    player: PlayerKey,
    now: i64,
    move_notation: String,
    game_position_hash: [u8; 32],
    from_square: String,
    to_square: String,
    piece: String,
    captured_piece: Option<String>,
    time_spent: u64,
    is_check: bool,
    is_checkmate: bool,
    is_castle: bool,
    is_en_passant: bool,
    is_promotion: bool,
    promotion_piece: Option<String>,
) -> (r: Result<Option<Payout>, ChessError>)
    requires
        move_error(*old(game), player, now, move_notation@, from_square@, to_square@) is None
            ==> old(game).move_count < u32::MAX,
    ensures
        move_error(*old(game), player, now, move_notation@, from_square@, to_square@) matches Some(e) ==> r == Err::<Option<Payout>, ChessError>(e) && *final(game) == *old(game),
        move_error(*old(game), player, now, move_notation@, from_square@, to_square@) is None ==> {
            &&& r == Ok::<Option<Payout>, ChessError>(
                if is_checkmate {
                    Some(settlement_of(*old(game), side_of(*old(game), player)))
                } else {
                    None
                },
            )
            &&& *final(game) == after_move(
                *old(game),
                final(game).move_history,
                player,
                now,
                game_position_hash,
                is_checkmate,
            )
            &&& final(game).move_history@ == old(game).move_history@.push(
                (MoveRecord {
                    move_number: (old(game).move_count + 1) as u32,
                    from_square,
                    to_square,
                    piece,
                    captured_piece,
                    move_notation,
                    position_hash: game_position_hash,
                    timestamp: now,
                    time_spent,
                    is_check,
                    is_checkmate,
                    is_castle,
                    is_en_passant,
                    is_promotion,
                    promotion_piece,
                }),
            )
        },
        transition_allowed(old(game).game_state, final(game).game_state),
        old(game).wf() ==> final(game).wf(),
{
    if game.game_state != GameState::InProgress {
        return Err(ChessError::GameNotInProgress);
    }
    if !game.is_player(&player) {
        return Err(ChessError::UnauthorizedPlayer);
    }
    if str_byte_len(move_notation.as_str()) > MAX_NOTATION_LEN {
        return Err(ChessError::MoveNotationTooLong);
    }
    let is_white_turn = game.move_count % 2 == 0;
    let is_white_player = player == game.player_white;
    if is_white_turn != is_white_player {
        return Err(ChessError::NotPlayerTurn);
    }
    if game.time_control.initial_time > 0 {
        let time_elapsed: i128 = now as i128 - game.last_move_time as i128;
        let max_time: i128 = game.time_control.initial_time as i128
            + game.time_control.increment as i128;
        if time_elapsed > max_time {
            return Err(ChessError::MoveTimeExceeded);
        }
    }
    let mut flags = game.anti_cheat_flags;
    if game.game_flags.enable_anti_cheat {
        if str_byte_len(from_square.as_str()) != 2 || str_byte_len(to_square.as_str()) != 2 {
            return Err(ChessError::InvalidMoveFormat);
        }
        if is_impossible_move(from_square.as_str(), to_square.as_str(), piece.as_str()) {
            return Err(ChessError::ImpossibleMove);
        }
        if is_suspicious_move_pattern(game) {
            flags = flags | SUSPICIOUS_TIMING_FLAG;
        }
    }
    let winner = if is_white_player {
        GameWinner::White
    } else {
        GameWinner::Black
    };
    let payout = if is_checkmate {
        match distribute_funds(winner, game.total_deposited) {
            Ok(p) => Some(p),
            Err(e) => return Err(e),
        }
    } else {
        None
    };
    let move_record = MoveRecord {
        move_number: game.move_count + 1,
        from_square,
        to_square,
        piece,
        captured_piece,
        move_notation,
        position_hash: game_position_hash,
        timestamp: now,
        time_spent,
        is_check,
        is_checkmate,
        is_castle,
        is_en_passant,
        is_promotion,
        promotion_piece,
    };
    game.move_history.push(move_record);
    game.move_count = game.move_count + 1;
    game.last_move_time = now;
    game.position_hash = game_position_hash;
    game.anti_cheat_flags = flags;
    if is_checkmate {
        game.game_state = GameState::Finished;
        game.winner = winner;
        game.finished_at = now;
    }
    Ok(payout)
}

} // verus!
