//! Laws of the escrow, stated over the operations' specifications and
//! proved.

use vstd::prelude::*;

use crate::escrow::{
    after_finish, after_move, cancel_error, declare_error, deposit_error, join_error, move_error,
    timeout_error,
};
use crate::keys::PlayerKey;
use crate::settlement::{payout_for, total_paid};
use crate::state::{is_closed, ChessError, GameEndReason, GameEscrow, GameWinner, MoveRecord};

verus! {

/// The custody of a well-formed game is the stake of each player who has
/// deposited, and nothing else.
pub proof fn lemma_custody_is_deposits(g: GameEscrow)
    requires
        g.wf(),
    ensures
        g.total_deposited == g.stake_amount * (if g.white_deposited { 1int } else { 0int })
            + g.stake_amount * (if g.black_deposited { 1int } else { 0int }),
{
}

/// A finished or cancelled game is frozen: joining, depositing, moving,
/// declaring a result, claiming a timeout and cancelling are all refused, and
/// a refused operation changes nothing.
pub proof fn lemma_closed_game_is_frozen(
    g: GameEscrow,
    player: PlayerKey,
    now: i64,
    notation: Seq<char>,
    from: Seq<char>,
    to: Seq<char>,
    winner: GameWinner,
    reason: GameEndReason,
)
    requires
        is_closed(g.game_state),
    ensures
        join_error(g, player) is Some,
        deposit_error(g, player) is Some,
        move_error(g, player, now, notation, from, to) is Some,
        declare_error(g, player, winner, reason) is Some,
        timeout_error(g, now) is Some,
        cancel_error(g, player) is Some,
{
}

/// A game is settled once. A settlement, by declaration or by timeout, leaves
/// the game as `after_finish` gives it, and so does a move reported as
/// checkmate; on such a game every further declaration, timeout claim and
/// move fails on the state guard, and so pays nothing out.
pub proof fn lemma_settlement_happens_once(
    g: GameEscrow,
    winner: GameWinner,
    now: i64,
    history: Vec<MoveRecord>,
    mover: PlayerKey,
    hash: [u8; 32],
    player: PlayerKey,
    winner2: GameWinner,
    reason2: GameEndReason,
    now2: i64,
    notation: Seq<char>,
    from: Seq<char>,
    to: Seq<char>,
)
    ensures
        declare_error(after_finish(g, winner, now), player, winner2, reason2) == Some(
            ChessError::GameNotInProgress,
        ),
        timeout_error(after_finish(g, winner, now), now2) == Some(ChessError::GameNotInProgress),
        move_error(after_finish(g, winner, now), player, now2, notation, from, to) == Some(
            ChessError::GameNotInProgress,
        ),
        declare_error(after_move(g, history, mover, now, hash, true), player, winner2, reason2)
            == Some(ChessError::GameNotInProgress),
        timeout_error(after_move(g, history, mover, now, hash, true), now2) == Some(
            ChessError::GameNotInProgress,
        ),
        move_error(after_move(g, history, mover, now, hash, true), player, now2, notation, from, to)
            == Some(ChessError::GameNotInProgress),
{
}

/// The fee on a custody `c` is `c / 100`, rounded down, and the fee and the
/// payouts add up to `c` exactly: for a decisive result, and for a draw whose
/// remainder after the fee is even.
pub proof fn lemma_fee_law(winner: GameWinner, custody: u64)
    requires
        winner != GameWinner::Undecided,
        winner == GameWinner::Draw ==> (custody - custody / 100) % 2 == 0,
    ensures
        payout_for(winner, custody) is Some,
        payout_for(winner, custody)->Some_0.fee == custody / 100,
        total_paid(payout_for(winner, custody)->Some_0) == custody,
{
}

/// On a draw each side gets half of the remainder after the fee, rounded
/// down; an odd remainder leaves one unit to neither side.
pub proof fn lemma_draw_split(custody: u64)
    ensures
        ({
            let p = payout_for(GameWinner::Draw, custody)->Some_0;
            let rest = custody - custody / 100;
            &&& p.to_white == rest / 2
            &&& p.to_black == rest / 2
            &&& rest % 2 == 1 ==> 2 * p.to_white < rest
            &&& total_paid(p) + rest % 2 == custody
        }),
{
}

} // verus!
