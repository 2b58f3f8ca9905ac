//! Fund distribution: the house fee and the split of what remains between
//! the players, as amounts leaving the game's vault.

use vstd::prelude::*;

use crate::state::{ChessError, GameWinner};

verus! {

/// Share of the custody kept as the house fee, in percent.
pub const FEE_PERCENT: u64 = 1;

/// Amounts that leave the vault in one settlement or refund: to the fee
/// collector, to white and to black. A zero amount means no transfer.
#[derive(Clone, Copy, Debug, PartialEq, Eq, Structural)]
pub struct Payout {
    pub fee: u64,
    pub to_white: u64,
    pub to_black: u64,
}

/// The house fee on a custody of `custody` units: one percent, rounded down.
pub open spec fn fee_on(custody: int) -> int {
    custody * FEE_PERCENT / 100
}

/// Everything that a payout moves out of the vault.
pub open spec fn total_paid(p: Payout) -> int {
    p.fee + p.to_white + p.to_black
}

/// How a custody of `custody` units is paid out for `winner`: the fee to the
/// collector, the rest to the winner, or half of the rest, rounded down, to
/// each side on a draw. There is nothing to pay out for an undecided game.
pub open spec fn payout_for(winner: GameWinner, custody: u64) -> Option<Payout> {
    let fee = fee_on(custody as int) as u64;
    let rest = (custody - fee) as u64;
    match winner {
        GameWinner::White => Some(Payout { fee, to_white: rest, to_black: 0 }),
        GameWinner::Black => Some(Payout { fee, to_white: 0, to_black: rest }),
        GameWinner::Draw => Some(Payout { fee, to_white: rest / 2, to_black: rest / 2 }),
        GameWinner::Undecided => None,
    }
}

/// The payout for `winner` out of a custody of `custody` units; an undecided
/// game has none.
pub fn distribute_funds(winner: GameWinner, custody: u64) -> (r: Result<Payout, ChessError>)
    ensures
        r == match payout_for(winner, custody) {
            Some(p) => Ok(p),
            None => Err(ChessError::InvalidWinnerDeclaration),
        },
{
    let fee_amount = custody * FEE_PERCENT / 100;
    let remaining_amount = custody - fee_amount;
    match winner {
        GameWinner::White => Ok(Payout { fee: fee_amount, to_white: remaining_amount, to_black: 0 }),
        GameWinner::Black => Ok(Payout { fee: fee_amount, to_white: 0, to_black: remaining_amount }),
        GameWinner::Draw => {
            let half_amount = remaining_amount / 2;
            Ok(Payout { fee: fee_amount, to_white: half_amount, to_black: half_amount })
        },
        GameWinner::Undecided => Err(ChessError::InvalidWinnerDeclaration),
    }
}

} // verus!
