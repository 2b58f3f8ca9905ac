//! Checks that guard the move log: moves between malformed or identical
//! squares, and moves made implausibly fast one after the other.

use vstd::prelude::*;

use crate::chess_validation::{is_square, FILE_A, FILE_H, RANK_1, RANK_8};
use crate::state::{GameEscrow, MoveRecord};
use crate::text::utf8_of;

verus! {

/// How many of the latest moves the timing check looks at.
pub const RECENT_MOVES: usize = 3;

/// Whether a move from `from` to `to` cannot be made on any board: a square
/// is malformed, or both squares are the same.
pub open spec fn impossible_move(from: Seq<u8>, to: Seq<u8>) -> bool {
    from == to || !is_square(from) || !is_square(to)
}

/// Whether two of the last `RECENT_MOVES` moves of `h` follow each other by
/// less than a second.
pub open spec fn too_fast(h: Seq<MoveRecord>) -> bool {
    h.len() >= RECENT_MOVES && exists|i: int|
        h.len() - RECENT_MOVES < i < h.len() && (#[trigger] h[i]).timestamp - h[i - 1].timestamp < 1
}

/// Whether `s` names a square in algebraic form.
fn is_square_name(s: &[u8]) -> (r: bool)
    ensures
        r == is_square(s@),
{
    s.len() == 2 && FILE_A <= s[0] && s[0] <= FILE_H && RANK_1 <= s[1] && s[1] <= RANK_8
}

/// Whether the move from `from` to `to` is impossible whatever the board
/// holds. The piece plays no part.
pub fn is_impossible_move(from: &str, to: &str, _piece: &str) -> (r: bool)
    ensures
        r == impossible_move(utf8_of(from@), utf8_of(to@)),
{
    let f = from.as_bytes();
    let t = to.as_bytes();
    if !is_square_name(f) || !is_square_name(t) {
        return true;
    }
    let same = f[0] == t[0] && f[1] == t[1];
    assert(same <==> f@ == t@) by {
        if same {
            assert(f@ =~= t@);
        }
    }
    same
}

/// Whether the latest moves of the game were made implausibly fast: two of
/// the last `RECENT_MOVES` less than a second apart.
pub fn is_suspicious_move_pattern(game_escrow: &GameEscrow) -> (r: bool)
    ensures
        r == too_fast(game_escrow.move_history@),
{
    let h = &game_escrow.move_history;
    let n = h.len();
    if n < RECENT_MOVES {
        return false;
    }
    let mut i: usize = n - RECENT_MOVES + 1;
    while i < n
        invariant
            h@ == game_escrow.move_history@,
            n == h@.len(),
            n >= RECENT_MOVES,
            n - RECENT_MOVES < i <= n,
            forall|j: int| n - RECENT_MOVES < j < i ==> (#[trigger] h@[j]).timestamp - h@[j - 1].timestamp >= 1,
        decreases n - i,
    {
        if h[i].timestamp <= h[i - 1].timestamp {
            assert(h@[i as int].timestamp - h@[i - 1].timestamp < 1);
            return true;
        }
        i = i + 1;
    }
    false
}

} // verus!
