//! Parsing of squares and pieces, and the hooks where a chess rules engine
//! would judge a move. The hooks accept every move: legality is not enforced.

use vstd::prelude::*;

use crate::state::{ChessError, GameState};
use crate::text::utf8_of;

verus! {

/// A piece, or an empty square.
#[derive(Clone, Copy, Debug, PartialEq, Eq, Structural)]
pub enum Piece {
    WhitePawn,
    WhiteRook,
    WhiteKnight,
    WhiteBishop,
    WhiteQueen,
    WhiteKing,
    BlackPawn,
    BlackRook,
    BlackKnight,
    BlackBishop,
    BlackQueen,
    BlackKing,
    Empty,
}

/// A board position: the 64 squares, rank by rank from a1, and the state
/// that the next move depends on.
#[derive(Clone, Copy, Debug)]
pub struct Position {
    pub squares: [Piece; 64],
    pub white_to_move: bool,
    pub white_castle_kingside: bool,
    pub white_castle_queenside: bool,
    pub black_castle_kingside: bool,
    pub black_castle_queenside: bool,
    pub en_passant_square: Option<u8>,
    pub halfmove_clock: u8,
    pub fullmove_number: u16,
}

/// A move between two square indices.
#[derive(Clone, Copy, Debug)]
pub struct Move {
    pub from: u8,
    pub to: u8,
    pub piece: Piece,
    pub captured_piece: Option<Piece>,
    pub is_castle: bool,
    pub is_en_passant: bool,
    pub is_promotion: bool,
    pub promotion_piece: Option<Piece>,
}

/// The byte `a`, first file of the board.
pub const FILE_A: u8 = 97;

/// The byte `h`, last file of the board.
pub const FILE_H: u8 = 104;

/// The byte `1`, first rank of the board.
pub const RANK_1: u8 = 49;

/// The byte `8`, last rank of the board.
pub const RANK_8: u8 = 56;

/// Whether `c` is a file letter, `a` to `h`.
pub open spec fn is_file_byte(c: u8) -> bool {
    FILE_A <= c <= FILE_H
}

/// Whether `c` is a rank digit, `1` to `8`.
pub open spec fn is_rank_byte(c: u8) -> bool {
    RANK_1 <= c <= RANK_8
}

/// Whether `b` names a square in algebraic form, such as `e4`.
pub open spec fn is_square(b: Seq<u8>) -> bool {
    b.len() == 2 && is_file_byte(b[0]) && is_rank_byte(b[1])
}

/// The index of the square that `b` names (`a1` is 0, `h1` is 7, `h8` is 63),
/// or why `b` names none.
pub open spec fn square_index(b: Seq<u8>) -> Result<u8, ChessError> {
    if b.len() != 2 {
        Err(ChessError::InvalidSquareFormat)
    } else if !is_square(b) {
        Err(ChessError::InvalidSquareCoordinates)
    } else {
        Ok(((b[1] - RANK_1) * 8 + (b[0] - FILE_A)) as u8)
    }
}

/// The piece that a one-letter code names: upper case for white, lower case
/// for black, `PRNBQK` for pawn, rook, knight, bishop, queen and king.
pub open spec fn piece_of(b: Seq<u8>) -> Result<Piece, ChessError> {
    if b.len() != 1 {
        Err(ChessError::InvalidPiece)
    } else {
        let c = b[0];
        if c == 80 {  // P
            Ok(Piece::WhitePawn)
        } else if c == 82 {  // R
            Ok(Piece::WhiteRook)
        } else if c == 78 {  // N
            Ok(Piece::WhiteKnight)
        } else if c == 66 {  // B
            Ok(Piece::WhiteBishop)
        } else if c == 81 {  // Q
            Ok(Piece::WhiteQueen)
        } else if c == 75 {  // K
            Ok(Piece::WhiteKing)
        } else if c == 112 {  // p
            Ok(Piece::BlackPawn)
        } else if c == 114 {  // r
            Ok(Piece::BlackRook)
        } else if c == 110 {  // n
            Ok(Piece::BlackKnight)
        } else if c == 98 {  // b
            Ok(Piece::BlackBishop)
        } else if c == 113 {  // q
            Ok(Piece::BlackQueen)
        } else if c == 107 {  // k
            Ok(Piece::BlackKing)
        } else {
            Err(ChessError::InvalidPiece)
        }
    }
}

/// What the rules engine says of a move's legality. No engine is wired in:
/// every move counts as legal.
pub open spec fn legal_by_rules(from: u8, to: u8, piece: Piece, position: Position) -> bool {
    true
}

/// What the rules engine says of whether a move leaves the mover's king in
/// check. No engine is wired in: no move does.
pub open spec fn exposes_king(from: u8, to: u8, position: Position) -> bool {
    false
}

/// The verdict on a move given as two squares and a piece code: the first
/// malformed part, in the order lengths, origin, destination, piece, then the
/// rules engine's objections.
pub open spec fn move_verdict(
    from: Seq<u8>,
    to: Seq<u8>,
    piece: Seq<u8>,
    position: Position,
) -> Result<bool, ChessError> {
    if from.len() != 2 || to.len() != 2 {
        Err(ChessError::InvalidMoveFormat)
    } else {
        match square_index(from) {
            Err(e) => Err(e),
            Ok(f) => match square_index(to) {
                Err(e) => Err(e),
                Ok(t) => match piece_of(piece) {
                    Err(e) => Err(e),
                    Ok(p) => if !legal_by_rules(f, t, p, position) {
                        Err(ChessError::IllegalMove)
                    } else if exposes_king(f, t, position) {
                        Err(ChessError::MoveExposesKing)
                    } else {
                        Ok(true)
                    },
                },
            },
        }
    }
}

/// Checks a move given in text form against the board.
pub fn validate_move(
    from: String,
    to: String,
    piece: String,
    current_position: &Position,
    _game_state: &GameState,
) -> (r: Result<bool, ChessError>)
    ensures
        r == move_verdict(utf8_of(from@), utf8_of(to@), utf8_of(piece@), *current_position),
{
    if from.as_str().as_bytes().len() != 2 || to.as_str().as_bytes().len() != 2 {
        return Err(ChessError::InvalidMoveFormat);
    }
    let from_square = match parse_square(from.as_str()) {
        Ok(s) => s,
        Err(e) => return Err(e),
    };
    let to_square = match parse_square(to.as_str()) {
        Ok(s) => s,
        Err(e) => return Err(e),
    };
    let piece_type = match parse_piece(piece.as_str()) {
        Ok(p) => p,
        Err(e) => return Err(e),
    };
    if !is_legal_move(from_square, to_square, piece_type, current_position) {
        return Err(ChessError::IllegalMove);
    }
    if would_move_expose_king(from_square, to_square, current_position) {
        return Err(ChessError::MoveExposesKing);
    }
    Ok(true)
}

/// The index of the square named in algebraic form (`a1` is 0, `h8` is 63).
pub fn parse_square(square: &str) -> (r: Result<u8, ChessError>)
    ensures
        r == square_index(utf8_of(square@)),
{
    let b = square.as_bytes();
    if b.len() != 2 {
        return Err(ChessError::InvalidSquareFormat);
    }
    let file = b[0];
    let rank = b[1];
    if file < FILE_A || file > FILE_H || rank < RANK_1 || rank > RANK_8 {
        return Err(ChessError::InvalidSquareCoordinates);
    }
    Ok((rank - RANK_1) * 8 + (file - FILE_A))
}

/// The piece named by a one-letter code.
pub fn parse_piece(piece: &str) -> (r: Result<Piece, ChessError>)
    ensures
        r == piece_of(utf8_of(piece@)),
{
    let b = piece.as_bytes();
    if b.len() != 1 {
        return Err(ChessError::InvalidPiece);
    }
    match b[0] {
        80u8 => Ok(Piece::WhitePawn),  // P
        82u8 => Ok(Piece::WhiteRook),  // R
        78u8 => Ok(Piece::WhiteKnight),  // N
        66u8 => Ok(Piece::WhiteBishop),  // B
        81u8 => Ok(Piece::WhiteQueen),  // Q
        75u8 => Ok(Piece::WhiteKing),  // K
        112u8 => Ok(Piece::BlackPawn),  // p
        114u8 => Ok(Piece::BlackRook),  // r
        110u8 => Ok(Piece::BlackKnight),  // n
        98u8 => Ok(Piece::BlackBishop),  // b
        113u8 => Ok(Piece::BlackQueen),  // q
        107u8 => Ok(Piece::BlackKing),  // k
        _ => Err(ChessError::InvalidPiece),
    }
}

/// Asks the rules engine whether the move is legal for the piece.
fn is_legal_move(from: u8, to: u8, piece: Piece, position: &Position) -> (r: bool)
    ensures
        r == legal_by_rules(from, to, piece, *position),
{
    true
}

/// Asks the rules engine whether the move leaves the mover's king in check.
fn would_move_expose_king(from: u8, to: u8, position: &Position) -> (r: bool)
    ensures
        r == exposes_king(from, to, *position),
{
    false
}

} // verus!
