use chess_escrow::{
    is_impossible_move, is_suspicious_move_pattern, parse_piece, parse_square, validate_move,
    ChessError, GameState, Piece, Position, PlayerKey,
};

fn empty_position() -> Position {
    Position {
        squares: [Piece::Empty; 64],
        white_to_move: true,
        white_castle_kingside: true,
        white_castle_queenside: true,
        black_castle_kingside: true,
        black_castle_queenside: true,
        en_passant_square: None,
        halfmove_clock: 0,
        fullmove_number: 1,
    }
}

#[test]
fn squares_parse_to_indices() {
    assert_eq!(parse_square("a1"), Ok(0));
    assert_eq!(parse_square("h1"), Ok(7));
    assert_eq!(parse_square("a2"), Ok(8));
    assert_eq!(parse_square("e4"), Ok(28));
    assert_eq!(parse_square("h8"), Ok(63));
    assert_eq!(parse_square("e"), Err(ChessError::InvalidSquareFormat));
    assert_eq!(parse_square("e44"), Err(ChessError::InvalidSquareFormat));
    assert_eq!(parse_square("i1"), Err(ChessError::InvalidSquareCoordinates));
    assert_eq!(parse_square("a9"), Err(ChessError::InvalidSquareCoordinates));
    assert_eq!(parse_square("A1"), Err(ChessError::InvalidSquareCoordinates));
    assert_eq!(parse_square("é"), Err(ChessError::InvalidSquareCoordinates));
}

#[test]
fn pieces_parse_by_letter() {
    assert_eq!(parse_piece("P"), Ok(Piece::WhitePawn));
    assert_eq!(parse_piece("N"), Ok(Piece::WhiteKnight));
    assert_eq!(parse_piece("K"), Ok(Piece::WhiteKing));
    assert_eq!(parse_piece("q"), Ok(Piece::BlackQueen));
    assert_eq!(parse_piece("b"), Ok(Piece::BlackBishop));
    assert_eq!(parse_piece("x"), Err(ChessError::InvalidPiece));
    assert_eq!(parse_piece(""), Err(ChessError::InvalidPiece));
    assert_eq!(parse_piece("PP"), Err(ChessError::InvalidPiece));
}

#[test]
fn validate_move_reports_first_problem() {
    let pos = empty_position();
    let st = GameState::InProgress;
    let v = |f: &str, t: &str, p: &str| validate_move(f.to_string(), t.to_string(), p.to_string(), &pos, &st);
    assert_eq!(v("e2", "e4", "P"), Ok(true));
    assert_eq!(v("e2", "e", "P"), Err(ChessError::InvalidMoveFormat));
    assert_eq!(v("z2", "e4", "P"), Err(ChessError::InvalidSquareCoordinates));
    assert_eq!(v("e2", "e9", "P"), Err(ChessError::InvalidSquareCoordinates));
    assert_eq!(v("e2", "e4", "Z"), Err(ChessError::InvalidPiece));
}

#[test]
fn impossible_moves() {
    assert!(!is_impossible_move("e2", "e4", "P"));
    assert!(is_impossible_move("e2", "e2", "P"));
    assert!(is_impossible_move("e2", "e", "P"));
    assert!(is_impossible_move("e2", "j4", "P"));
    assert!(is_impossible_move("e2", "e0", "P"));
    assert!(!is_impossible_move("a1", "h8", ""));
}

#[test]
fn suspicious_pattern_looks_at_last_three_moves() {
    let mut g = chess_escrow::initialize_game(
        PlayerKey::new([1; 32]),
        PlayerKey::new([9; 32]),
        "r".to_string(),
        10,
        60,
        0,
    )
    .unwrap();
    assert!(!is_suspicious_move_pattern(&g));
    let mut push = |ts: i64| {
        g.move_history.push(chess_escrow::MoveRecord {
            move_number: 0,
            from_square: "e2".to_string(),
            to_square: "e4".to_string(),
            piece: "P".to_string(),
            captured_piece: None,
            move_notation: "e4".to_string(),
            position_hash: [0; 32],
            timestamp: ts,
            time_spent: 0,
            is_check: false,
            is_checkmate: false,
            is_castle: false,
            is_en_passant: false,
            is_promotion: false,
            promotion_piece: None,
        });
    };
    push(10);
    push(10);
    push(20);
    push(30);
    push(40);
    assert!(!is_suspicious_move_pattern(&g));
    g.move_history.push(g.move_history[4].clone());
    assert!(is_suspicious_move_pattern(&g));
}
