use chess_escrow::{
    create_tournament, join_tournament, start_tournament, ChessError, PlayerKey, TimeControl,
    TimeControlType, TournamentStatus,
};

fn tc() -> TimeControl {
    TimeControl { initial_time: 600, increment: 5, delay: 0, time_control_type: TimeControlType::Rapid }
}

fn key(b: u8) -> PlayerKey {
    PlayerKey::new([b; 32])
}

#[test]
fn tournament_lifecycle() {
    let mut t = create_tournament(key(1), "cup".to_string(), "Spring Cup".to_string(), 50, 3, tc(), 10).unwrap();
    assert_eq!(t.status, TournamentStatus::Registration);
    assert_eq!(t.current_participants, 0);
    assert_eq!(start_tournament(&mut t, 11), Err(ChessError::InvalidStakeAmount));
    join_tournament(&mut t, key(2)).unwrap();
    assert_eq!(join_tournament(&mut t, key(2)), Err(ChessError::AlreadyDeposited));
    join_tournament(&mut t, key(3)).unwrap();
    join_tournament(&mut t, key(4)).unwrap();
    assert_eq!(join_tournament(&mut t, key(5)), Err(ChessError::InvalidStakeAmount));
    assert_eq!(t.participants, vec![key(2), key(3), key(4)]);
    start_tournament(&mut t, 20).unwrap();
    assert_eq!(t.status, TournamentStatus::Active);
    assert_eq!(t.started_at, 20);
    assert_eq!(t.prize_pool, 150);
    assert_eq!(join_tournament(&mut t, key(6)), Err(ChessError::TournamentAlreadyStarted));
    assert_eq!(start_tournament(&mut t, 21), Err(ChessError::TournamentAlreadyStarted));
}

#[test]
fn tournament_creation_errors() {
    assert_eq!(
        create_tournament(key(1), "x".repeat(33), "n".to_string(), 1, 2, tc(), 0).err(),
        Some(ChessError::RoomIdTooLong)
    );
    assert_eq!(
        create_tournament(key(1), "id".to_string(), "n".repeat(65), 1, 2, tc(), 0).err(),
        Some(ChessError::InvalidStakeAmount)
    );
    assert_eq!(
        create_tournament(key(1), "id".to_string(), "n".to_string(), 0, 2, tc(), 0).err(),
        Some(ChessError::InvalidStakeAmount)
    );
    assert_eq!(
        create_tournament(key(1), "id".to_string(), "n".to_string(), 1, 1, tc(), 0).err(),
        Some(ChessError::InvalidStakeAmount)
    );
    assert!(create_tournament(key(1), "id".to_string(), "n".repeat(64), 1, 2, tc(), 0).is_ok());
}
