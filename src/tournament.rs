//! A registry of tournament entrants: creation, registration and start.

use vstd::prelude::*;

use crate::keys::PlayerKey;
use crate::state::{ChessError, TimeControl, MAX_ROOM_ID_LEN};
use crate::text::{byte_len, str_byte_len};

verus! {

/// Longest accepted tournament name, in bytes.
pub const MAX_TOURNAMENT_NAME_LEN: usize = 64;

/// Fewest entrants a tournament is played with.
pub const MIN_PARTICIPANTS: u32 = 2;

/// Where a tournament stands.
#[derive(Clone, Copy, Debug, PartialEq, Eq, Structural)]
pub enum TournamentStatus {
    Registration,
    Active,
    Finished,
    Cancelled,
}

/// A tournament and the players registered for it.
#[derive(Debug)]
pub struct Tournament {
    pub tournament_id: String,
    pub name: String,
    pub creator: PlayerKey,
    pub entry_fee: u64,
    pub max_participants: u32,
    pub current_participants: u32,
    pub status: TournamentStatus,
    pub time_control: TimeControl,
    pub created_at: i64,
    pub started_at: i64,
    pub finished_at: i64,
    pub prize_pool: u64,
    pub participants: Vec<PlayerKey>,
    pub brackets: Vec<String>,
}

/// A player's rating record.
#[derive(Debug)]
pub struct PlayerRating {
    pub player: PlayerKey,
    pub rating: u32,
    pub games_played: u32,
    pub last_updated: i64,
    pub last_game: String,
}

impl Tournament {
    /// The registry's invariant: the count matches the entrants, who are
    /// distinct and no more than allowed.
    pub open spec fn wf(self) -> bool {
        &&& self.current_participants == self.participants@.len()
        &&& self.current_participants <= self.max_participants
        &&& self.participants@.no_duplicates()
    }
}

/// Why a tournament cannot be created from these parameters, if it cannot.
pub open spec fn create_tournament_error(
    tournament_id: Seq<char>,
    name: Seq<char>,
    entry_fee: u64,
    max_participants: u32,
) -> Option<ChessError> {
    if byte_len(tournament_id) > MAX_ROOM_ID_LEN {
        Some(ChessError::RoomIdTooLong)
    } else if byte_len(name) > MAX_TOURNAMENT_NAME_LEN {
        Some(ChessError::InvalidStakeAmount)
    } else if entry_fee == 0 {
        Some(ChessError::InvalidStakeAmount)
    } else if max_participants < MIN_PARTICIPANTS {
        Some(ChessError::InvalidStakeAmount)
    } else {
        None
    }
}

/// Whether `t` is the tournament that `creator` opens: in registration, with
/// no entrant and an empty prize pool.
pub open spec fn is_new_tournament(
    t: Tournament,
    creator: PlayerKey,
    tournament_id: String,
    name: String,
    entry_fee: u64,
    max_participants: u32,
    time_control: TimeControl,
    now: i64,
) -> bool {
    &&& t.tournament_id == tournament_id
    &&& t.name == name
    &&& t.creator == creator
    &&& t.entry_fee == entry_fee
    &&& t.max_participants == max_participants
    &&& t.current_participants == 0
    &&& t.status == TournamentStatus::Registration
    &&& t.time_control == time_control
    &&& t.created_at == now
    &&& t.started_at == 0
    &&& t.finished_at == 0
    &&& t.prize_pool == 0
    &&& t.participants@.len() == 0
    &&& t.brackets@.len() == 0
}

/// Opens a tournament for registration.
pub fn create_tournament(
    creator: PlayerKey,
    tournament_id: String,
    name: String,
    entry_fee: u64,
    max_participants: u32,
    time_control: TimeControl,
    now: i64,
) -> (r: Result<Tournament, ChessError>)
    ensures
        create_tournament_error(tournament_id@, name@, entry_fee, max_participants) matches Some(e) ==> r == Err::<Tournament, ChessError>(e),
        create_tournament_error(tournament_id@, name@, entry_fee, max_participants) is None ==> (r matches Ok(t) && is_new_tournament(
            t,
            creator,
            tournament_id,
            name,
            entry_fee,
            max_participants,
            time_control,
            now,
        ) && t.wf()),
{
    if str_byte_len(tournament_id.as_str()) > MAX_ROOM_ID_LEN {
        return Err(ChessError::RoomIdTooLong);
    }
    if str_byte_len(name.as_str()) > MAX_TOURNAMENT_NAME_LEN {
        return Err(ChessError::InvalidStakeAmount);
    }
    if entry_fee == 0 {
        return Err(ChessError::InvalidStakeAmount);
    }
    if max_participants < MIN_PARTICIPANTS {
        return Err(ChessError::InvalidStakeAmount);
    }
    Ok(Tournament {
        tournament_id,
        name,
        creator,
        entry_fee,
        max_participants,
        current_participants: 0,
        status: TournamentStatus::Registration,
        time_control,
        created_at: now,
        started_at: 0,
        finished_at: 0,
        prize_pool: 0,
        participants: Vec::new(),
        brackets: Vec::new(),
    })
}

/// Why `player` cannot register for `t`, if they cannot.
pub open spec fn join_tournament_error(t: Tournament, player: PlayerKey) -> Option<ChessError> {
    if t.status != TournamentStatus::Registration {
        Some(ChessError::TournamentAlreadyStarted)
    } else if t.current_participants >= t.max_participants {
        Some(ChessError::InvalidStakeAmount)
    } else if t.participants@.contains(player) {
        Some(ChessError::AlreadyDeposited)
    } else {
        None
    }
}

/// Whether `player` is among `participants`.
fn is_registered(participants: &Vec<PlayerKey>, player: &PlayerKey) -> (r: bool)
    ensures
        r == participants@.contains(*player),
{
    let mut i: usize = 0;
    while i < participants.len()
        invariant
            i <= participants@.len(),
            forall|j: int| 0 <= j < i ==> participants@[j] != *player,
        decreases participants@.len() - i,
    {
        if participants[i] == *player {
            return true;
        }
        i = i + 1;
    }
    false
}

/// Registers `player` for a tournament that is still taking entrants.
pub fn join_tournament(tournament: &mut Tournament, player: PlayerKey) -> (r: Result<(), ChessError>)
    ensures
        join_tournament_error(*old(tournament), player) matches Some(e) ==> r == Err::<(), ChessError>(e) && *final(tournament) == *old(tournament),
        join_tournament_error(*old(tournament), player) is None ==> {
            &&& r is Ok
            &&& final(tournament).participants@ == old(tournament).participants@.push(player)
            &&& *final(tournament) == (Tournament {
                participants: final(tournament).participants,
                current_participants: (old(tournament).current_participants + 1) as u32,
                ..*old(tournament)
            })
        },
        old(tournament).wf() ==> final(tournament).wf(),
{
    if tournament.status != TournamentStatus::Registration {
        return Err(ChessError::TournamentAlreadyStarted);
    }
    if tournament.current_participants >= tournament.max_participants {
        return Err(ChessError::InvalidStakeAmount);
    }
    if is_registered(&tournament.participants, &player) {
        return Err(ChessError::AlreadyDeposited);
    }
    tournament.participants.push(player);
    tournament.current_participants = tournament.current_participants + 1;
    Ok(())
}

/// Why `t` cannot start, if it cannot.
pub open spec fn start_tournament_error(t: Tournament) -> Option<ChessError> {
    if t.status != TournamentStatus::Registration {
        Some(ChessError::TournamentAlreadyStarted)
    } else if t.current_participants < MIN_PARTICIPANTS {
        Some(ChessError::InvalidStakeAmount)
    } else {
        None
    }
}

/// Closes registration and starts the tournament at `now`; the prize pool is
/// every entrant's fee.
pub fn start_tournament(tournament: &mut Tournament, now: i64) -> (r: Result<(), ChessError>)
    requires
        start_tournament_error(*old(tournament)) is None ==> old(tournament).entry_fee
            * old(tournament).current_participants <= u64::MAX,
    ensures
        start_tournament_error(*old(tournament)) matches Some(e) ==> r == Err::<(), ChessError>(e) && *final(tournament) == *old(tournament),
        start_tournament_error(*old(tournament)) is None ==> r is Ok && *final(tournament) == (Tournament {
            status: TournamentStatus::Active,
            started_at: now,
            prize_pool: (old(tournament).entry_fee * old(tournament).current_participants) as u64,
            ..*old(tournament)
        }),
        old(tournament).wf() ==> final(tournament).wf(),
{
    if tournament.status != TournamentStatus::Registration {
        return Err(ChessError::TournamentAlreadyStarted);
    }
    if tournament.current_participants < MIN_PARTICIPANTS {
        return Err(ChessError::InvalidStakeAmount);
    }
    tournament.status = TournamentStatus::Active;
    tournament.started_at = now;
    tournament.prize_pool = tournament.entry_fee * tournament.current_participants as u64;
    Ok(())
}

} // verus!
