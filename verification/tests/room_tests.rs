use guessr::access::{ensure_player_authority, ensure_wallet_matches_status};
use guessr::room::{clear_room_handler, enter_room_handler};
use guessr::state::{DuelRoom, PlayerStatus};
use guessr::types::{GuessrError, Key32};

fn key(b: u8) -> Key32 {
    Key32 { bytes: [b; 32] }
}

fn status(player: u8, online: bool) -> PlayerStatus {
    PlayerStatus {
        player: key(player),
        session_address: Key32::zero(),
        active_room: Key32::zero(),
        last_heartbeat_ts: 0,
        is_online: online,
        bump: 1,
    }
}

fn unused_room() -> DuelRoom {
    DuelRoom {
        room_id: Key32::zero(),
        host: Key32::zero(),
        challenger: Key32::zero(),
        player_count: 0,
        is_settled: false,
        host_score: 0,
        challenger_score: 0,
        host_earned: 0,
        host_lost: 0,
        challenger_earned: 0,
        challenger_lost: 0,
        winner: Key32::zero(),
        last_update_ts: 0,
        bump: 0,
    }
}

#[test]
fn wallet_check_accepts_owner_only() {
    let s = status(1, true);
    assert_eq!(ensure_wallet_matches_status(&s, key(1)), Ok(()));
    assert_eq!(ensure_wallet_matches_status(&s, key(2)), Err(GuessrError::Unauthorized));
    assert_eq!(ensure_player_authority(&s, key(99)), Ok(()));
}

#[test]
fn first_player_opens_the_room_as_host() {
    let mut s = status(1, true);
    let mut room = unused_room();
    assert_eq!(enter_room_handler(&mut s, &mut room, key(1), key(1), key(40), 6, 100), Ok(()));
    assert_eq!(room.room_id, key(40));
    assert_eq!(room.host, key(1));
    assert_eq!(room.challenger, Key32::zero());
    assert_eq!(room.player_count, 1);
    assert_eq!(room.bump, 6);
    assert_eq!(room.last_update_ts, 100);
    assert_eq!(s.active_room, key(40));
    assert_eq!(s.last_heartbeat_ts, 100);
}

#[test]
fn second_player_takes_the_challenger_seat_and_third_is_refused() {
    let mut host = status(1, true);
    let mut room = unused_room();
    enter_room_handler(&mut host, &mut room, key(1), key(1), key(40), 6, 100).unwrap();
    let mut guest = status(2, true);
    assert_eq!(enter_room_handler(&mut guest, &mut room, key(77), key(2), key(40), 6, 110), Ok(()));
    assert_eq!(room.challenger, key(2));
    assert_eq!(room.player_count, 2);
    assert_eq!(room.last_update_ts, 110);
    // the host enters again: nothing but the time changes
    assert_eq!(enter_room_handler(&mut host, &mut room, key(1), key(1), key(40), 6, 120), Ok(()));
    assert_eq!(room.player_count, 2);
    assert_eq!(room.last_update_ts, 120);
    let mut third = status(3, true);
    let before = room;
    assert_eq!(
        enter_room_handler(&mut third, &mut room, key(3), key(3), key(40), 6, 130),
        Err(GuessrError::RoomFull)
    );
    assert_eq!(room, before);
    assert_eq!(third.active_room, Key32::zero());
}

#[test]
fn entering_is_refused_for_wrong_room_settled_room_offline_or_other_wallet() {
    let mut s = status(1, true);
    let mut room = unused_room();
    room.room_id = key(40);
    room.host = key(5);
    room.player_count = 1;
    assert_eq!(
        enter_room_handler(&mut s, &mut room, key(1), key(1), key(41), 6, 100),
        Err(GuessrError::RoomMismatch)
    );
    room.is_settled = true;
    assert_eq!(
        enter_room_handler(&mut s, &mut room, key(1), key(1), key(40), 6, 100),
        Err(GuessrError::DuelAlreadySettled)
    );
    let mut off = status(1, false);
    assert_eq!(
        enter_room_handler(&mut off, &mut room, key(1), key(1), key(40), 6, 100),
        Err(GuessrError::PlayerOffline)
    );
    assert_eq!(
        enter_room_handler(&mut s, &mut room, key(1), key(2), key(40), 6, 100),
        Err(GuessrError::Unauthorized)
    );
}

#[test]
fn joining_a_room_with_a_full_seat_count_overflows() {
    let mut s = status(2, true);
    let mut room = unused_room();
    room.room_id = key(40);
    room.host = key(5);
    room.player_count = u8::MAX;
    assert_eq!(
        enter_room_handler(&mut s, &mut room, key(2), key(2), key(40), 6, 100),
        Err(GuessrError::Overflow)
    );
    assert_eq!(room.challenger, Key32::zero());
}

#[test]
fn clearing_the_room_keeps_the_rest() {
    let mut s = status(1, true);
    s.active_room = key(40);
    assert_eq!(clear_room_handler(&mut s, key(1), key(1)), Ok(()));
    assert_eq!(s.active_room, Key32::zero());
    assert!(s.is_online);
    let mut other = status(1, true);
    other.active_room = key(40);
    assert_eq!(clear_room_handler(&mut other, key(1), key(2)), Err(GuessrError::Unauthorized));
    assert_eq!(other.active_room, key(40));
}
