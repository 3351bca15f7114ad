use guessr::pool::{clear_room_handler, enter_room_handler};
use guessr::state::{PlayerStatus, RoomPool, RoomPoolEntry, ROOM_POOL_MAX_ENTRIES};
use guessr::types::{GuessrError, Key32, ROOM_STATUS_CLEARED, ROOM_STATUS_WAITING};

fn key(b: u8) -> Key32 {
    Key32 { bytes: [b; 32] }
}

fn pool() -> RoomPool {
    RoomPool {
        write_index: 0,
        entry_count: 0,
        entries: [RoomPoolEntry::empty(); ROOM_POOL_MAX_ENTRIES],
        bump: 3,
    }
}

fn status(p: u8, online: bool) -> PlayerStatus {
    PlayerStatus {
        player: key(p),
        session_address: Key32::zero(),
        active_room: Key32::zero(),
        last_heartbeat_ts: 0,
        is_online: online,
        bump: 1,
    }
}

fn signal(n: u8) -> RoomPoolEntry {
    let mut e = RoomPoolEntry::empty();
    e.room_id = key(n);
    e
}

#[test]
fn pushes_fill_the_ring_and_then_overwrite_the_oldest() {
    let mut p = pool();
    for n in 0..ROOM_POOL_MAX_ENTRIES {
        p.push_entry(signal(n as u8 + 1));
    }
    assert_eq!(p.entry_count as usize, ROOM_POOL_MAX_ENTRIES);
    assert_eq!(p.write_index as usize, ROOM_POOL_MAX_ENTRIES);
    assert_eq!(p.entries[0].room_id, key(1));
    p.push_entry(signal(200));
    assert_eq!(p.entry_count as usize, ROOM_POOL_MAX_ENTRIES);
    assert_eq!(p.entries[0].room_id, key(200));
    assert_eq!(p.entries[1].room_id, key(2));
    assert_eq!(p.bump, 3);
}

#[test]
fn the_write_index_wraps() {
    let mut p = pool();
    p.write_index = u32::MAX;
    p.push_entry(signal(9));
    assert_eq!(p.write_index, 0);
    assert_eq!(p.entries[(u32::MAX as usize) % ROOM_POOL_MAX_ENTRIES].room_id, key(9));
    assert_eq!(p.entry_count, 1);
}

#[test]
fn entering_announces_the_room() {
    let mut s = status(1, true);
    let mut p = pool();
    assert_eq!(
        enter_room_handler(&mut s, &mut p, key(30), key(1), key(40), 0, 1, 2, ROOM_STATUS_WAITING, key(1), Key32::zero(), 55),
        Ok(())
    );
    assert_eq!(s.active_room, key(40));
    assert_eq!(s.last_heartbeat_ts, 55);
    let e = p.entries[0];
    assert_eq!(e.room_id, key(40));
    assert_eq!(e.wallet, key(1));
    assert_eq!(e.session, key(30));
    assert_eq!((e.status, e.slot_filled, e.slot_total, e.match_mode), (ROOM_STATUS_WAITING, 1, 2, 0));
    assert_eq!(e.players, [key(1), Key32::zero()]);
    assert_eq!(e.last_update_ts, 55);
    assert_eq!(p.entry_count, 1);
    let mut off = status(1, false);
    assert_eq!(
        enter_room_handler(&mut off, &mut p, key(30), key(1), key(40), 0, 1, 2, 0, key(1), Key32::zero(), 55),
        Err(GuessrError::PlayerOffline)
    );
    assert_eq!(
        enter_room_handler(&mut s, &mut p, key(30), key(2), key(40), 0, 1, 2, 0, key(1), Key32::zero(), 55),
        Err(GuessrError::Unauthorized)
    );
    assert_eq!(p.entry_count, 1);
}

#[test]
fn clearing_announces_the_departure() {
    let mut s = status(1, true);
    s.active_room = key(40);
    let mut p = pool();
    assert_eq!(clear_room_handler(&mut s, &mut p, key(30), key(1), 66), Ok(()));
    assert_eq!(s.active_room, Key32::zero());
    let e = p.entries[0];
    assert_eq!(e.room_id, key(40));
    assert_eq!(e.status, ROOM_STATUS_CLEARED);
    assert_eq!(e.players, [key(1), Key32::zero()]);
    assert_eq!((e.slot_filled, e.slot_total, e.match_mode), (0, 0, 0));
    assert_eq!(e.session, key(30));
    assert_eq!(e.last_update_ts, 66);
    assert_eq!(clear_room_handler(&mut s, &mut p, key(30), key(2), 66), Err(GuessrError::Unauthorized));
}
