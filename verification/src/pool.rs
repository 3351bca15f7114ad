//! Matchmaking through the shared room pool: players announce entering and
//! leaving rooms as ring-buffer entries.
use vstd::prelude::*;

use crate::access::{ensure_player_authority, ensure_wallet_matches_status};
use crate::state::{PlayerStatus, RoomPool, RoomPoolEntry, ROOM_POOL_MAX_ENTRIES};
use crate::types::{zero_key, GuessrError, Key32, ROOM_STATUS_CLEARED};

verus! {

/// The pool after `entry` is pushed.
pub open spec fn pool_after_push(pool: RoomPool, entry: RoomPoolEntry) -> RoomPool {
    RoomPool {
        entries: vstd::array::spec_array_update(
            pool.entries,
            pool.write_index as int % ROOM_POOL_MAX_ENTRIES as int,
            entry,
        ),
        write_index: ((pool.write_index as int + 1) % 0x1_0000_0000) as u32,
        entry_count: if pool.entry_count < ROOM_POOL_MAX_ENTRIES {
            (pool.entry_count + 1) as u32
        } else {
            pool.entry_count
        },
        ..pool
    }
}

/// Whether two pools hold the same values, slot by slot.
pub open spec fn same_pool(a: RoomPool, b: RoomPool) -> bool {
    &&& a.entries@ == b.entries@
    &&& a.write_index == b.write_index
    &&& a.entry_count == b.entry_count
    &&& a.bump == b.bump
}

/// Enters an online player into a room: the room becomes the player's active
/// room and the player's announcement (room, mode, seats, status and the pair
/// of players) is pushed to the pool, signed by `authority`. On any error
/// nothing changes.
pub fn enter_room_handler(
    player_status: &mut PlayerStatus,
    room_pool: &mut RoomPool,
    authority: Key32,
    wallet_address: Key32,
    room_id: Key32,
    match_mode: u8,
    slot_filled: u8,
    slot_total: u8,
    status: u8,
    player_a: Key32,
    player_b: Key32,
    now_ts: i64,
) -> (r: Result<(), GuessrError>)
    ensures
        old(player_status).player != wallet_address ==> r == Err::<(), GuessrError>(
            GuessrError::Unauthorized,
        ),
        old(player_status).player == wallet_address && !old(player_status).is_online ==> r
            == Err::<(), GuessrError>(GuessrError::PlayerOffline),
        old(player_status).player == wallet_address && old(player_status).is_online ==> (r is Ok),
        r is Ok ==> *final(player_status) == (PlayerStatus {
            active_room: room_id,
            last_heartbeat_ts: now_ts,
            ..*old(player_status)
        }),
        r is Ok ==> same_pool(
            *final(room_pool),
            pool_after_push(
                *old(room_pool),
                RoomPoolEntry {
                    room_id: room_id,
                    wallet: old(player_status).player,
                    session: authority,
                    status: status,
                    slot_filled: slot_filled,
                    slot_total: slot_total,
                    match_mode: match_mode,
                    players: [player_a, player_b],
                    last_update_ts: now_ts,
                },
            ),
        ),
        r is Err ==> *final(player_status) == *old(player_status) && *final(room_pool) == *old(
            room_pool,
        ),
{
    ensure_wallet_matches_status(player_status, wallet_address)?;
    ensure_player_authority(player_status, authority)?;
    if !player_status.is_online {
        return Err(GuessrError::PlayerOffline);
    }
    player_status.active_room = room_id;
    player_status.last_heartbeat_ts = now_ts;
    room_pool.push_entry(
        RoomPoolEntry {
            room_id: room_id,
            wallet: player_status.player,
            session: authority,
            status: status,
            slot_filled: slot_filled,
            slot_total: slot_total,
            match_mode: match_mode,
            players: [player_a, player_b],
            last_update_ts: now_ts,
        },
    );
    Ok(())
}

/// Takes the player out of its active room and announces the departure in
/// the pool as a cleared entry for that room. On any error nothing changes.
pub fn clear_room_handler(
    player_status: &mut PlayerStatus,
    room_pool: &mut RoomPool,
    authority: Key32,
    wallet_address: Key32,
    now_ts: i64,
) -> (r: Result<(), GuessrError>)
    ensures
        old(player_status).player != wallet_address ==> r == Err::<(), GuessrError>(
            GuessrError::Unauthorized,
        ),
        old(player_status).player == wallet_address ==> (r is Ok),
        r is Ok ==> *final(player_status) == (PlayerStatus {
            active_room: zero_key(),
            ..*old(player_status)
        }),
        r is Ok ==> same_pool(
            *final(room_pool),
            pool_after_push(
                *old(room_pool),
                RoomPoolEntry {
                    room_id: old(player_status).active_room,
                    wallet: old(player_status).player,
                    session: authority,
                    status: ROOM_STATUS_CLEARED,
                    slot_filled: 0,
                    slot_total: 0,
                    match_mode: 0,
                    players: [old(player_status).player, zero_key()],
                    last_update_ts: now_ts,
                },
            ),
        ),
        r is Err ==> *final(player_status) == *old(player_status) && *final(room_pool) == *old(
            room_pool,
        ),
{
    ensure_wallet_matches_status(player_status, wallet_address)?;
    ensure_player_authority(player_status, authority)?;
    let room_id = player_status.active_room;
    player_status.active_room = Key32::zero();
    let player = player_status.player;
    room_pool.push_entry(
        RoomPoolEntry {
            room_id: room_id,
            wallet: player,
            session: authority,
            status: ROOM_STATUS_CLEARED,
            slot_filled: 0,
            slot_total: 0,
            match_mode: 0,
            players: [player, Key32::zero()],
            last_update_ts: now_ts,
        },
    );
    Ok(())
}

} // verus!
