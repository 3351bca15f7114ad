//! Entering and leaving duel rooms.
use vstd::prelude::*;

use crate::access::{ensure_player_authority, ensure_wallet_matches_status};
use crate::state::{DuelRoom, PlayerStatus};
use crate::types::{zero_key, GuessrError, Key32};

verus! {

/// A duel room just opened by `host`.
pub open spec fn fresh_duel_room(room_id: Key32, host: Key32, bump: u8, now_ts: i64) -> DuelRoom {
    DuelRoom {
        room_id: room_id,
        host: host,
        challenger: zero_key(),
        player_count: 1,
        is_settled: false,
        host_score: 0,
        challenger_score: 0,
        host_earned: 0,
        host_lost: 0,
        challenger_earned: 0,
        challenger_lost: 0,
        winner: zero_key(),
        last_update_ts: now_ts,
        bump: bump,
    }
}

/// Whether `player` already takes part in the room.
pub open spec fn in_room(room: DuelRoom, player: Key32) -> bool {
    room.host == player || room.challenger == player
}

/// The outcome of entering a duel room.
pub open spec fn enter_room_result(
    status: PlayerStatus,
    room: DuelRoom,
    wallet_address: Key32,
    room_id: Key32,
) -> Result<(), GuessrError> {
    let player = status.player;
    if status.player != wallet_address {
        Err(GuessrError::Unauthorized)
    } else if !status.is_online {
        Err(GuessrError::PlayerOffline)
    } else if room.room_id == zero_key() {
        Ok(())
    } else if room.room_id != room_id {
        Err(GuessrError::RoomMismatch)
    } else if room.is_settled {
        Err(GuessrError::DuelAlreadySettled)
    } else if in_room(room, player) {
        Ok(())
    } else if room.challenger != zero_key() {
        Err(GuessrError::RoomFull)
    } else if room.player_count + 1 > u8::MAX {
        Err(GuessrError::Overflow)
    } else {
        Ok(())
    }
}

/// The room after `player` entered it.
pub open spec fn room_after_enter(
    room: DuelRoom,
    player: Key32,
    room_id: Key32,
    bump: u8,
    now_ts: i64,
) -> DuelRoom {
    if room.room_id == zero_key() {
        fresh_duel_room(room_id, player, bump, now_ts)
    } else if in_room(room, player) {
        DuelRoom { last_update_ts: now_ts, ..room }
    } else {
        DuelRoom {
            challenger: player,
            player_count: (room.player_count + 1) as u8,
            last_update_ts: now_ts,
            ..room
        }
    }
}

/// Enters an online player into a duel room. An unused room (all-zero id)
/// is opened with the player as host; an open room takes the player as
/// challenger when that seat is free; a player already seated stays. The
/// room becomes the player's active room. On any error nothing changes.
pub fn enter_room_handler(
    player_status: &mut PlayerStatus,
    duel_room: &mut DuelRoom,
    authority: Key32,
    wallet_address: Key32,
    room_id: Key32,
    room_bump: u8,
    now_ts: i64,
) -> (r: Result<(), GuessrError>)
    ensures
        r == enter_room_result(*old(player_status), *old(duel_room), wallet_address, room_id),
        r is Ok ==> *final(duel_room) == room_after_enter(
            *old(duel_room),
            old(player_status).player,
            room_id,
            room_bump,
            now_ts,
        ),
        r is Ok ==> *final(player_status) == (PlayerStatus {
            active_room: room_id,
            last_heartbeat_ts: now_ts,
            ..*old(player_status)
        }),
        r is Err ==> *final(duel_room) == *old(duel_room) && *final(player_status) == *old(
            player_status,
        ),
{
    ensure_wallet_matches_status(player_status, wallet_address)?;
    ensure_player_authority(player_status, authority)?;
    let player = player_status.player;
    if !player_status.is_online {
        return Err(GuessrError::PlayerOffline);
    }
    if duel_room.room_id.is_zero() {
        *duel_room = DuelRoom {
            room_id: room_id,
            host: player,
            challenger: Key32::zero(),
            player_count: 1,
            is_settled: false,
            host_score: 0,
            challenger_score: 0,
            host_earned: 0,
            host_lost: 0,
            challenger_earned: 0,
            challenger_lost: 0,
            winner: Key32::zero(),
            last_update_ts: now_ts,
            bump: room_bump,
        };
    } else {
        if !duel_room.room_id.same_as(&room_id) {
            return Err(GuessrError::RoomMismatch);
        }
        if duel_room.is_settled {
            return Err(GuessrError::DuelAlreadySettled);
        }
        if !duel_room.host.same_as(&player) && !duel_room.challenger.same_as(&player) {
            if duel_room.challenger.is_zero() {
                let count = match duel_room.player_count.checked_add(1) {
                    Some(v) => v,
                    None => return Err(GuessrError::Overflow),
                };
                duel_room.challenger = player;
                duel_room.player_count = count;
            } else {
                return Err(GuessrError::RoomFull);
            }
        }
        duel_room.last_update_ts = now_ts;
    }
    player_status.active_room = room_id;
    player_status.last_heartbeat_ts = now_ts;
    Ok(())
}

/// Takes the player out of its active room.
pub fn clear_room_handler(
    player_status: &mut PlayerStatus,
    authority: Key32,
    wallet_address: Key32,
) -> (r: Result<(), GuessrError>)
    ensures
        old(player_status).player != wallet_address ==> r == Err::<(), GuessrError>(
            GuessrError::Unauthorized,
        ),
        old(player_status).player == wallet_address ==> r is Ok,
        r is Ok ==> *final(player_status) == (PlayerStatus {
            active_room: zero_key(),
            ..*old(player_status)
        }),
        r is Err ==> *final(player_status) == *old(player_status),
{
    ensure_wallet_matches_status(player_status, wallet_address)?;
    ensure_player_authority(player_status, authority)?;
    player_status.active_room = Key32::zero();
    Ok(())
}

} // verus!
