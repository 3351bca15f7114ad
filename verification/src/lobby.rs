//! Lobby presence: joining, heartbeats, leaving and pruning stale players,
//! with the count of online players kept in step.
use vstd::prelude::*;

use crate::state::{LobbyState, PlayerStatus};
use crate::types::{flag, zero_key, GuessrError, Key32};

verus! {

/// Whether `now - last` is a value of `i64`.
pub open spec fn elapsed_fits(now: i64, last: i64) -> bool {
    i64::MIN <= now - last <= i64::MAX
}

/// Whether an online player's last heartbeat is within the lobby's time to
/// live.
pub open spec fn heartbeat_fresh(lobby: LobbyState, status: PlayerStatus, now: i64) -> bool {
    now - status.last_heartbeat_ts <= lobby.heartbeat_ttl_sec
}

/// Every lobby operation moves the count of online players by exactly the
/// change of the player's online flag.
pub open spec fn count_follows_flag(
    old_lobby: LobbyState,
    new_lobby: LobbyState,
    old_status: PlayerStatus,
    new_status: PlayerStatus,
) -> bool {
    new_lobby.online_players + flag(old_status.is_online) == old_lobby.online_players + flag(
        new_status.is_online,
    )
}

/// The outcome of joining the lobby.
pub open spec fn join_lobby_result(lobby: LobbyState, status: PlayerStatus, now: i64) -> Result<
    (),
    GuessrError,
> {
    if status.is_online && !elapsed_fits(now, status.last_heartbeat_ts) {
        Err(GuessrError::Overflow)
    } else if status.is_online && !heartbeat_fresh(lobby, status, now)
        && lobby.online_players == 0 {
        Err(GuessrError::Underflow)
    } else if !status.is_online && lobby.online_players == u32::MAX {
        Err(GuessrError::Overflow)
    } else {
        Ok(())
    }
}

/// Marks `player` online with a fresh heartbeat and no room. A player that
/// was not counted as online (offline, or online with an expired heartbeat,
/// who is first taken off the count) is added to the count.
pub fn join_lobby_handler(
    lobby: &mut LobbyState,
    player_status: &mut PlayerStatus,
    player: Key32,
    status_bump: u8,
    now: i64,
) -> (r: Result<(), GuessrError>)
    ensures
        r == join_lobby_result(*old(lobby), *old(player_status), now),
        r is Ok ==> final(lobby).online_players == (if old(player_status).is_online {
            old(lobby).online_players as int
        } else {
            old(lobby).online_players + 1
        }),
        r is Ok ==> *final(lobby) == (LobbyState {
            online_players: final(lobby).online_players,
            ..*old(lobby)
        }),
        r is Ok ==> *final(player_status) == (PlayerStatus {
            player: player,
            active_room: zero_key(),
            last_heartbeat_ts: now,
            is_online: true,
            bump: status_bump,
            ..*old(player_status)
        }),
        r is Err ==> *final(lobby) == *old(lobby) && *final(player_status) == *old(player_status),
        count_follows_flag(*old(lobby), *final(lobby), *old(player_status), *final(player_status)),
{
    let mut was_active = false;
    if player_status.is_online {
        let elapsed = match now.checked_sub(player_status.last_heartbeat_ts) {
            Some(v) => v,
            None => return Err(GuessrError::Overflow),
        };
        was_active = elapsed <= lobby.heartbeat_ttl_sec;
    }
    let mut online = lobby.online_players;
    if player_status.is_online && !was_active {
        online = match online.checked_sub(1) {
            Some(v) => v,
            None => return Err(GuessrError::Underflow),
        };
    }
    if !was_active {
        online = match online.checked_add(1) {
            Some(v) => v,
            None => return Err(GuessrError::Overflow),
        };
    }
    lobby.online_players = online;
    player_status.player = player;
    player_status.active_room = Key32::zero();
    player_status.last_heartbeat_ts = now;
    player_status.is_online = true;
    player_status.bump = status_bump;
    Ok(())
}

/// The outcome of a heartbeat.
pub open spec fn heartbeat_result(lobby: LobbyState, status: PlayerStatus, now: i64) -> Result<
    (),
    GuessrError,
> {
    if !status.is_online {
        Err(GuessrError::PlayerOffline)
    } else if !elapsed_fits(now, status.last_heartbeat_ts) {
        Err(GuessrError::Overflow)
    } else if !heartbeat_fresh(lobby, status, now) {
        if lobby.online_players == 0 {
            Err(GuessrError::Underflow)
        } else {
            Err(GuessrError::HeartbeatExpired)
        }
    } else {
        Ok(())
    }
}

/// Renews the heartbeat of an online player. When the last heartbeat is
/// older than the time to live, the player is taken offline, out of the
/// count and out of the room, and `HeartbeatExpired` is returned: the
/// player must join again.
pub fn heartbeat_handler(
    lobby: &mut LobbyState,
    player_status: &mut PlayerStatus,
    player: Key32,
    now: i64,
) -> (r: Result<(), GuessrError>)
    ensures
        old(player_status).player != player ==> r == Err::<(), GuessrError>(
            GuessrError::Unauthorized,
        ),
        old(player_status).player == player ==> r == heartbeat_result(
            *old(lobby),
            *old(player_status),
            now,
        ),
        r is Ok ==> *final(lobby) == *old(lobby) && *final(player_status) == (PlayerStatus {
            last_heartbeat_ts: now,
            ..*old(player_status)
        }),
        r == Err::<(), GuessrError>(GuessrError::HeartbeatExpired) ==> {
            &&& final(lobby).online_players == old(lobby).online_players - 1
            &&& *final(lobby) == LobbyState {
                online_players: final(lobby).online_players,
                ..*old(lobby)
            }
            &&& *final(player_status) == PlayerStatus {
                is_online: false,
                active_room: zero_key(),
                ..*old(player_status)
            }
        },
        r is Err && r != Err::<(), GuessrError>(GuessrError::HeartbeatExpired) ==> *final(lobby)
            == *old(lobby) && *final(player_status) == *old(player_status),
        count_follows_flag(*old(lobby), *final(lobby), *old(player_status), *final(player_status)),
{
    if !player_status.player.same_as(&player) {
        return Err(GuessrError::Unauthorized);
    }
    if !player_status.is_online {
        return Err(GuessrError::PlayerOffline);
    }
    let elapsed = match now.checked_sub(player_status.last_heartbeat_ts) {
        Some(v) => v,
        None => return Err(GuessrError::Overflow),
    };
    if elapsed > lobby.heartbeat_ttl_sec {
        lobby.online_players = match lobby.online_players.checked_sub(1) {
            Some(v) => v,
            None => return Err(GuessrError::Underflow),
        };
        player_status.is_online = false;
        player_status.active_room = Key32::zero();
        return Err(GuessrError::HeartbeatExpired);
    }
    player_status.last_heartbeat_ts = now;
    Ok(())
}

/// Takes a player offline and out of the room; an online player leaves the
/// count.
pub fn leave_lobby_handler(
    lobby: &mut LobbyState,
    player_status: &mut PlayerStatus,
    player: Key32,
) -> (r: Result<(), GuessrError>)
    ensures
        old(player_status).player != player ==> r == Err::<(), GuessrError>(
            GuessrError::Unauthorized,
        ),
        old(player_status).player == player && old(player_status).is_online && old(
            lobby,
        ).online_players == 0 ==> r == Err::<(), GuessrError>(GuessrError::Underflow),
        old(player_status).player == player && !(old(player_status).is_online && old(
            lobby,
        ).online_players == 0) ==> r is Ok,
        r is Ok ==> final(lobby).online_players == old(lobby).online_players - flag(
            old(player_status).is_online,
        ),
        r is Ok ==> *final(lobby) == (LobbyState {
            online_players: final(lobby).online_players,
            ..*old(lobby)
        }),
        r is Ok ==> *final(player_status) == (PlayerStatus {
            is_online: false,
            active_room: zero_key(),
            ..*old(player_status)
        }),
        r is Err ==> *final(lobby) == *old(lobby) && *final(player_status) == *old(player_status),
        count_follows_flag(*old(lobby), *final(lobby), *old(player_status), *final(player_status)),
{
    if !player_status.player.same_as(&player) {
        return Err(GuessrError::Unauthorized);
    }
    if player_status.is_online {
        lobby.online_players = match lobby.online_players.checked_sub(1) {
            Some(v) => v,
            None => return Err(GuessrError::Underflow),
        };
    }
    player_status.is_online = false;
    player_status.active_room = Key32::zero();
    Ok(())
}

/// The outcome of pruning a player.
pub open spec fn prune_result(lobby: LobbyState, status: PlayerStatus, now: i64) -> Result<
    (),
    GuessrError,
> {
    if !status.is_online {
        Ok(())
    } else if !elapsed_fits(now, status.last_heartbeat_ts) {
        Err(GuessrError::Overflow)
    } else if !heartbeat_fresh(lobby, status, now) && lobby.online_players == 0 {
        Err(GuessrError::Underflow)
    } else {
        Ok(())
    }
}

/// Lets anyone take an online player whose heartbeat expired offline, out of
/// the count and out of the room. Players that are offline or fresh are left
/// as they are.
pub fn prune_stale_player_handler(
    lobby: &mut LobbyState,
    player_status: &mut PlayerStatus,
    now: i64,
) -> (r: Result<(), GuessrError>)
    ensures
        r == prune_result(*old(lobby), *old(player_status), now),
        r is Ok && old(player_status).is_online && !heartbeat_fresh(
            *old(lobby),
            *old(player_status),
            now,
        ) ==> {
            &&& final(lobby).online_players == old(lobby).online_players - 1
            &&& *final(lobby) == LobbyState {
                online_players: final(lobby).online_players,
                ..*old(lobby)
            }
            &&& *final(player_status) == PlayerStatus {
                is_online: false,
                active_room: zero_key(),
                ..*old(player_status)
            }
        },
        !(r is Ok && old(player_status).is_online && !heartbeat_fresh(
            *old(lobby),
            *old(player_status),
            now,
        )) ==> *final(lobby) == *old(lobby) && *final(player_status) == *old(player_status),
        count_follows_flag(*old(lobby), *final(lobby), *old(player_status), *final(player_status)),
{
    if !player_status.is_online {
        return Ok(());
    }
    let elapsed = match now.checked_sub(player_status.last_heartbeat_ts) {
        Some(v) => v,
        None => return Err(GuessrError::Overflow),
    };
    if elapsed > lobby.heartbeat_ttl_sec {
        lobby.online_players = match lobby.online_players.checked_sub(1) {
            Some(v) => v,
            None => return Err(GuessrError::Underflow),
        };
        player_status.is_online = false;
        player_status.active_room = Key32::zero();
    }
    Ok(())
}

} // verus!
