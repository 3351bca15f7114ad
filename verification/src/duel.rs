//! Settling a duel: declaring the winner and recording the match in both
//! players' profiles.
use vstd::prelude::*;

use crate::profile::{
    apply_result, profile_after, profile_with_result, result_fits, ProfileMatchMode,
    ProfileOutcome,
};
use crate::ranked::{delta_fits, earning_delta_of};
use crate::state::{DuelRoom, PlayerProfile, PlayerStatus};
use crate::types::{zero_key, GuessrError, Key32};

verus! {

/// The experience a duelist earns: 15, plus a twentieth of the score, plus 25
/// for a win or 8 otherwise.
pub open spec fn duel_xp(score: u64, won: bool) -> int {
    15 + score / 20 + (if won {
        25int
    } else {
        8int
    })
}

/// How the duel ended for `seat`.
pub open spec fn duel_outcome(is_draw: bool, winner: Key32, seat: Key32) -> ProfileOutcome {
    if is_draw {
        ProfileOutcome::Draw
    } else if winner == seat {
        ProfileOutcome::Win
    } else {
        ProfileOutcome::Loss
    }
}

/// The first check that settling a duel fails, or `Ok`.
pub open spec fn settle_duel_check(
    status: PlayerStatus,
    room: DuelRoom,
    host_profile: PlayerProfile,
    challenger_profile: PlayerProfile,
    player: Key32,
    room_id: Key32,
    winner: Key32,
    is_draw: bool,
    host_score: u64,
    challenger_score: u64,
) -> Result<(), GuessrError> {
    let host_won = !is_draw && winner == room.host;
    let challenger_won = !is_draw && winner == room.challenger;
    if status.player != player {
        Err(GuessrError::Unauthorized)
    } else if room.room_id != room_id {
        Err(GuessrError::RoomMismatch)
    } else if room.is_settled {
        Err(GuessrError::DuelAlreadySettled)
    } else if !(room.host == player || room.challenger == player) {
        Err(GuessrError::PlayerNotInRoom)
    } else if room.challenger == zero_key() {
        Err(GuessrError::DuelRoomIncomplete)
    } else if !is_draw && !(winner == room.host || winner == room.challenger) {
        Err(GuessrError::InvalidWinner)
    } else if !delta_fits(room.host_earned, room.host_lost) {
        Err(GuessrError::Overflow)
    } else if !delta_fits(room.challenger_earned, room.challenger_lost) {
        Err(GuessrError::Overflow)
    } else if !result_fits(
        host_profile,
        ProfileMatchMode::Duel,
        duel_outcome(is_draw, winner, room.host),
        duel_xp(host_score, host_won) as u64,
        (room.host_earned - room.host_lost) as i64,
    ) {
        Err(GuessrError::Overflow)
    } else {
        apply_result(
            challenger_profile,
            ProfileMatchMode::Duel,
            duel_outcome(is_draw, winner, room.challenger),
            duel_xp(challenger_score, challenger_won) as u64,
            (room.challenger_earned - room.challenger_lost) as i64,
        )
    }
}

/// Settles a duel that has both seats taken, at the request of one of the
/// two players. The winner must be one of them unless the duel is a draw.
/// Both profiles record the duel with the experience of `duel_xp` and, as
/// earnings, what the seat earned minus what it lost in the room. The
/// requesting player leaves the room if it is the active one. On any error
/// nothing changes.
pub fn settle_duel_room_handler(
    player_status: &mut PlayerStatus,
    duel_room: &mut DuelRoom,
    host_profile: &mut PlayerProfile,
    challenger_profile: &mut PlayerProfile,
    player: Key32,
    room_id: Key32,
    winner: Key32,
    is_draw: bool,
    host_score: u64,
    challenger_score: u64,
    host_profile_bump: u8,
    challenger_profile_bump: u8,
    now_ts: i64,
) -> (r: Result<(), GuessrError>)
    ensures
        r == settle_duel_check(
            *old(player_status),
            *old(duel_room),
            *old(host_profile),
            *old(challenger_profile),
            player,
            room_id,
            winner,
            is_draw,
            host_score,
            challenger_score,
        ),
        r is Ok ==> {
            let room = *old(duel_room);
            let host_won = !is_draw && winner == room.host;
            let challenger_won = !is_draw && winner == room.challenger;
            &&& *final(duel_room) == DuelRoom {
                winner: if is_draw {
                    zero_key()
                } else {
                    winner
                },
                host_score: host_score,
                challenger_score: challenger_score,
                is_settled: true,
                last_update_ts: now_ts,
                ..room
            }
            &&& *final(host_profile) == profile_after(
                *old(host_profile),
                room.host,
                ProfileMatchMode::Duel,
                duel_outcome(is_draw, winner, room.host),
                duel_xp(host_score, host_won) as u64,
                (room.host_earned - room.host_lost) as i64,
                host_score,
                host_profile_bump,
                now_ts,
            )
            &&& *final(challenger_profile) == profile_after(
                *old(challenger_profile),
                room.challenger,
                ProfileMatchMode::Duel,
                duel_outcome(is_draw, winner, room.challenger),
                duel_xp(challenger_score, challenger_won) as u64,
                (room.challenger_earned - room.challenger_lost) as i64,
                challenger_score,
                challenger_profile_bump,
                now_ts,
            )
            &&& *final(player_status) == if old(player_status).active_room == room_id {
                PlayerStatus { active_room: zero_key(), ..*old(player_status) }
            } else {
                *old(player_status)
            }
        },
        r is Ok ==> final(host_profile).total_xp == old(host_profile).total_xp + 15 + host_score
            / 20 + (if !is_draw && winner == old(duel_room).host {
            25int
        } else {
            8int
        }),
        r is Ok ==> final(challenger_profile).total_xp == old(challenger_profile).total_xp + 15
            + challenger_score / 20 + (if !is_draw && winner == old(duel_room).challenger {
            25int
        } else {
            8int
        }),
        r is Err ==> {
            &&& *final(player_status) == *old(player_status)
            &&& *final(duel_room) == *old(duel_room)
            &&& *final(host_profile) == *old(host_profile)
            &&& *final(challenger_profile) == *old(challenger_profile)
        },
{
    if !player_status.player.same_as(&player) {
        return Err(GuessrError::Unauthorized);
    }
    if !duel_room.room_id.same_as(&room_id) {
        return Err(GuessrError::RoomMismatch);
    }
    if duel_room.is_settled {
        return Err(GuessrError::DuelAlreadySettled);
    }
    if !(duel_room.host.same_as(&player) || duel_room.challenger.same_as(&player)) {
        return Err(GuessrError::PlayerNotInRoom);
    }
    if duel_room.challenger.is_zero() {
        return Err(GuessrError::DuelRoomIncomplete);
    }
    let winner_is_host = winner.same_as(&duel_room.host);
    let winner_is_challenger = winner.same_as(&duel_room.challenger);
    if !is_draw && !(winner_is_host || winner_is_challenger) {
        return Err(GuessrError::InvalidWinner);
    }
    let host_earning_delta = earning_delta_of(duel_room.host_earned, duel_room.host_lost)?;
    let challenger_earning_delta = earning_delta_of(
        duel_room.challenger_earned,
        duel_room.challenger_lost,
    )?;

    let host_xp: u64 = 15 + host_score / 20 + if !is_draw && winner_is_host {
        25
    } else {
        8
    };
    let challenger_xp: u64 = 15 + challenger_score / 20 + if !is_draw && winner_is_challenger {
        25
    } else {
        8
    };
    let host_outcome = if is_draw {
        ProfileOutcome::Draw
    } else if winner_is_host {
        ProfileOutcome::Win
    } else {
        ProfileOutcome::Loss
    };
    let challenger_outcome = if is_draw {
        ProfileOutcome::Draw
    } else if winner_is_challenger {
        ProfileOutcome::Win
    } else {
        ProfileOutcome::Loss
    };

    let new_host = profile_with_result(
        host_profile,
        duel_room.host,
        ProfileMatchMode::Duel,
        host_outcome,
        host_xp,
        host_earning_delta,
        host_score,
        host_profile_bump,
        now_ts,
    )?;
    let new_challenger = profile_with_result(
        challenger_profile,
        duel_room.challenger,
        ProfileMatchMode::Duel,
        challenger_outcome,
        challenger_xp,
        challenger_earning_delta,
        challenger_score,
        challenger_profile_bump,
        now_ts,
    )?;

    duel_room.winner = if is_draw {
        Key32::zero()
    } else {
        winner
    };
    duel_room.host_score = host_score;
    duel_room.challenger_score = challenger_score;
    duel_room.is_settled = true;
    duel_room.last_update_ts = now_ts;
    *host_profile = new_host;
    *challenger_profile = new_challenger;
    if player_status.active_room.same_as(&room_id) {
        player_status.active_room = Key32::zero();
    }
    Ok(())
}

} // verus!
