//! Live per-round updates from players: free play and duels.
use vstd::prelude::*;

use crate::access::{ensure_player_authority, ensure_wallet_matches_status};
use crate::room::in_room;
use crate::state::{DuelRoom, PlayerLiveState, PlayerStatus};
use crate::types::{zero_key, GuessrError, Key32, TokenAccountData, TokenEffects};

verus! {

/// Whether the session-key rule refuses the update: a nonzero session key
/// sent by anyone but the wallet must be the signer itself.
pub open spec fn session_refused(wallet_address: Key32, authority: Key32, session: Key32) -> bool {
    session != zero_key() && authority != wallet_address && session != authority
}

/// The player status after a live update: the wallet may register a new
/// session key, and the heartbeat is renewed.
pub open spec fn status_after_update(
    status: PlayerStatus,
    wallet_address: Key32,
    authority: Key32,
    session: Key32,
    now_ts: i64,
) -> PlayerStatus {
    PlayerStatus {
        session_address: if session != zero_key() && authority == wallet_address {
            session
        } else {
            status.session_address
        },
        last_heartbeat_ts: now_ts,
        ..status
    }
}

/// Applies the session-key rule to `player_status`.
fn apply_session(
    player_status: &mut PlayerStatus,
    wallet_address: Key32,
    authority: Key32,
    session_address: Key32,
) -> (r: Result<(), GuessrError>)
    ensures
        session_refused(wallet_address, authority, session_address) ==> r == Err::<
            (),
            GuessrError,
        >(GuessrError::Unauthorized),
        session_refused(wallet_address, authority, session_address) ==> *final(player_status)
            == *old(player_status),
        !session_refused(wallet_address, authority, session_address) ==> (r is Ok),
        !session_refused(wallet_address, authority, session_address) ==> *final(player_status)
            == (PlayerStatus {
            session_address: if session_address != zero_key() && authority == wallet_address {
                session_address
            } else {
                old(player_status).session_address
            },
            ..*old(player_status)
        }),
{
    if !session_address.is_zero() {
        if authority.same_as(&wallet_address) {
            player_status.session_address = session_address;
        } else if !session_address.same_as(&authority) {
            return Err(GuessrError::Unauthorized);
        }
    }
    Ok(())
}

/// The outcome of a free-play update.
pub open spec fn update_player_result(
    status: PlayerStatus,
    wallet_address: Key32,
    authority: Key32,
    session: Key32,
    room_id: Key32,
) -> Result<(), GuessrError> {
    if status.player != wallet_address {
        Err(GuessrError::Unauthorized)
    } else if !status.is_online {
        Err(GuessrError::PlayerOffline)
    } else if status.active_room != room_id {
        Err(GuessrError::RoomMismatch)
    } else if session_refused(wallet_address, authority, session) {
        Err(GuessrError::Unauthorized)
    } else {
        Ok(())
    }
}

/// Records the live state of an online player in its active room. The signer
/// is the wallet or a session key; the wallet may register a new session key.
/// On any error nothing changes.
pub fn update_player_state_handler(
    player_status: &mut PlayerStatus,
    live_state: &mut PlayerLiveState,
    authority: Key32,
    wallet_address: Key32,
    session_address: Key32,
    room_id: Key32,
    round_index: u16,
    hp: u16,
    total_score: u64,
    earned_amount: u64,
    movement_hash: Key32,
    live_bump: u8,
    now_ts: i64,
) -> (r: Result<(), GuessrError>)
    ensures
        r == update_player_result(
            *old(player_status),
            wallet_address,
            authority,
            session_address,
            room_id,
        ),
        r is Ok ==> *final(player_status) == status_after_update(
            *old(player_status),
            wallet_address,
            authority,
            session_address,
            now_ts,
        ),
        r is Ok ==> *final(live_state) == (PlayerLiveState {
            player: old(player_status).player,
            wallet_address: old(player_status).player,
            session_address: authority,
            room_id: room_id,
            round_index: round_index,
            hp: hp,
            total_score: total_score,
            earned_amount: earned_amount,
            movement_hash: movement_hash,
            last_update_ts: now_ts,
            bump: live_bump,
        }),
        r is Err ==> *final(player_status) == *old(player_status) && *final(live_state) == *old(
            live_state,
        ),
{
    ensure_wallet_matches_status(player_status, wallet_address)?;
    ensure_player_authority(player_status, authority)?;
    if !player_status.is_online {
        return Err(GuessrError::PlayerOffline);
    }
    if !player_status.active_room.same_as(&room_id) {
        return Err(GuessrError::RoomMismatch);
    }
    apply_session(player_status, wallet_address, authority, session_address)?;
    player_status.last_heartbeat_ts = now_ts;
    *live_state = PlayerLiveState {
        player: player_status.player,
        wallet_address: player_status.player,
        session_address: authority,
        room_id: room_id,
        round_index: round_index,
        hp: hp,
        total_score: total_score,
        earned_amount: earned_amount,
        movement_hash: movement_hash,
        last_update_ts: now_ts,
        bump: live_bump,
    };
    Ok(())
}

/// The reward part of an earning delta.
pub open spec fn duel_reward(earning_delta: i64) -> int {
    if earning_delta > 0 {
        earning_delta as int
    } else {
        0
    }
}

/// The penalty part of an earning delta.
pub open spec fn duel_penalty(earning_delta: i64) -> int {
    if earning_delta < 0 {
        -earning_delta
    } else {
        0
    }
}

/// The part of the penalty that is taken: only the wallet itself can move its
/// tokens, and only as far as its balance goes.
pub open spec fn duel_penalty_paid(
    earning_delta: i64,
    wallet_address: Key32,
    authority: Key32,
    balance: u64,
) -> int {
    let p = duel_penalty(earning_delta);
    if p > 0 && authority == wallet_address {
        if p <= balance {
            p
        } else {
            balance as int
        }
    } else {
        0
    }
}

/// The room once `player` holds a seat in it.
pub open spec fn seated_room(room: DuelRoom, player: Key32) -> DuelRoom {
    if in_room(room, player) {
        room
    } else {
        DuelRoom { challenger: player, player_count: (room.player_count + 1) as u8, ..room }
    }
}

/// The first check that a duel update fails, or `Ok`.
pub open spec fn update_duel_check(
    status: PlayerStatus,
    room: DuelRoom,
    authority: Key32,
    wallet_address: Key32,
    session: Key32,
    room_id: Key32,
    earning_delta: i64,
    reward_mint: Key32,
    token: TokenAccountData,
    treasury_mint: Key32,
) -> Result<(), GuessrError> {
    let player = status.player;
    let seated = seated_room(room, player);
    let reward = duel_reward(earning_delta);
    let paid = duel_penalty_paid(earning_delta, wallet_address, authority, token.amount);
    if status.player != wallet_address {
        Err(GuessrError::Unauthorized)
    } else if token.owner != wallet_address {
        Err(GuessrError::InvalidTokenOwner)
    } else if token.mint != reward_mint {
        Err(GuessrError::InvalidTokenMint)
    } else if treasury_mint != reward_mint {
        Err(GuessrError::InvalidTreasuryMint)
    } else if !status.is_online {
        Err(GuessrError::PlayerOffline)
    } else if status.active_room != room_id {
        Err(GuessrError::RoomMismatch)
    } else if room.room_id != room_id {
        Err(GuessrError::RoomMismatch)
    } else if room.is_settled {
        Err(GuessrError::DuelAlreadySettled)
    } else if session_refused(wallet_address, authority, session) {
        Err(GuessrError::Unauthorized)
    } else if !in_room(room, player) && room.challenger != zero_key() {
        Err(GuessrError::PlayerNotInRoom)
    } else if !in_room(room, player) && room.player_count + 1 > u8::MAX {
        Err(GuessrError::Overflow)
    } else if earning_delta == i64::MIN {
        Err(GuessrError::Overflow)
    } else if seated.host == player && (seated.host_earned + reward > u64::MAX
        || seated.host_lost + paid > u64::MAX) {
        Err(GuessrError::Overflow)
    } else if seated.host != player && (seated.challenger_earned + reward > u64::MAX
        || seated.challenger_lost + paid > u64::MAX) {
        Err(GuessrError::Overflow)
    } else {
        Ok(())
    }
}

/// The room after a duel update by `player`.
pub open spec fn room_after_duel_update(
    room: DuelRoom,
    player: Key32,
    total_score: u64,
    reward: int,
    paid: int,
    now_ts: i64,
) -> DuelRoom {
    let seated = seated_room(room, player);
    if seated.host == player {
        DuelRoom {
            host_score: total_score,
            host_earned: (seated.host_earned + reward) as u64,
            host_lost: (seated.host_lost + paid) as u64,
            last_update_ts: now_ts,
            ..seated
        }
    } else {
        DuelRoom {
            challenger_score: total_score,
            challenger_earned: (seated.challenger_earned + reward) as u64,
            challenger_lost: (seated.challenger_lost + paid) as u64,
            last_update_ts: now_ts,
            ..seated
        }
    }
}

/// Records one round of a duel for an online player in the room. A player
/// without a seat takes the free challenger seat. A positive earning delta is
/// minted to the player; a negative one is taken from the player's token
/// account, as far as its balance goes, but only when the wallet itself signs
/// (a session key cannot move the wallet's tokens). The returned effects name
/// both amounts, and the player's seat adds them to its earned and lost
/// totals. On any error nothing changes.
pub fn update_duel_state_handler(
    player_status: &mut PlayerStatus,
    live_state: &mut PlayerLiveState,
    duel_room: &mut DuelRoom,
    authority: Key32,
    wallet_address: Key32,
    session_address: Key32,
    room_id: Key32,
    round_index: u16,
    hp: u16,
    total_score: u64,
    earning_delta: i64,
    movement_hash: Key32,
    reward_mint: Key32,
    player_token_account: TokenAccountData,
    treasury_mint: Key32,
    live_bump: u8,
    now_ts: i64,
) -> (r: Result<TokenEffects, GuessrError>)
    ensures
        ({
            let check = update_duel_check(
                *old(player_status),
                *old(duel_room),
                authority,
                wallet_address,
                session_address,
                room_id,
                earning_delta,
                reward_mint,
                player_token_account,
                treasury_mint,
            );
            &&& check is Err ==> r == Err::<TokenEffects, GuessrError>(check->Err_0)
            &&& check is Ok ==> r is Ok
        }),
        r is Ok ==> {
            let player = old(player_status).player;
            let reward = duel_reward(earning_delta);
            let paid = duel_penalty_paid(
                earning_delta,
                wallet_address,
                authority,
                player_token_account.amount,
            );
            &&& r->Ok_0.mint_amount == reward
            &&& r->Ok_0.penalty_transfer == paid
            &&& *final(duel_room) == room_after_duel_update(
                *old(duel_room),
                player,
                total_score,
                reward,
                paid,
                now_ts,
            )
            &&& *final(player_status) == status_after_update(
                *old(player_status),
                wallet_address,
                authority,
                session_address,
                now_ts,
            )
            &&& *final(live_state) == PlayerLiveState {
                player: player,
                wallet_address: player,
                session_address: authority,
                room_id: room_id,
                round_index: round_index,
                hp: hp,
                total_score: total_score,
                earned_amount: reward as u64,
                movement_hash: movement_hash,
                last_update_ts: now_ts,
                bump: live_bump,
            }
        },
        r is Ok ==> r->Ok_0.mint_amount == (if earning_delta > 0 {
            earning_delta as int
        } else {
            0
        }),
        r is Ok && earning_delta >= 0 ==> r->Ok_0.penalty_transfer == 0,
        r is Ok && authority != wallet_address ==> r->Ok_0.penalty_transfer == 0,
        r is Ok && earning_delta < 0 && authority == wallet_address ==> r->Ok_0.penalty_transfer
            == (if -earning_delta <= player_token_account.amount {
            -earning_delta
        } else {
            player_token_account.amount as int
        }),
        r is Err ==> {
            &&& *final(player_status) == *old(player_status)
            &&& *final(live_state) == *old(live_state)
            &&& *final(duel_room) == *old(duel_room)
        },
{
    // Account checks.
    if !player_status.player.same_as(&wallet_address) {
        return Err(GuessrError::Unauthorized);
    }
    if !player_token_account.owner.same_as(&wallet_address) {
        return Err(GuessrError::InvalidTokenOwner);
    }
    if !player_token_account.mint.same_as(&reward_mint) {
        return Err(GuessrError::InvalidTokenMint);
    }
    if !treasury_mint.same_as(&reward_mint) {
        return Err(GuessrError::InvalidTreasuryMint);
    }
    let player_key = player_status.player;
    ensure_player_authority(player_status, authority)?;
    if !player_status.is_online {
        return Err(GuessrError::PlayerOffline);
    }
    if !player_status.active_room.same_as(&room_id) {
        return Err(GuessrError::RoomMismatch);
    }
    if !duel_room.room_id.same_as(&room_id) {
        return Err(GuessrError::RoomMismatch);
    }
    if duel_room.is_settled {
        return Err(GuessrError::DuelAlreadySettled);
    }
    let mut status = *player_status;
    apply_session(&mut status, wallet_address, authority, session_address)?;

    let mut room = *duel_room;
    if !room.host.same_as(&player_key) && !room.challenger.same_as(&player_key) {
        if room.challenger.is_zero() {
            room.player_count = match room.player_count.checked_add(1) {
                Some(v) => v,
                None => return Err(GuessrError::Overflow),
            };
            room.challenger = player_key;
        } else {
            return Err(GuessrError::PlayerNotInRoom);
        }
    }

    let reward_amount: u64 = if earning_delta > 0 {
        earning_delta as u64
    } else {
        0
    };
    let penalty_amount: u64 = if earning_delta < 0 {
        if earning_delta == i64::MIN {
            return Err(GuessrError::Overflow);
        }
        let negated: i64 = -earning_delta;
        negated as u64
    } else {
        0
    };

    let mut actual_penalty: u64 = 0;
    if penalty_amount > 0 {
        if authority.same_as(&wallet_address) {
            let balance = player_token_account.amount;
            let transfer_amount = if penalty_amount <= balance {
                penalty_amount
            } else {
                balance
            };
            if transfer_amount > 0 {
                actual_penalty = transfer_amount;
            }
        }
    }

    if room.host.same_as(&player_key) {
        room.host_score = total_score;
        room.host_earned = match room.host_earned.checked_add(reward_amount) {
            Some(v) => v,
            None => return Err(GuessrError::Overflow),
        };
        room.host_lost = match room.host_lost.checked_add(actual_penalty) {
            Some(v) => v,
            None => return Err(GuessrError::Overflow),
        };
    } else if room.challenger.same_as(&player_key) {
        room.challenger_score = total_score;
        room.challenger_earned = match room.challenger_earned.checked_add(reward_amount) {
            Some(v) => v,
            None => return Err(GuessrError::Overflow),
        };
        room.challenger_lost = match room.challenger_lost.checked_add(actual_penalty) {
            Some(v) => v,
            None => return Err(GuessrError::Overflow),
        };
    } else {
        return Err(GuessrError::PlayerNotInRoom);
    }

    room.last_update_ts = now_ts;
    status.last_heartbeat_ts = now_ts;
    *duel_room = room;
    *player_status = status;
    *live_state = PlayerLiveState {
        player: player_key,
        wallet_address: player_key,
        session_address: authority,
        room_id: room_id,
        round_index: round_index,
        hp: hp,
        total_score: total_score,
        earned_amount: reward_amount,
        movement_hash: movement_hash,
        last_update_ts: now_ts,
        bump: live_bump,
    };
    Ok(TokenEffects { mint_amount: reward_amount, penalty_transfer: actual_penalty })
}

} // verus!
