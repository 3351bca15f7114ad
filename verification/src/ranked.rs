//! Solo ranked matches: opening a room, scoring each action with rewards and
//! penalties, settling into the profile, and closing.
use vstd::prelude::*;

use crate::profile::{
    apply_profile_match_result, apply_result, profile_after, ProfileMatchMode, ProfileOutcome,
};
use crate::state::{PlayerLiveState, PlayerProfile, PlayerStatus, RankedConfig, RankedRoom};
use crate::types::{
    zero_key, GuessrError, Key32, TokenAccountData, TokenEffects, ACTION_GUESS_SUBMIT,
    ACTION_HINT_OPEN, ACTION_MARK_MOVE, MAX_ACCURACY_BPS,
};

verus! {

/// Points a new treasury and reward mint at the ranked configuration.
/// Only the configuration's authority may do so, and the treasury must hold
/// the new mint.
pub fn set_reward_mint_handler(
    config: &mut RankedConfig,
    authority: Key32,
    reward_mint: Key32,
    treasury_token_account: Key32,
    treasury_mint: Key32,
) -> (r: Result<(), GuessrError>)
    ensures
        old(config).authority != authority ==> r == Err::<(), GuessrError>(
            GuessrError::Unauthorized,
        ),
        old(config).authority == authority && treasury_mint != reward_mint ==> r == Err::<
            (),
            GuessrError,
        >(GuessrError::InvalidTreasuryMint),
        old(config).authority == authority && treasury_mint == reward_mint ==> r is Ok,
        r is Ok ==> *final(config) == (RankedConfig {
            reward_mint: reward_mint,
            treasury_token_account: treasury_token_account,
            ..*old(config)
        }),
        r is Err ==> *final(config) == *old(config),
{
    if !config.authority.same_as(&authority) {
        return Err(GuessrError::Unauthorized);
    }
    if !treasury_mint.same_as(&reward_mint) {
        return Err(GuessrError::InvalidTreasuryMint);
    }
    config.reward_mint = reward_mint;
    config.treasury_token_account = treasury_token_account;
    Ok(())
}

/// A fresh ranked room for `player` on the challenge `challenge_hash`.
pub open spec fn fresh_ranked_room(
    player: Key32,
    challenge_hash: Key32,
    bump: u8,
    now_ts: i64,
) -> RankedRoom {
    RankedRoom {
        player: player,
        challenge_hash: challenge_hash,
        score: 0,
        total_earned: 0,
        total_lost: 0,
        action_count: 0,
        hints_opened: 0,
        last_round_index: 0,
        last_hp: 100,
        last_accuracy_bps: 0,
        last_distance_km: 0,
        last_action_kind: ACTION_HINT_OPEN,
        is_settled: false,
        last_movement_hash: zero_key(),
        last_action_ts: now_ts,
        bump: bump,
    }
}

/// Opens a ranked room for an online player and makes it the player's
/// active room.
pub fn open_ranked_room_handler(
    ranked_room: &mut RankedRoom,
    player_status: &mut PlayerStatus,
    player: Key32,
    challenge_hash: Key32,
    room_bump: u8,
    now_ts: i64,
) -> (r: Result<(), GuessrError>)
    ensures
        old(player_status).player != player ==> r == Err::<(), GuessrError>(
            GuessrError::Unauthorized,
        ),
        old(player_status).player == player && !old(player_status).is_online ==> r == Err::<
            (),
            GuessrError,
        >(GuessrError::PlayerOffline),
        old(player_status).player == player && old(player_status).is_online ==> r is Ok,
        r is Ok ==> *final(ranked_room) == fresh_ranked_room(
            player,
            challenge_hash,
            room_bump,
            now_ts,
        ),
        r is Ok ==> *final(player_status) == (PlayerStatus {
            active_room: challenge_hash,
            last_heartbeat_ts: now_ts,
            ..*old(player_status)
        }),
        r is Err ==> *final(ranked_room) == *old(ranked_room) && *final(player_status) == *old(
            player_status,
        ),
{
    if !player_status.player.same_as(&player) {
        return Err(GuessrError::Unauthorized);
    }
    if !player_status.is_online {
        return Err(GuessrError::PlayerOffline);
    }
    *ranked_room = RankedRoom {
        player: player,
        challenge_hash: challenge_hash,
        score: 0,
        total_earned: 0,
        total_lost: 0,
        action_count: 0,
        hints_opened: 0,
        last_round_index: 0,
        last_hp: 100,
        last_accuracy_bps: 0,
        last_distance_km: 0,
        last_action_kind: ACTION_HINT_OPEN,
        is_settled: false,
        last_movement_hash: Key32::zero(),
        last_action_ts: now_ts,
        bump: room_bump,
    };
    player_status.active_room = challenge_hash;
    player_status.last_heartbeat_ts = now_ts;
    Ok(())
}

/// The penalty unit: the penalty threshold divided by the penalty divisor,
/// and at least one.
pub open spec fn penalty_base(config: RankedConfig) -> int {
    let q = config.penalty_threshold as int / config.penalty_divisor as int;
    if q >= 1 {
        q
    } else {
        1
    }
}

/// Whether an action that is not a hint missed the right country; such an
/// action earns nothing and costs one more penalty unit.
pub open spec fn missed_country(action_kind: u8, is_correct_country: bool) -> bool {
    action_kind != ACTION_HINT_OPEN && !is_correct_country
}

/// The number of hints opened once this action is counted.
pub open spec fn hints_after(room: RankedRoom, action_kind: u8) -> int {
    if action_kind == ACTION_HINT_OPEN {
        room.hints_opened + 1
    } else {
        room.hints_opened as int
    }
}

/// The reward that the action earns before hint decay.
pub open spec fn raw_reward(
    config: RankedConfig,
    action_kind: u8,
    accuracy_bps: u16,
    is_correct_country: bool,
) -> int {
    if action_kind == ACTION_MARK_MOVE {
        accuracy_bps as int / config.reward_multiplier as int
    } else if action_kind == ACTION_GUESS_SUBMIT && is_correct_country {
        (accuracy_bps as int * 2) / config.reward_multiplier as int + penalty_base(config)
    } else {
        0
    }
}

/// The penalty that the action costs before the missed-country surcharge.
pub open spec fn raw_penalty(
    config: RankedConfig,
    action_kind: u8,
    distance_km: u32,
    is_correct_country: bool,
) -> int {
    if action_kind == ACTION_HINT_OPEN {
        penalty_base(config)
    } else if action_kind == ACTION_MARK_MOVE {
        distance_km as int / config.penalty_divisor as int
    } else {
        distance_km as int / config.penalty_divisor as int + (if is_correct_country {
            0
        } else {
            penalty_base(config)
        })
    }
}

/// The hint decay: every hint opened so far takes one penalty unit off the
/// reward.
pub open spec fn hint_decay(config: RankedConfig, room: RankedRoom, action_kind: u8) -> int {
    hints_after(room, action_kind) * penalty_base(config)
}

/// The reward that the action earns.
pub open spec fn action_reward(
    config: RankedConfig,
    room: RankedRoom,
    action_kind: u8,
    accuracy_bps: u16,
    is_correct_country: bool,
) -> int {
    if missed_country(action_kind, is_correct_country) {
        0
    } else {
        let r = raw_reward(config, action_kind, accuracy_bps, is_correct_country) - hint_decay(
            config,
            room,
            action_kind,
        );
        if r > 0 {
            r
        } else {
            0
        }
    }
}

/// The penalty that the action costs.
pub open spec fn action_penalty(
    config: RankedConfig,
    action_kind: u8,
    distance_km: u32,
    is_correct_country: bool,
) -> int {
    raw_penalty(config, action_kind, distance_km, is_correct_country) + (if missed_country(
        action_kind,
        is_correct_country,
    ) {
        penalty_base(config)
    } else {
        0
    })
}

/// The smaller of two integers.
pub open spec fn min_int(a: int, b: int) -> int {
    if a <= b {
        a
    } else {
        b
    }
}

/// The part of the penalty that the player's balance can pay.
pub open spec fn penalty_paid(
    config: RankedConfig,
    action_kind: u8,
    distance_km: u32,
    is_correct_country: bool,
    balance: u64,
) -> int {
    min_int(action_penalty(config, action_kind, distance_km, is_correct_country), balance as int)
}

/// Whether some step of the reward and penalty arithmetic passes the range of
/// its machine integer.
pub open spec fn ranked_overflows(
    config: RankedConfig,
    room: RankedRoom,
    action_kind: u8,
    distance_km: u32,
    accuracy_bps: u16,
    is_correct_country: bool,
    balance: u64,
) -> bool {
    ||| hints_after(room, action_kind) > u16::MAX
    ||| raw_reward(config, action_kind, accuracy_bps, is_correct_country) > u64::MAX
    ||| raw_penalty(config, action_kind, distance_km, is_correct_country) > u64::MAX
    ||| hint_decay(config, room, action_kind) > u64::MAX
    ||| action_penalty(config, action_kind, distance_km, is_correct_country) > u64::MAX
    ||| room.total_earned + action_reward(
        config,
        room,
        action_kind,
        accuracy_bps,
        is_correct_country,
    ) > u64::MAX
    ||| room.total_lost + penalty_paid(
        config,
        action_kind,
        distance_km,
        is_correct_country,
        balance,
    ) > u64::MAX
    ||| room.action_count + 1 > u32::MAX
}

/// The first check that a ranked action fails, in the order in which they
/// are made, or `Ok` when it passes them all.
pub open spec fn ranked_update_check(
    status: PlayerStatus,
    room: RankedRoom,
    config: RankedConfig,
    player: Key32,
    reward_mint: Key32,
    token: TokenAccountData,
    treasury_mint: Key32,
    distance_km: u32,
    accuracy_bps: u16,
    action_kind: u8,
    is_correct_country: bool,
) -> Result<(), GuessrError> {
    if status.player != player {
        Err(GuessrError::Unauthorized)
    } else if room.player != player {
        Err(GuessrError::Unauthorized)
    } else if token.owner != player {
        Err(GuessrError::InvalidTokenOwner)
    } else if token.mint != reward_mint {
        Err(GuessrError::InvalidTokenMint)
    } else if treasury_mint != reward_mint {
        Err(GuessrError::InvalidTreasuryMint)
    } else if room.is_settled {
        Err(GuessrError::RoomAlreadySettled)
    } else if !status.is_online {
        Err(GuessrError::PlayerOffline)
    } else if status.active_room != room.challenge_hash {
        Err(GuessrError::RoomMismatch)
    } else if !(action_kind == ACTION_HINT_OPEN || action_kind == ACTION_MARK_MOVE
        || action_kind == ACTION_GUESS_SUBMIT) {
        Err(GuessrError::InvalidActionKind)
    } else if accuracy_bps > MAX_ACCURACY_BPS {
        Err(GuessrError::InvalidAccuracy)
    } else if config.reward_multiplier == 0 {
        Err(GuessrError::InvalidMultiplier)
    } else if config.penalty_divisor == 0 {
        Err(GuessrError::InvalidPenaltyDivisor)
    } else if ranked_overflows(
        config,
        room,
        action_kind,
        distance_km,
        accuracy_bps,
        is_correct_country,
        token.amount,
    ) {
        Err(GuessrError::Overflow)
    } else {
        Ok(())
    }
}

/// `a - b`, or zero when `b` is the larger.
pub open spec fn saturating_diff(a: u64, b: u64) -> u64 {
    if a >= b {
        (a - b) as u64
    } else {
        0
    }
}

/// Scores one action of a ranked match.
///
/// A hint costs one penalty unit; a marker move earns its accuracy divided by
/// the reward multiplier and costs its distance divided by the penalty
/// divisor; a guess earns twice that plus one penalty unit when the country is
/// right. Every opened hint takes one penalty unit off the reward, and an
/// action that misses the country earns nothing and costs one more unit. The
/// reward is minted to the player and the penalty, as far as the balance of
/// the player's token account covers it, moves to the treasury: the returned
/// effects name both amounts. The room, the player's status and the live
/// state record the action. On any error nothing changes.
pub fn update_ranked_state_handler(
    ranked_room: &mut RankedRoom,
    player_status: &mut PlayerStatus,
    live_state: &mut PlayerLiveState,
    config: &RankedConfig,
    player: Key32,
    reward_mint: Key32,
    player_token_account: TokenAccountData,
    treasury_mint: Key32,
    round_index: u16,
    hp_after: u16,
    distance_km: u32,
    accuracy_bps: u16,
    action_kind: u8,
    is_correct_country: bool,
    total_score: u64,
    movement_hash: Key32,
    live_bump: u8,
    now_ts: i64,
) -> (r: Result<TokenEffects, GuessrError>)
    ensures
        ({
            let check = ranked_update_check(
                *old(player_status),
                *old(ranked_room),
                *config,
                player,
                reward_mint,
                player_token_account,
                treasury_mint,
                distance_km,
                accuracy_bps,
                action_kind,
                is_correct_country,
            );
            &&& check is Err ==> r == Err::<TokenEffects, GuessrError>(check->Err_0)
            &&& check is Ok ==> r is Ok
        }),
        r is Ok ==> {
            let room = *old(ranked_room);
            let reward = action_reward(
                *config,
                room,
                action_kind,
                accuracy_bps,
                is_correct_country,
            );
            let paid = penalty_paid(
                *config,
                action_kind,
                distance_km,
                is_correct_country,
                player_token_account.amount,
            );
            let earned = (room.total_earned + reward) as u64;
            let lost = (room.total_lost + paid) as u64;
            &&& r->Ok_0.mint_amount == reward
            &&& r->Ok_0.penalty_transfer == paid
            &&& *final(ranked_room) == RankedRoom {
                score: total_score,
                total_earned: earned,
                total_lost: lost,
                action_count: (room.action_count + 1) as u32,
                hints_opened: hints_after(room, action_kind) as u16,
                last_round_index: round_index,
                last_hp: hp_after,
                last_accuracy_bps: accuracy_bps,
                last_distance_km: distance_km,
                last_action_kind: action_kind,
                last_movement_hash: movement_hash,
                last_action_ts: now_ts,
                ..room
            }
            &&& *final(player_status) == PlayerStatus {
                last_heartbeat_ts: now_ts,
                ..*old(player_status)
            }
            &&& *final(live_state) == PlayerLiveState {
                player: player,
                wallet_address: player,
                session_address: zero_key(),
                room_id: room.challenge_hash,
                round_index: round_index,
                hp: hp_after,
                total_score: total_score,
                earned_amount: saturating_diff(earned, lost),
                movement_hash: movement_hash,
                last_update_ts: now_ts,
                bump: live_bump,
            }
        },
        r is Ok ==> {
            let q = config.penalty_threshold as int / config.penalty_divisor as int;
            let unit: int = if q >= 1 {
                q
            } else {
                1
            };
            let h = old(ranked_room).hints_opened as int;
            let mark = accuracy_bps as int / config.reward_multiplier as int - h * unit;
            let guess = (accuracy_bps as int * 2) / config.reward_multiplier as int + unit - h
                * unit;
            let dist = distance_km as int / config.penalty_divisor as int;
            let balance = player_token_account.amount as int;
            &&& action_kind == ACTION_MARK_MOVE && is_correct_country ==> r->Ok_0.mint_amount == (
            if mark > 0 {
                mark
            } else {
                0
            })
            &&& action_kind == ACTION_GUESS_SUBMIT && is_correct_country ==> r->Ok_0.mint_amount
                == (if guess > 0 {
                guess
            } else {
                0
            })
            &&& action_kind == ACTION_HINT_OPEN || !is_correct_country ==> r->Ok_0.mint_amount == 0
            &&& action_kind == ACTION_HINT_OPEN ==> r->Ok_0.penalty_transfer == min_int(
                unit,
                balance,
            )
            &&& action_kind == ACTION_MARK_MOVE ==> r->Ok_0.penalty_transfer == min_int(
                dist + (if is_correct_country {
                    0
                } else {
                    unit
                }),
                balance,
            )
            &&& action_kind == ACTION_GUESS_SUBMIT ==> r->Ok_0.penalty_transfer == min_int(
                dist + (if is_correct_country {
                    0
                } else {
                    2 * unit
                }),
                balance,
            )
        },
        r is Err ==> {
            &&& *final(ranked_room) == *old(ranked_room)
            &&& *final(player_status) == *old(player_status)
            &&& *final(live_state) == *old(live_state)
        },
{
    // Account checks.
    if !player_status.player.same_as(&player) {
        return Err(GuessrError::Unauthorized);
    }
    if !ranked_room.player.same_as(&player) {
        return Err(GuessrError::Unauthorized);
    }
    if !player_token_account.owner.same_as(&player) {
        return Err(GuessrError::InvalidTokenOwner);
    }
    if !player_token_account.mint.same_as(&reward_mint) {
        return Err(GuessrError::InvalidTokenMint);
    }
    if !treasury_mint.same_as(&reward_mint) {
        return Err(GuessrError::InvalidTreasuryMint);
    }
    // Rules of the action.
    if ranked_room.is_settled {
        return Err(GuessrError::RoomAlreadySettled);
    }
    if !player_status.is_online {
        return Err(GuessrError::PlayerOffline);
    }
    if !player_status.active_room.same_as(&ranked_room.challenge_hash) {
        return Err(GuessrError::RoomMismatch);
    }
    if !(action_kind == ACTION_HINT_OPEN || action_kind == ACTION_MARK_MOVE || action_kind
        == ACTION_GUESS_SUBMIT) {
        return Err(GuessrError::InvalidActionKind);
    }
    if accuracy_bps > MAX_ACCURACY_BPS {
        return Err(GuessrError::InvalidAccuracy);
    }
    if config.reward_multiplier == 0 {
        return Err(GuessrError::InvalidMultiplier);
    }
    if config.penalty_divisor == 0 {
        return Err(GuessrError::InvalidPenaltyDivisor);
    }
    let divisor = config.penalty_divisor;
    let quotient = config.penalty_threshold / divisor;
    let penalty_base: u64 = if quotient >= 1 {
        quotient
    } else {
        1
    };
    let distance_penalty: u64 = (distance_km as u64) / divisor;

    let mut hints_opened: u16 = ranked_room.hints_opened;
    let mut reward_amount: u64;
    let mut penalty_amount: u64;
    if action_kind == ACTION_HINT_OPEN {
        hints_opened = match hints_opened.checked_add(1) {
            Some(v) => v,
            None => return Err(GuessrError::Overflow),
        };
        reward_amount = 0;
        penalty_amount = penalty_base;
    } else if action_kind == ACTION_MARK_MOVE {
        reward_amount = (accuracy_bps as u64) / config.reward_multiplier;
        penalty_amount = distance_penalty;
    } else {
        let doubled: u64 = (accuracy_bps as u64) * 2;
        reward_amount = doubled / config.reward_multiplier;
        penalty_amount = distance_penalty;
        if is_correct_country {
            reward_amount = match reward_amount.checked_add(penalty_base) {
                Some(v) => v,
                None => return Err(GuessrError::Overflow),
            };
        } else {
            penalty_amount = match penalty_amount.checked_add(penalty_base) {
                Some(v) => v,
                None => return Err(GuessrError::Overflow),
            };
            reward_amount = 0;
        }
    }
    let hint_decay: u64 = match (hints_opened as u64).checked_mul(penalty_base) {
        Some(v) => v,
        None => return Err(GuessrError::Overflow),
    };
    reward_amount = reward_amount.saturating_sub(hint_decay);

    if action_kind != ACTION_HINT_OPEN && !is_correct_country {
        reward_amount = 0;
        penalty_amount = match penalty_amount.checked_add(penalty_base) {
            Some(v) => v,
            None => return Err(GuessrError::Overflow),
        };
    }

    let mut actual_penalty: u64 = 0;
    if penalty_amount > 0 {
        let balance = player_token_account.amount;
        let transfer_amount = if penalty_amount <= balance {
            penalty_amount
        } else {
            balance
        };
        if transfer_amount > 0 {
            actual_penalty = transfer_amount;
        }
    }

    let total_earned = match ranked_room.total_earned.checked_add(reward_amount) {
        Some(v) => v,
        None => return Err(GuessrError::Overflow),
    };
    let total_lost = match ranked_room.total_lost.checked_add(actual_penalty) {
        Some(v) => v,
        None => return Err(GuessrError::Overflow),
    };
    let action_count = match ranked_room.action_count.checked_add(1) {
        Some(v) => v,
        None => return Err(GuessrError::Overflow),
    };

    ranked_room.hints_opened = hints_opened;
    ranked_room.score = total_score;
    ranked_room.total_earned = total_earned;
    ranked_room.total_lost = total_lost;
    ranked_room.action_count = action_count;
    ranked_room.last_round_index = round_index;
    ranked_room.last_hp = hp_after;
    ranked_room.last_accuracy_bps = accuracy_bps;
    ranked_room.last_distance_km = distance_km;
    ranked_room.last_action_kind = action_kind;
    ranked_room.last_movement_hash = movement_hash;
    ranked_room.last_action_ts = now_ts;
    player_status.last_heartbeat_ts = now_ts;

    *live_state = PlayerLiveState {
        player: player,
        wallet_address: player,
        session_address: Key32::zero(),
        room_id: ranked_room.challenge_hash,
        round_index: round_index,
        hp: hp_after,
        total_score: total_score,
        earned_amount: total_earned.saturating_sub(total_lost),
        movement_hash: movement_hash,
        last_update_ts: now_ts,
        bump: live_bump,
    };

    Ok(TokenEffects { mint_amount: reward_amount, penalty_transfer: actual_penalty })
}

/// Whether the difference of two amounts can be told as an `i64` by the
/// checked subtraction and negation that settling uses.
pub open spec fn delta_fits(earned: u64, lost: u64) -> bool {
    -(i64::MAX as int) <= earned - lost <= i64::MAX
}

/// The net earnings of a room, as a signed amount.
pub(crate) fn earning_delta_of(earned: u64, lost: u64) -> (r: Result<i64, GuessrError>)
    ensures
        delta_fits(earned, lost) ==> r == Ok::<i64, GuessrError>((earned - lost) as i64),
        !delta_fits(earned, lost) ==> r == Err::<i64, GuessrError>(GuessrError::Overflow),
{
    if earned >= lost {
        let diff = earned - lost;
        if diff > i64::MAX as u64 {
            return Err(GuessrError::Overflow);
        }
        Ok(diff as i64)
    } else {
        let diff = lost - earned;
        if diff > i64::MAX as u64 {
            return Err(GuessrError::Overflow);
        }
        let d = diff as i64;
        Ok(-d)
    }
}

/// The experience that settling a ranked room grants.
pub open spec fn ranked_xp(score: u64, action_count: u32) -> int {
    20 + score / 20 + action_count / 2
}

/// A ranked match is won when it scored and did not lose money.
pub open spec fn ranked_outcome(score: u64, earning_delta: int) -> ProfileOutcome {
    if score > 0 && earning_delta >= 0 {
        ProfileOutcome::Win
    } else {
        ProfileOutcome::Loss
    }
}

/// The first check that settling a ranked room fails, or `Ok`.
pub open spec fn ranked_settle_check(
    room: RankedRoom,
    profile: PlayerProfile,
    player: Key32,
    reward_mint: Key32,
    token: TokenAccountData,
    treasury_mint: Key32,
    score: u64,
) -> Result<(), GuessrError> {
    let delta = room.total_earned - room.total_lost;
    if room.player != player {
        Err(GuessrError::Unauthorized)
    } else if token.owner != player {
        Err(GuessrError::InvalidTokenOwner)
    } else if token.mint != reward_mint {
        Err(GuessrError::InvalidTokenMint)
    } else if treasury_mint != reward_mint {
        Err(GuessrError::InvalidTreasuryMint)
    } else if room.is_settled {
        Err(GuessrError::RoomAlreadySettled)
    } else if !delta_fits(room.total_earned, room.total_lost) {
        Err(GuessrError::Overflow)
    } else {
        apply_result(
            profile,
            ProfileMatchMode::RankedSolo,
            ranked_outcome(score, delta),
            ranked_xp(score, room.action_count) as u64,
            delta as i64,
        )
    }
}

/// Settles a ranked room with its final score and records the match in the
/// player's profile: the experience is 20 plus a twentieth of the score plus
/// half the number of actions, the earnings are what the room earned minus
/// what it lost, and the match counts as won when it scored and did not lose
/// money. On any error nothing changes.
pub fn settle_ranked_room_handler(
    ranked_room: &mut RankedRoom,
    player_profile: &mut PlayerProfile,
    player: Key32,
    reward_mint: Key32,
    player_token_account: TokenAccountData,
    treasury_mint: Key32,
    score: u64,
    profile_bump: u8,
    now_ts: i64,
) -> (r: Result<(), GuessrError>)
    ensures
        r == ranked_settle_check(
            *old(ranked_room),
            *old(player_profile),
            player,
            reward_mint,
            player_token_account,
            treasury_mint,
            score,
        ),
        r is Ok ==> {
            let room = *old(ranked_room);
            let delta = room.total_earned - room.total_lost;
            &&& *final(ranked_room) == RankedRoom {
                score: score,
                is_settled: true,
                last_action_ts: now_ts,
                ..room
            }
            &&& *final(player_profile) == profile_after(
                *old(player_profile),
                player,
                ProfileMatchMode::RankedSolo,
                ranked_outcome(score, delta),
                ranked_xp(score, room.action_count) as u64,
                delta as i64,
                score,
                profile_bump,
                now_ts,
            )
        },
        r is Ok ==> final(player_profile).total_xp == old(player_profile).total_xp + 20 + score
            / 20 + old(ranked_room).action_count / 2,
        r is Err ==> *final(ranked_room) == *old(ranked_room) && *final(player_profile) == *old(
            player_profile,
        ),
{
    if !ranked_room.player.same_as(&player) {
        return Err(GuessrError::Unauthorized);
    }
    if !player_token_account.owner.same_as(&player) {
        return Err(GuessrError::InvalidTokenOwner);
    }
    if !player_token_account.mint.same_as(&reward_mint) {
        return Err(GuessrError::InvalidTokenMint);
    }
    if !treasury_mint.same_as(&reward_mint) {
        return Err(GuessrError::InvalidTreasuryMint);
    }
    if ranked_room.is_settled {
        return Err(GuessrError::RoomAlreadySettled);
    }
    let earning_delta = earning_delta_of(ranked_room.total_earned, ranked_room.total_lost)?;
    let xp_gained: u64 = 20 + score / 20 + (ranked_room.action_count as u64) / 2;
    let outcome = if score > 0 && earning_delta >= 0 {
        ProfileOutcome::Win
    } else {
        ProfileOutcome::Loss
    };
    apply_profile_match_result(
        player_profile,
        player,
        ProfileMatchMode::RankedSolo,
        outcome,
        xp_gained,
        earning_delta,
        score,
        profile_bump,
        now_ts,
    )?;
    ranked_room.score = score;
    ranked_room.is_settled = true;
    ranked_room.last_action_ts = now_ts;
    Ok(())
}

/// Closes a settled ranked room: the player leaves it if it is the active
/// room. (The account itself is closed by the caller.)
pub fn close_ranked_room_handler(
    player_status: &mut PlayerStatus,
    ranked_room: &RankedRoom,
    player: Key32,
) -> (r: Result<(), GuessrError>)
    ensures
        old(player_status).player != player ==> r == Err::<(), GuessrError>(
            GuessrError::Unauthorized,
        ),
        old(player_status).player == player && ranked_room.player != player ==> r == Err::<
            (),
            GuessrError,
        >(GuessrError::Unauthorized),
        old(player_status).player == player && ranked_room.player == player
            && !ranked_room.is_settled ==> r == Err::<(), GuessrError>(
            GuessrError::RoomNotSettled,
        ),
        old(player_status).player == player && ranked_room.player == player
            && ranked_room.is_settled ==> r is Ok,
        r is Ok && old(player_status).active_room == ranked_room.challenge_hash
            ==> *final(player_status) == (PlayerStatus {
            active_room: zero_key(),
            ..*old(player_status)
        }),
        !(r is Ok && old(player_status).active_room == ranked_room.challenge_hash)
            ==> *final(player_status) == *old(player_status),
{
    if !player_status.player.same_as(&player) {
        return Err(GuessrError::Unauthorized);
    }
    if !ranked_room.player.same_as(&player) {
        return Err(GuessrError::Unauthorized);
    }
    if !ranked_room.is_settled {
        return Err(GuessrError::RoomNotSettled);
    }
    if player_status.active_room.same_as(&ranked_room.challenge_hash) {
        player_status.active_room = Key32::zero();
    }
    Ok(())
}

} // verus!
