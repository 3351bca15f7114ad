//! Player profiles: how one match result is folded into a player's
//! long-term statistics.
use vstd::prelude::*;

use crate::leaderboard::{leaderboards_updated, update_leaderboards};
use crate::state::{LeaderboardState, PlayerLiveState, PlayerProfile, PlayerRewardStats};
use crate::types::{zero_key, GuessrError, Key32, MATCH_MODE_DUEL, MATCH_MODE_RANKED_SOLO};

verus! {

/// How a match ended for one player.
#[derive(Clone, Copy, Debug, PartialEq, Eq, Structural)]
pub enum ProfileOutcome {
    Win,
    Loss,
    Draw,
}

/// Which kind of match a result belongs to.
#[derive(Clone, Copy, Debug, PartialEq, Eq, Structural)]
pub enum ProfileMatchMode {
    Duel,
    RankedSolo,
}

/// Whether `x` is a value of `i64`.
pub open spec fn fits_i64(x: int) -> bool {
    i64::MIN <= x <= i64::MAX
}

/// Whether every counter of `p` can take the result without overflowing.
pub open spec fn result_fits(
    p: PlayerProfile,
    mode: ProfileMatchMode,
    outcome: ProfileOutcome,
    xp_gained: u64,
    earning_delta: i64,
) -> bool {
    &&& p.total_xp + xp_gained <= u64::MAX
    &&& fits_i64(p.net_earnings + earning_delta)
    &&& p.total_matches + 1 <= u32::MAX
    &&& (mode == ProfileMatchMode::Duel && outcome == ProfileOutcome::Win ==> p.duel_wins + 1
        <= u32::MAX)
    &&& (mode == ProfileMatchMode::Duel && outcome == ProfileOutcome::Loss ==> p.duel_losses + 1
        <= u32::MAX)
    &&& (mode == ProfileMatchMode::RankedSolo && outcome == ProfileOutcome::Win ==> p.ranked_wins
        + 1 <= u32::MAX)
    &&& (mode == ProfileMatchMode::RankedSolo && outcome == ProfileOutcome::Loss
        ==> p.ranked_losses + 1 <= u32::MAX)
}

/// `counter + 1` when `hit`, else `counter`.
pub open spec fn bump_if(counter: u32, hit: bool) -> u32 {
    if hit {
        (counter + 1) as u32
    } else {
        counter
    }
}

/// The profile after one match result: experience and earnings are added,
/// the match is counted, the last score and the time are stamped, and the
/// win or loss counter of the mode is raised by one (a draw raises none).
pub open spec fn profile_after(
    p: PlayerProfile,
    player: Key32,
    mode: ProfileMatchMode,
    outcome: ProfileOutcome,
    xp_gained: u64,
    earning_delta: i64,
    final_score: u64,
    bump: u8,
    now_ts: i64,
) -> PlayerProfile {
    PlayerProfile {
        player: player,
        total_xp: (p.total_xp + xp_gained) as u64,
        duel_wins: bump_if(
            p.duel_wins,
            mode == ProfileMatchMode::Duel && outcome == ProfileOutcome::Win,
        ),
        duel_losses: bump_if(
            p.duel_losses,
            mode == ProfileMatchMode::Duel && outcome == ProfileOutcome::Loss,
        ),
        ranked_wins: bump_if(
            p.ranked_wins,
            mode == ProfileMatchMode::RankedSolo && outcome == ProfileOutcome::Win,
        ),
        ranked_losses: bump_if(
            p.ranked_losses,
            mode == ProfileMatchMode::RankedSolo && outcome == ProfileOutcome::Loss,
        ),
        net_earnings: (p.net_earnings + earning_delta) as i64,
        total_matches: (p.total_matches + 1) as u32,
        last_match_score: final_score,
        last_update_ts: now_ts,
        bump: bump,
    }
}

/// The outcome of `apply_profile_match_result`.
pub open spec fn apply_result(
    p: PlayerProfile,
    mode: ProfileMatchMode,
    outcome: ProfileOutcome,
    xp_gained: u64,
    earning_delta: i64,
) -> Result<(), GuessrError> {
    if result_fits(p, mode, outcome, xp_gained, earning_delta) {
        Ok(())
    } else {
        Err(GuessrError::Overflow)
    }
}

/// Adds one to a counter, refusing to pass `u32::MAX`.
fn increment(counter: u32) -> (r: Result<u32, GuessrError>)
    ensures
        counter + 1 <= u32::MAX ==> r == Ok::<u32, GuessrError>((counter + 1) as u32),
        counter + 1 > u32::MAX ==> r == Err::<u32, GuessrError>(GuessrError::Overflow),
{
    match counter.checked_add(1) {
        Some(v) => Ok(v),
        None => Err(GuessrError::Overflow),
    }
}

/// The profile after one match result, computed without touching `profile`.
pub fn profile_with_result(
    profile: &PlayerProfile,
    player: Key32,
    mode: ProfileMatchMode,
    outcome: ProfileOutcome,
    xp_gained: u64,
    earning_delta: i64,
    final_score: u64,
    bump: u8,
    now_ts: i64,
) -> (r: Result<PlayerProfile, GuessrError>)
    ensures
        result_fits(*profile, mode, outcome, xp_gained, earning_delta) ==> r == Ok::<
            PlayerProfile,
            GuessrError,
        >(
            profile_after(
                *profile,
                player,
                mode,
                outcome,
                xp_gained,
                earning_delta,
                final_score,
                bump,
                now_ts,
            ),
        ),
        !result_fits(*profile, mode, outcome, xp_gained, earning_delta) ==> r == Err::<
            PlayerProfile,
            GuessrError,
        >(GuessrError::Overflow),
{
    let mut next = *profile;
    next.player = player;
    next.total_xp = match profile.total_xp.checked_add(xp_gained) {
        Some(v) => v,
        None => return Err(GuessrError::Overflow),
    };
    next.net_earnings = match profile.net_earnings.checked_add(earning_delta) {
        Some(v) => v,
        None => return Err(GuessrError::Overflow),
    };
    next.total_matches = increment(profile.total_matches)?;
    next.last_match_score = final_score;
    next.last_update_ts = now_ts;
    next.bump = bump;
    match (mode, outcome) {
        (ProfileMatchMode::Duel, ProfileOutcome::Win) => {
            next.duel_wins = increment(profile.duel_wins)?;
        },
        (ProfileMatchMode::Duel, ProfileOutcome::Loss) => {
            next.duel_losses = increment(profile.duel_losses)?;
        },
        (ProfileMatchMode::Duel, ProfileOutcome::Draw) => {},
        (ProfileMatchMode::RankedSolo, ProfileOutcome::Win) => {
            next.ranked_wins = increment(profile.ranked_wins)?;
        },
        (ProfileMatchMode::RankedSolo, ProfileOutcome::Loss) => {
            next.ranked_losses = increment(profile.ranked_losses)?;
        },
        (ProfileMatchMode::RankedSolo, ProfileOutcome::Draw) => {},
    }
    Ok(next)
}

/// Folds one match result into `profile`. On overflow of any counter the
/// profile is left unchanged and `Overflow` is returned.
pub fn apply_profile_match_result(
    profile: &mut PlayerProfile,
    player: Key32,
    mode: ProfileMatchMode,
    outcome: ProfileOutcome,
    xp_gained: u64,
    earning_delta: i64,
    final_score: u64,
    bump: u8,
    now_ts: i64,
) -> (r: Result<(), GuessrError>)
    ensures
        r == apply_result(*old(profile), mode, outcome, xp_gained, earning_delta),
        r is Ok ==> *final(profile) == profile_after(
            *old(profile),
            player,
            mode,
            outcome,
            xp_gained,
            earning_delta,
            final_score,
            bump,
            now_ts,
        ),
        r is Err ==> *final(profile) == *old(profile),
{
    let next = profile_with_result(
        profile,
        player,
        mode,
        outcome,
        xp_gained,
        earning_delta,
        final_score,
        bump,
        now_ts,
    )?;
    *profile = next;
    Ok(())
}

/// The match mode named by its number, if it names one.
pub open spec fn mode_of(match_mode: u8) -> ProfileMatchMode {
    if match_mode == MATCH_MODE_DUEL {
        ProfileMatchMode::Duel
    } else {
        ProfileMatchMode::RankedSolo
    }
}

/// A win or a loss.
pub open spec fn outcome_of(did_win: bool) -> ProfileOutcome {
    if did_win {
        ProfileOutcome::Win
    } else {
        ProfileOutcome::Loss
    }
}

/// Whether a match mode number is one of the two known modes.
pub open spec fn valid_match_mode(match_mode: u8) -> bool {
    match_mode == MATCH_MODE_DUEL || match_mode == MATCH_MODE_RANKED_SOLO
}

/// Records a won or lost match, of the mode numbered `match_mode`, in the
/// profile of `player`.
pub fn commit_match_result_handler(
    profile: &mut PlayerProfile,
    player: Key32,
    match_mode: u8,
    did_win: bool,
    xp_gained: u64,
    earning_delta: i64,
    final_score: u64,
    profile_bump: u8,
    now_ts: i64,
) -> (r: Result<(), GuessrError>)
    ensures
        !valid_match_mode(match_mode) ==> r == Err::<(), GuessrError>(
            GuessrError::InvalidMatchMode,
        ),
        valid_match_mode(match_mode) ==> r == apply_result(
            *old(profile),
            mode_of(match_mode),
            outcome_of(did_win),
            xp_gained,
            earning_delta,
        ),
        r is Ok ==> *final(profile) == profile_after(
            *old(profile),
            player,
            mode_of(match_mode),
            outcome_of(did_win),
            xp_gained,
            earning_delta,
            final_score,
            profile_bump,
            now_ts,
        ),
        r is Err ==> *final(profile) == *old(profile),
{
    if !(match_mode == MATCH_MODE_DUEL || match_mode == MATCH_MODE_RANKED_SOLO) {
        return Err(GuessrError::InvalidMatchMode);
    }
    let mode = if match_mode == MATCH_MODE_DUEL {
        ProfileMatchMode::Duel
    } else {
        ProfileMatchMode::RankedSolo
    };
    let outcome = if did_win {
        ProfileOutcome::Win
    } else {
        ProfileOutcome::Loss
    };
    apply_profile_match_result(
        profile,
        player,
        mode,
        outcome,
        xp_gained,
        earning_delta,
        final_score,
        profile_bump,
        now_ts,
    )
}

/// The reward stats after a pooled match result: stats never stamped yet
/// get their owner, bump and time; a positive earning delta adds to the total;
/// the time is stamped.
pub open spec fn rewards_after(
    rewards: PlayerRewardStats,
    wallet_address: Key32,
    bump: u8,
    earning_delta: i64,
    now_ts: i64,
) -> PlayerRewardStats {
    let stamped = if rewards.player == zero_key() {
        PlayerRewardStats {
            player: wallet_address,
            bump: bump,
            last_update_ts: now_ts,
            ..rewards
        }
    } else {
        rewards
    };
    PlayerRewardStats {
        total_earned: if earning_delta > 0 {
            (stamped.total_earned + earning_delta) as u64
        } else {
            stamped.total_earned
        },
        last_update_ts: now_ts,
        ..stamped
    }
}

/// The outcome of a pooled match result.
pub open spec fn pool_result(
    profile: PlayerProfile,
    rewards: PlayerRewardStats,
    match_mode: u8,
    did_win: bool,
    xp_gained: u64,
    earning_delta: i64,
) -> Result<(), GuessrError> {
    if !valid_match_mode(match_mode) {
        Err(GuessrError::InvalidMatchMode)
    } else if !result_fits(profile, mode_of(match_mode), outcome_of(did_win), xp_gained, earning_delta) {
        Err(GuessrError::Overflow)
    } else if earning_delta > 0 && rewards.total_earned + earning_delta > u64::MAX {
        Err(GuessrError::Overflow)
    } else {
        Ok(())
    }
}

/// Records a won or lost match for `wallet_address`: the profile takes the
/// result, a positive earning delta adds to the lifetime rewards, and the
/// four leaderboards take the new figures. On any error nothing changes.
pub fn commit_match_result_pool_handler(
    player_profile: &mut PlayerProfile,
    player_rewards: &mut PlayerRewardStats,
    leaderboard: &mut LeaderboardState,
    wallet_address: Key32,
    match_mode: u8,
    did_win: bool,
    xp_gained: u64,
    earning_delta: i64,
    final_score: u64,
    profile_bump: u8,
    rewards_bump: u8,
    now_ts: i64,
) -> (r: Result<(), GuessrError>)
    ensures
        r == pool_result(
            *old(player_profile),
            *old(player_rewards),
            match_mode,
            did_win,
            xp_gained,
            earning_delta,
        ),
        r is Ok ==> *final(player_profile) == profile_after(
            *old(player_profile),
            wallet_address,
            mode_of(match_mode),
            outcome_of(did_win),
            xp_gained,
            earning_delta,
            final_score,
            profile_bump,
            now_ts,
        ),
        r is Ok ==> *final(player_rewards) == rewards_after(
            *old(player_rewards),
            wallet_address,
            rewards_bump,
            earning_delta,
            now_ts,
        ),
        r is Ok ==> leaderboards_updated(
            *old(leaderboard),
            *final(leaderboard),
            *final(player_profile),
            *final(player_rewards),
            now_ts,
        ),
        r is Ok && earning_delta > 0 ==> final(player_rewards).total_earned == old(
            player_rewards,
        ).total_earned + earning_delta,
        r is Ok && earning_delta <= 0 ==> final(player_rewards).total_earned == old(
            player_rewards,
        ).total_earned,
        r is Err ==> {
            &&& *final(player_profile) == *old(player_profile)
            &&& *final(player_rewards) == *old(player_rewards)
            &&& *final(leaderboard) == *old(leaderboard)
        },
{
    if !(match_mode == MATCH_MODE_DUEL || match_mode == MATCH_MODE_RANKED_SOLO) {
        return Err(GuessrError::InvalidMatchMode);
    }
    let mode = if match_mode == MATCH_MODE_DUEL {
        ProfileMatchMode::Duel
    } else {
        ProfileMatchMode::RankedSolo
    };
    let outcome = if did_win {
        ProfileOutcome::Win
    } else {
        ProfileOutcome::Loss
    };
    let new_profile = profile_with_result(
        player_profile,
        wallet_address,
        mode,
        outcome,
        xp_gained,
        earning_delta,
        final_score,
        profile_bump,
        now_ts,
    )?;
    let mut rewards = *player_rewards;
    if rewards.player.is_zero() {
        rewards.touch(wallet_address, rewards_bump, now_ts);
    }
    if earning_delta > 0 {
        rewards.total_earned = match rewards.total_earned.checked_add(earning_delta as u64) {
            Some(v) => v,
            None => return Err(GuessrError::Overflow),
        };
    }
    rewards.last_update_ts = now_ts;
    *player_profile = new_profile;
    *player_rewards = rewards;
    update_leaderboards(leaderboard, player_profile, player_rewards, now_ts);
    Ok(())
}

/// A live state just created for `wallet_address`.
pub open spec fn fresh_live_state(
    wallet_address: Key32,
    authority: Key32,
    bump: u8,
    now_ts: i64,
) -> PlayerLiveState {
    PlayerLiveState {
        player: wallet_address,
        wallet_address: wallet_address,
        session_address: authority,
        room_id: zero_key(),
        round_index: 0,
        hp: 100,
        total_score: 0,
        earned_amount: 0,
        movement_hash: zero_key(),
        last_update_ts: now_ts,
        bump: bump,
    }
}

/// Stamps the per-player accounts of `wallet_address` that were never set
/// (their player is all zero); accounts already in use are left alone. A new
/// live state starts with full health (100) and no room.
pub fn init_player_accounts_handler(
    player_profile: &mut PlayerProfile,
    player_rewards: &mut PlayerRewardStats,
    player_live_state: &mut PlayerLiveState,
    authority: Key32,
    wallet_address: Key32,
    profile_bump: u8,
    rewards_bump: u8,
    live_bump: u8,
    now_ts: i64,
)
    ensures
        *final(player_profile) == if old(player_profile).player == zero_key() {
            PlayerProfile {
                player: wallet_address,
                last_update_ts: now_ts,
                bump: profile_bump,
                ..*old(player_profile)
            }
        } else {
            *old(player_profile)
        },
        *final(player_rewards) == if old(player_rewards).player == zero_key() {
            PlayerRewardStats {
                player: wallet_address,
                bump: rewards_bump,
                last_update_ts: now_ts,
                ..*old(player_rewards)
            }
        } else {
            *old(player_rewards)
        },
        *final(player_live_state) == if old(player_live_state).player == zero_key() {
            fresh_live_state(wallet_address, authority, live_bump, now_ts)
        } else {
            *old(player_live_state)
        },
{
    if player_profile.player.is_zero() {
        player_profile.player = wallet_address;
        player_profile.last_update_ts = now_ts;
        player_profile.bump = profile_bump;
    }
    if player_rewards.player.is_zero() {
        player_rewards.touch(wallet_address, rewards_bump, now_ts);
    }
    if player_live_state.player.is_zero() {
        *player_live_state = PlayerLiveState {
            player: wallet_address,
            wallet_address: wallet_address,
            session_address: authority,
            room_id: Key32::zero(),
            round_index: 0,
            hp: 100,
            total_score: 0,
            earned_amount: 0,
            movement_hash: Key32::zero(),
            last_update_ts: now_ts,
            bump: live_bump,
        };
    }
}

} // verus!
