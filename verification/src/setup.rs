//! One-time set-up of the global accounts.
use vstd::prelude::*;

use crate::state::{
    all_empty, LeaderboardState, LobbyState, RankedConfig, RoomPool, RoomPoolEntry,
    empty_pool_entry, ROOM_POOL_MAX_ENTRIES,
};
use crate::types::{GuessrError, Key32};

verus! {

/// The first check that set-up fails, or `Ok`.
pub open spec fn initialize_check(
    heartbeat_ttl_sec: i64,
    reward_mint: Key32,
    reward_mint_account: Key32,
    treasury_mint: Key32,
    reward_multiplier: u64,
    penalty_divisor: u64,
) -> Result<(), GuessrError> {
    if treasury_mint != reward_mint_account {
        Err(GuessrError::InvalidTreasuryMint)
    } else if heartbeat_ttl_sec <= 0 {
        Err(GuessrError::InvalidHeartbeatTtl)
    } else if reward_multiplier == 0 {
        Err(GuessrError::InvalidMultiplier)
    } else if penalty_divisor == 0 {
        Err(GuessrError::InvalidPenaltyDivisor)
    } else if reward_mint != reward_mint_account {
        Err(GuessrError::InvalidRewardMint)
    } else {
        Ok(())
    }
}

/// Sets up the lobby (empty, with the heartbeat time to live), the ranked
/// configuration (reward mint, treasury and reward parameters) and an empty
/// room pool, all under `authority`. The time to live, the reward multiplier
/// and the penalty divisor must be positive, and the treasury must hold the
/// reward mint. On any error nothing changes.
pub fn initialize_system_handler(
    lobby_state: &mut LobbyState,
    ranked_config: &mut RankedConfig,
    room_pool: &mut RoomPool,
    authority: Key32,
    heartbeat_ttl_sec: i64,
    reward_mint: Key32,
    reward_mint_account: Key32,
    treasury_token_account: Key32,
    treasury_mint: Key32,
    reward_multiplier: u64,
    penalty_divisor: u64,
    penalty_threshold: u64,
    lobby_bump: u8,
    config_bump: u8,
    pool_bump: u8,
    mint_authority_bump: u8,
) -> (r: Result<(), GuessrError>)
    ensures
        r == initialize_check(
            heartbeat_ttl_sec,
            reward_mint,
            reward_mint_account,
            treasury_mint,
            reward_multiplier,
            penalty_divisor,
        ),
        r is Ok ==> *final(lobby_state) == (LobbyState {
            authority: authority,
            heartbeat_ttl_sec: heartbeat_ttl_sec,
            online_players: 0,
            bump: lobby_bump,
        }),
        r is Ok ==> *final(ranked_config) == (RankedConfig {
            authority: authority,
            reward_mint: reward_mint,
            treasury_token_account: treasury_token_account,
            reward_multiplier: reward_multiplier,
            penalty_divisor: penalty_divisor,
            penalty_threshold: penalty_threshold,
            mint_authority_bump: mint_authority_bump,
            bump: config_bump,
        }),
        r is Ok ==> {
            &&& final(room_pool).write_index == 0
            &&& final(room_pool).entry_count == 0
            &&& final(room_pool).bump == pool_bump
            &&& forall|i: int|
                0 <= i < ROOM_POOL_MAX_ENTRIES ==> #[trigger] final(room_pool).entries@[i]
                    == empty_pool_entry()
        },
        r is Err ==> {
            &&& *final(lobby_state) == *old(lobby_state)
            &&& *final(ranked_config) == *old(ranked_config)
            &&& *final(room_pool) == *old(room_pool)
        },
{
    if !treasury_mint.same_as(&reward_mint_account) {
        return Err(GuessrError::InvalidTreasuryMint);
    }
    if heartbeat_ttl_sec <= 0 {
        return Err(GuessrError::InvalidHeartbeatTtl);
    }
    if reward_multiplier == 0 {
        return Err(GuessrError::InvalidMultiplier);
    }
    if penalty_divisor == 0 {
        return Err(GuessrError::InvalidPenaltyDivisor);
    }
    if !reward_mint.same_as(&reward_mint_account) {
        return Err(GuessrError::InvalidRewardMint);
    }
    *lobby_state = LobbyState {
        authority: authority,
        heartbeat_ttl_sec: heartbeat_ttl_sec,
        online_players: 0,
        bump: lobby_bump,
    };
    *ranked_config = RankedConfig {
        authority: authority,
        reward_mint: reward_mint,
        treasury_token_account: treasury_token_account,
        reward_multiplier: reward_multiplier,
        penalty_divisor: penalty_divisor,
        penalty_threshold: penalty_threshold,
        mint_authority_bump: mint_authority_bump,
        bump: config_bump,
    };
    let empty = RoomPoolEntry::empty();
    room_pool.write_index = 0;
    room_pool.entry_count = 0;
    room_pool.entries = [empty; ROOM_POOL_MAX_ENTRIES];
    room_pool.bump = pool_bump;
    Ok(())
}

/// Sets up the leaderboard with four empty lists; only the lobby's authority
/// may do so.
pub fn initialize_leaderboard_handler(
    leaderboard: &mut LeaderboardState,
    lobby_state: &LobbyState,
    authority: Key32,
    leaderboard_bump: u8,
    now_ts: i64,
) -> (r: Result<(), GuessrError>)
    ensures
        lobby_state.authority != authority ==> r == Err::<(), GuessrError>(
            GuessrError::Unauthorized,
        ),
        lobby_state.authority == authority ==> (r is Ok),
        r is Ok ==> {
            &&& final(leaderboard).last_update_ts == now_ts
            &&& final(leaderboard).bump == leaderboard_bump
            &&& all_empty(final(leaderboard).xp@)
            &&& all_empty(final(leaderboard).winrate@)
            &&& all_empty(final(leaderboard).net_earnings@)
            &&& all_empty(final(leaderboard).reward_earned@)
        },
        r is Err ==> *final(leaderboard) == *old(leaderboard),
{
    if !lobby_state.authority.same_as(&authority) {
        return Err(GuessrError::Unauthorized);
    }
    leaderboard.reset(leaderboard_bump, now_ts);
    Ok(())
}

} // verus!
