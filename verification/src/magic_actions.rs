//! Minting the rewards of settled rooms once their state is committed.
use vstd::prelude::*;

use crate::ranked::saturating_diff;
use crate::state::{DuelRoom, RankedConfig, RankedRoom};
use crate::types::{GuessrError, Key32, TokenAccountData};

verus! {

/// The outcome of minting a ranked room's reward: the net reward to mint
/// (zero for none), or the first check that fails.
pub open spec fn ranked_mint_outcome(
    config: RankedConfig,
    room: RankedRoom,
    reward_mint: Key32,
    token: TokenAccountData,
) -> Result<u64, GuessrError> {
    if !room.is_settled {
        Err(GuessrError::RoomNotSettled)
    } else if reward_mint != config.reward_mint {
        Err(GuessrError::InvalidRewardMint)
    } else if token.owner != room.player {
        Err(GuessrError::InvalidTokenOwner)
    } else if token.mint != config.reward_mint {
        Err(GuessrError::InvalidTokenMint)
    } else {
        Ok(saturating_diff(room.total_earned, room.total_lost))
    }
}

/// The amount to mint to the player of a settled ranked room: what the room
/// earned minus what it lost, or nothing when it lost more. The mint must be
/// the configured reward mint and the token account the player's, of that
/// mint.
pub fn mint_ranked_reward_handler(
    ranked_config: &RankedConfig,
    ranked_room: &RankedRoom,
    reward_mint: Key32,
    player_token_account: TokenAccountData,
) -> (r: Result<u64, GuessrError>)
    ensures
        r == ranked_mint_outcome(*ranked_config, *ranked_room, reward_mint, player_token_account),
{
    if !ranked_room.is_settled {
        return Err(GuessrError::RoomNotSettled);
    }
    if !reward_mint.same_as(&ranked_config.reward_mint) {
        return Err(GuessrError::InvalidRewardMint);
    }
    if !player_token_account.owner.same_as(&ranked_room.player) {
        return Err(GuessrError::InvalidTokenOwner);
    }
    if !player_token_account.mint.same_as(&ranked_config.reward_mint) {
        return Err(GuessrError::InvalidTokenMint);
    }
    Ok(ranked_room.total_earned.saturating_sub(ranked_room.total_lost))
}

/// The outcome of minting a duel's rewards: the net rewards of the host and
/// of the challenger (zero for none), or the first check that fails.
pub open spec fn duel_mint_outcome(
    config: RankedConfig,
    room: DuelRoom,
    reward_mint: Key32,
    host_token: TokenAccountData,
    challenger_token: TokenAccountData,
) -> Result<(u64, u64), GuessrError> {
    if !room.is_settled {
        Err(GuessrError::DuelNotSettled)
    } else if reward_mint != config.reward_mint {
        Err(GuessrError::InvalidRewardMint)
    } else if host_token.owner != room.host {
        Err(GuessrError::InvalidTokenOwner)
    } else if challenger_token.owner != room.challenger {
        Err(GuessrError::InvalidTokenOwner)
    } else if host_token.mint != config.reward_mint {
        Err(GuessrError::InvalidTokenMint)
    } else if challenger_token.mint != config.reward_mint {
        Err(GuessrError::InvalidTokenMint)
    } else {
        Ok(
            (
                saturating_diff(room.host_earned, room.host_lost),
                saturating_diff(room.challenger_earned, room.challenger_lost),
            ),
        )
    }
}

/// The amounts to mint to the host and to the challenger of a settled duel:
/// what each seat earned minus what it lost, or nothing when it lost more.
/// The mint must be the configured reward mint and each token account the
/// seat's own, of that mint.
pub fn mint_duel_rewards_handler(
    ranked_config: &RankedConfig,
    duel_room: &DuelRoom,
    reward_mint: Key32,
    host_token_account: TokenAccountData,
    challenger_token_account: TokenAccountData,
) -> (r: Result<(u64, u64), GuessrError>)
    ensures
        r == duel_mint_outcome(
            *ranked_config,
            *duel_room,
            reward_mint,
            host_token_account,
            challenger_token_account,
        ),
{
    if !duel_room.is_settled {
        return Err(GuessrError::DuelNotSettled);
    }
    if !reward_mint.same_as(&ranked_config.reward_mint) {
        return Err(GuessrError::InvalidRewardMint);
    }
    if !host_token_account.owner.same_as(&duel_room.host) {
        return Err(GuessrError::InvalidTokenOwner);
    }
    if !challenger_token_account.owner.same_as(&duel_room.challenger) {
        return Err(GuessrError::InvalidTokenOwner);
    }
    if !host_token_account.mint.same_as(&ranked_config.reward_mint) {
        return Err(GuessrError::InvalidTokenMint);
    }
    if !challenger_token_account.mint.same_as(&ranked_config.reward_mint) {
        return Err(GuessrError::InvalidTokenMint);
    }
    let host_reward = duel_room.host_earned.saturating_sub(duel_room.host_lost);
    let challenger_reward = duel_room.challenger_earned.saturating_sub(duel_room.challenger_lost);
    Ok((host_reward, challenger_reward))
}

} // verus!
