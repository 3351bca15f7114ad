//! Reward claims: a reward recorded for a match and paid out once from the
//! treasury.
use vstd::prelude::*;

use crate::state::RewardClaim;
use crate::types::{
    GuessrError, Key32, TokenAccountData, MATCH_MODE_DUEL, MATCH_MODE_RANKED_SOLO,
};

verus! {

/// Records a reward of `amount` owed to `player` for a match. The amount
/// must be positive and the mode a duel or a ranked solo match; the claim
/// starts unpaid.
pub fn create_reward_claim_handler(
    reward_claim: &mut RewardClaim,
    player: Key32,
    match_id: Key32,
    mode: u8,
    region: u8,
    amount: u64,
    claim_bump: u8,
    now_ts: i64,
) -> (r: Result<(), GuessrError>)
    ensures
        amount == 0 ==> r == Err::<(), GuessrError>(GuessrError::InvalidAmount),
        amount > 0 && mode != MATCH_MODE_DUEL && mode != MATCH_MODE_RANKED_SOLO ==> r == Err::<
            (),
            GuessrError,
        >(GuessrError::InvalidMatchMode),
        amount > 0 && (mode == MATCH_MODE_DUEL || mode == MATCH_MODE_RANKED_SOLO) ==> (r is Ok),
        r is Ok ==> *final(reward_claim) == (RewardClaim {
            player: player,
            match_id: match_id,
            mode: mode,
            region: region,
            amount: amount,
            claimed: false,
            created_ts: now_ts,
            bump: claim_bump,
        }),
        r is Err ==> *final(reward_claim) == *old(reward_claim),
{
    if amount == 0 {
        return Err(GuessrError::InvalidAmount);
    }
    if mode != MATCH_MODE_DUEL && mode != MATCH_MODE_RANKED_SOLO {
        return Err(GuessrError::InvalidMatchMode);
    }
    *reward_claim = RewardClaim {
        player: player,
        match_id: match_id,
        mode: mode,
        region: region,
        amount: amount,
        claimed: false,
        created_ts: now_ts,
        bump: claim_bump,
    };
    Ok(())
}

/// The outcome of claiming a reward: the amount to transfer from the
/// treasury, or the first check that fails.
pub open spec fn claim_outcome(
    claim: RewardClaim,
    player: Key32,
    config_authority: Key32,
    treasury_authority: Key32,
    token: TokenAccountData,
) -> Result<u64, GuessrError> {
    if claim.player != player {
        Err(GuessrError::Unauthorized)
    } else if treasury_authority != config_authority {
        Err(GuessrError::Unauthorized)
    } else if token.owner != player {
        Err(GuessrError::InvalidTokenOwner)
    } else if claim.claimed {
        Err(GuessrError::AlreadyClaimed)
    } else if claim.amount == 0 {
        Err(GuessrError::InvalidAmount)
    } else {
        Ok(claim.amount)
    }
}

/// Pays out an unpaid claim to its player: returns the amount that the
/// treasury authority transfers to the player's token account and marks the
/// claim paid. On any error nothing changes.
pub fn claim_reward_handler(
    reward_claim: &mut RewardClaim,
    player: Key32,
    config_authority: Key32,
    treasury_authority: Key32,
    player_token_account: TokenAccountData,
) -> (r: Result<u64, GuessrError>)
    ensures
        r == claim_outcome(
            *old(reward_claim),
            player,
            config_authority,
            treasury_authority,
            player_token_account,
        ),
        r is Ok ==> *final(reward_claim) == (RewardClaim { claimed: true, ..*old(reward_claim) }),
        r is Err ==> *final(reward_claim) == *old(reward_claim),
{
    if !reward_claim.player.same_as(&player) {
        return Err(GuessrError::Unauthorized);
    }
    if !treasury_authority.same_as(&config_authority) {
        return Err(GuessrError::Unauthorized);
    }
    if !player_token_account.owner.same_as(&player) {
        return Err(GuessrError::InvalidTokenOwner);
    }
    if reward_claim.claimed {
        return Err(GuessrError::AlreadyClaimed);
    }
    if reward_claim.amount == 0 {
        return Err(GuessrError::InvalidAmount);
    }
    let transfer_amount = reward_claim.amount;
    reward_claim.claimed = true;
    Ok(transfer_amount)
}

} // verus!
