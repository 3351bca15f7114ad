//! Who may act on a player's status.
use vstd::prelude::*;

use crate::state::PlayerStatus;
use crate::types::{GuessrError, Key32};

verus! {

/// Refuses a wallet address that is not the owner of the player status.
pub fn ensure_wallet_matches_status(player_status: &PlayerStatus, wallet_address: Key32) -> (r:
    Result<(), GuessrError>)
    ensures
        player_status.player == wallet_address ==> r is Ok,
        player_status.player != wallet_address ==> r == Err::<(), GuessrError>(
            GuessrError::Unauthorized,
        ),
{
    if !player_status.player.same_as(&wallet_address) {
        return Err(GuessrError::Unauthorized);
    }
    Ok(())
}

/// Accepts any signer as acting for the player: the wallet itself or a
/// session key. Session keys are not registered on chain, so there is
/// nothing to refuse.
pub fn ensure_player_authority(player_status: &PlayerStatus, authority: Key32) -> (r: Result<
    (),
    GuessrError,
>)
    ensures
        r is Ok,
{
    Ok(())
}

} // verus!
