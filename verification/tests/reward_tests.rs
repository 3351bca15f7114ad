use guessr::reward::{claim_reward_handler, create_reward_claim_handler};
use guessr::state::RewardClaim;
use guessr::types::{GuessrError, Key32, TokenAccountData};

fn key(b: u8) -> Key32 {
    Key32 { bytes: [b; 32] }
}

fn blank() -> RewardClaim {
    RewardClaim {
        player: Key32::zero(),
        match_id: Key32::zero(),
        mode: 0,
        region: 0,
        amount: 0,
        claimed: true,
        created_ts: 0,
        bump: 0,
    }
}

fn token(owner: u8) -> TokenAccountData {
    TokenAccountData { owner: key(owner), mint: key(9), amount: 0 }
}

#[test]
fn a_claim_is_created_unpaid() {
    let mut c = blank();
    assert_eq!(create_reward_claim_handler(&mut c, key(1), key(2), 1, 3, 500, 7, 100), Ok(()));
    assert_eq!(
        c,
        RewardClaim { player: key(1), match_id: key(2), mode: 1, region: 3, amount: 500, claimed: false, created_ts: 100, bump: 7 }
    );
    let mut z = blank();
    assert_eq!(create_reward_claim_handler(&mut z, key(1), key(2), 1, 3, 0, 7, 100), Err(GuessrError::InvalidAmount));
    assert_eq!(z, blank());
}

#[test]
fn a_claim_needs_a_known_match_mode() {
    let mut c = blank();
    assert_eq!(
        create_reward_claim_handler(&mut c, key(1), key(2), 5, 3, 10, 7, 100),
        Err(GuessrError::InvalidMatchMode)
    );
    assert_eq!(c, blank());
    assert_eq!(create_reward_claim_handler(&mut c, key(1), key(2), 0, 3, 10, 7, 100), Ok(()));
    assert_eq!(c.mode, 0);
}

#[test]
fn a_claim_pays_once() {
    let mut c = blank();
    create_reward_claim_handler(&mut c, key(1), key(2), 0, 3, 500, 7, 100).unwrap();
    assert_eq!(claim_reward_handler(&mut c, key(1), key(8), key(8), token(1)), Ok(500));
    assert!(c.claimed);
    assert_eq!(claim_reward_handler(&mut c, key(1), key(8), key(8), token(1)), Err(GuessrError::AlreadyClaimed));
}

#[test]
fn claims_are_checked_for_owner_authority_and_amount() {
    let mut c = blank();
    create_reward_claim_handler(&mut c, key(1), key(2), 0, 3, 500, 7, 100).unwrap();
    assert_eq!(claim_reward_handler(&mut c, key(2), key(8), key(8), token(2)), Err(GuessrError::Unauthorized));
    assert_eq!(claim_reward_handler(&mut c, key(1), key(8), key(5), token(1)), Err(GuessrError::Unauthorized));
    assert_eq!(claim_reward_handler(&mut c, key(1), key(8), key(8), token(2)), Err(GuessrError::InvalidTokenOwner));
    assert!(!c.claimed);
    let mut empty = c;
    empty.amount = 0;
    assert_eq!(claim_reward_handler(&mut empty, key(1), key(8), key(8), token(1)), Err(GuessrError::InvalidAmount));
}
