use anchor_lang::prelude::Pubkey;
use guessr::er::{
    commit_duel_with_rewards_handler, commit_guessr_state_handler,
    commit_ranked_with_reward_handler, delegate_guessr_state_handler, first_occurrences,
    AccountRef, DelegateGuessrStateArgs, DelegatedAccount, REWARD_ACTION_COMPUTE_UNITS,
};
use guessr::magic_actions::{mint_duel_rewards_handler, mint_ranked_reward_handler};
use guessr::state::{DuelRoom, RankedConfig, RankedRoom};
use guessr::types::{GuessrError, Key32, TokenAccountData};

fn key(b: u8) -> Key32 {
    Key32 { bytes: [b; 32] }
}

fn pk(k: Key32) -> Pubkey {
    Pubkey::new_from_array(k.bytes)
}

fn args(target: u8, mode: u8) -> DelegateGuessrStateArgs {
    DelegateGuessrStateArgs { target, player: key(1), room_or_match_id: key(2), mode }
}

fn config() -> RankedConfig {
    RankedConfig {
        authority: key(9),
        reward_mint: key(20),
        treasury_token_account: key(21),
        reward_multiplier: 1,
        penalty_divisor: 1,
        penalty_threshold: 1,
        mint_authority_bump: 0,
        bump: 0,
    }
}

fn ranked_room(settled: bool, earned: u64, lost: u64) -> RankedRoom {
    RankedRoom {
        player: key(1),
        challenge_hash: key(2),
        score: 0,
        total_earned: earned,
        total_lost: lost,
        action_count: 0,
        hints_opened: 0,
        last_round_index: 0,
        last_hp: 0,
        last_accuracy_bps: 0,
        last_distance_km: 0,
        last_action_kind: 0,
        is_settled: settled,
        last_movement_hash: Key32::zero(),
        last_action_ts: 0,
        bump: 0,
    }
}

fn duel_room(settled: bool) -> DuelRoom {
    DuelRoom {
        room_id: key(40),
        host: key(1),
        challenger: key(3),
        player_count: 2,
        is_settled: settled,
        host_score: 0,
        challenger_score: 0,
        host_earned: 50,
        host_lost: 20,
        challenger_earned: 5,
        challenger_lost: 9,
        winner: Key32::zero(),
        last_update_ts: 0,
        bump: 0,
    }
}

fn account_of(target: u8, mode: u8) -> Result<DelegatedAccount, GuessrError> {
    delegate_guessr_state_handler(&args(target, mode), &Vec::new()).map(|d| d.account)
}

#[test]
fn delegation_targets_name_their_accounts() {
    assert_eq!(account_of(0, 0), Ok(DelegatedAccount::LobbyState));
    assert_eq!(account_of(1, 0), Ok(DelegatedAccount::RankedConfig));
    assert_eq!(account_of(2, 0), Ok(DelegatedAccount::PlayerStatus { player: key(1) }));
    assert_eq!(account_of(3, 0), Ok(DelegatedAccount::PlayerLiveState { player: key(1) }));
    assert_eq!(account_of(4, 0), Ok(DelegatedAccount::PlayerProfile { player: key(1) }));
    assert_eq!(account_of(5, 0), Ok(DelegatedAccount::DuelRoom { room_id: key(2) }));
    assert_eq!(account_of(6, 0), Ok(DelegatedAccount::RankedRoom { player: key(1), challenge_hash: key(2) }));
    assert_eq!(account_of(7, 1), Ok(DelegatedAccount::RewardClaim { player: key(1), match_id: key(2), mode: 1 }));
    assert_eq!(account_of(7, 2), Err(GuessrError::InvalidMatchMode));
    assert_eq!(account_of(8, 0), Ok(DelegatedAccount::Leaderboard));
    assert_eq!(account_of(9, 0), Ok(DelegatedAccount::PlayerRewards { player: key(1) }));
    assert_eq!(account_of(10, 0), Err(GuessrError::InvalidDelegationTarget));
}

#[test]
fn delegation_seeds_follow_the_account_kind() {
    let seeds = |target: u8, mode: u8| delegate_guessr_state_handler(&args(target, mode), &Vec::new()).unwrap().seeds;
    let w = key(1).bytes.to_vec();
    let id = key(2).bytes.to_vec();
    assert_eq!(seeds(0, 0), vec![b"lobby-state".to_vec()]);
    assert_eq!(seeds(1, 0), vec![b"ranked-config".to_vec()]);
    assert_eq!(seeds(2, 0), vec![b"player-status".to_vec(), w.clone()]);
    assert_eq!(seeds(3, 0), vec![b"player-live-state".to_vec(), w.clone()]);
    assert_eq!(seeds(4, 0), vec![b"player-profile".to_vec(), w.clone()]);
    assert_eq!(seeds(5, 0), vec![b"duel-room".to_vec(), id.clone()]);
    assert_eq!(seeds(6, 0), vec![b"ranked-room".to_vec(), w.clone(), id.clone()]);
    assert_eq!(seeds(7, 1), vec![b"reward-claim".to_vec(), w.clone(), id.clone(), vec![1u8]]);
    assert_eq!(seeds(8, 0), vec![b"leaderboard".to_vec()]);
    assert_eq!(seeds(9, 0), vec![b"player-reward-stats".to_vec(), w.clone()]);
}

#[test]
fn delegation_goes_to_the_first_extra_account() {
    let d = delegate_guessr_state_handler(&args(0, 0), &vec![key(50), key(51)]).unwrap();
    assert_eq!(d.validator, Some(key(50)));
    let d = delegate_guessr_state_handler(&args(0, 0), &Vec::new()).unwrap();
    assert_eq!(d.validator, None);
}

#[test]
fn commits_carry_the_lobby_the_config_and_new_writable_accounts_once() {
    let rest = vec![
        AccountRef { key: key(5), is_writable: true },
        AccountRef { key: key(6), is_writable: false },
        AccountRef { key: key(1), is_writable: true },
        AccountRef { key: key(5), is_writable: true },
        AccountRef { key: key(6), is_writable: true },
        AccountRef { key: key(3), is_writable: true },
    ];
    assert_eq!(commit_guessr_state_handler(key(1), key(2), &rest), vec![0, 1, 2, 6, 7]);
    assert_eq!(commit_guessr_state_handler(key(1), key(2), &Vec::new()), vec![0, 1]);
}

#[test]
fn first_occurrences_skip_repeats() {
    let keys = vec![key(1), key(2), key(1), key(3), key(2)];
    assert_eq!(first_occurrences(&keys), vec![0, 1, 3]);
}

#[test]
fn the_ranked_reward_action_names_derived_accounts() {
    let program = key(100);
    let token_program = Key32 { bytes: anchor_spl::token::ID.to_bytes() };
    let cfg = config();
    let room = ranked_room(true, 0, 0);
    let c = commit_ranked_with_reward_handler(
        program,
        key(10),
        key(11),
        &cfg,
        key(12),
        key(13),
        key(14),
        key(11),
        key(15),
        &room,
    )
    .unwrap();
    assert_eq!(c.action.destination_program, program);
    assert_eq!(c.action.compute_units, REWARD_ACTION_COMPUTE_UNITS);
    assert_eq!(c.committed, vec![0, 1, 2, 3, 4, 6]);
    let a = &c.action.accounts;
    assert_eq!(a.len(), 6);
    assert_eq!(a[0], AccountRef { key: key(11), is_writable: false });
    assert_eq!(a[1], AccountRef { key: key(15), is_writable: false });
    assert_eq!(a[2], AccountRef { key: key(20), is_writable: true });
    let (authority, _) = Pubkey::find_program_address(&[b"mint-authority"], &pk(program));
    assert_eq!(a[3], AccountRef { key: Key32 { bytes: authority.to_bytes() }, is_writable: false });
    assert_ne!(a[3].key, program);
    let ata = anchor_spl::associated_token::get_associated_token_address(&pk(key(1)), &pk(key(20)));
    assert_eq!(a[4], AccountRef { key: Key32 { bytes: ata.to_bytes() }, is_writable: true });
    assert_ne!(a[4].key, key(1));
    assert_eq!(a[5], AccountRef { key: token_program, is_writable: false });
}

#[test]
fn the_duel_reward_action_names_both_token_accounts() {
    let program = key(100);
    let cfg = config();
    let room = duel_room(true);
    let c = commit_duel_with_rewards_handler(
        program,
        key(10),
        key(11),
        &cfg,
        key(12),
        key(13),
        key(40),
        &room,
        key(14),
        key(15),
        key(16),
        key(17),
    )
    .unwrap();
    let a = &c.action.accounts;
    assert_eq!(a.len(), 7);
    let host_ata = anchor_spl::associated_token::get_associated_token_address(&pk(key(1)), &pk(key(20)));
    let guest_ata = anchor_spl::associated_token::get_associated_token_address(&pk(key(3)), &pk(key(20)));
    assert_eq!(a[4].key.bytes, host_ata.to_bytes());
    assert_eq!(a[5].key.bytes, guest_ata.to_bytes());
    assert_ne!(a[4].key, a[5].key);
    assert_eq!(a[6], AccountRef { key: Key32 { bytes: anchor_spl::token::ID.to_bytes() }, is_writable: false });
    assert_eq!(c.committed.len(), 9);
}

#[test]
fn a_settled_ranked_room_mints_its_net_reward() {
    let cfg = config();
    let tok = TokenAccountData { owner: key(1), mint: key(20), amount: 0 };
    assert_eq!(mint_ranked_reward_handler(&cfg, &ranked_room(true, 50, 20), key(20), tok), Ok(30));
    assert_eq!(mint_ranked_reward_handler(&cfg, &ranked_room(true, 5, 20), key(20), tok), Ok(0));
    assert_eq!(mint_ranked_reward_handler(&cfg, &ranked_room(false, 50, 20), key(20), tok), Err(GuessrError::RoomNotSettled));
    assert_eq!(mint_ranked_reward_handler(&cfg, &ranked_room(true, 50, 20), key(21), tok), Err(GuessrError::InvalidRewardMint));
    let other = TokenAccountData { owner: key(2), mint: key(20), amount: 0 };
    assert_eq!(mint_ranked_reward_handler(&cfg, &ranked_room(true, 50, 20), key(20), other), Err(GuessrError::InvalidTokenOwner));
    let wrong_mint = TokenAccountData { owner: key(1), mint: key(22), amount: 0 };
    assert_eq!(mint_ranked_reward_handler(&cfg, &ranked_room(true, 50, 20), key(20), wrong_mint), Err(GuessrError::InvalidTokenMint));
}

#[test]
fn a_settled_duel_mints_each_seats_net_reward() {
    let cfg = config();
    let host = TokenAccountData { owner: key(1), mint: key(20), amount: 0 };
    let guest = TokenAccountData { owner: key(3), mint: key(20), amount: 0 };
    assert_eq!(mint_duel_rewards_handler(&cfg, &duel_room(true), key(20), host, guest), Ok((30, 0)));
    assert_eq!(mint_duel_rewards_handler(&cfg, &duel_room(false), key(20), host, guest), Err(GuessrError::DuelNotSettled));
    assert_eq!(mint_duel_rewards_handler(&cfg, &duel_room(true), key(20), guest, guest), Err(GuessrError::InvalidTokenOwner));
    assert_eq!(mint_duel_rewards_handler(&cfg, &duel_room(true), key(20), host, host), Err(GuessrError::InvalidTokenOwner));
    assert_eq!(mint_duel_rewards_handler(&cfg, &duel_room(true), key(99), host, guest), Err(GuessrError::InvalidRewardMint));
    let bad = TokenAccountData { owner: key(3), mint: key(21), amount: 0 };
    assert_eq!(mint_duel_rewards_handler(&cfg, &duel_room(true), key(20), host, bad), Err(GuessrError::InvalidTokenMint));
}
