use guessr::leaderboard::update_list;
use guessr::profile::{
    apply_profile_match_result, commit_match_result_handler, commit_match_result_pool_handler,
    init_player_accounts_handler, ProfileMatchMode, ProfileOutcome,
};
use guessr::state::{
    LeaderboardEntry, LeaderboardState, PlayerLiveState, PlayerProfile, PlayerRewardStats,
    LEADERBOARD_ENTRIES,
};
use guessr::types::{GuessrError, Key32};

fn key(b: u8) -> Key32 {
    Key32 { bytes: [b; 32] }
}

fn blank_profile() -> PlayerProfile {
    PlayerProfile {
        player: Key32::zero(),
        total_xp: 0,
        duel_wins: 0,
        duel_losses: 0,
        ranked_wins: 0,
        ranked_losses: 0,
        net_earnings: 0,
        total_matches: 0,
        last_match_score: 0,
        last_update_ts: 0,
        bump: 0,
    }
}

fn blank_rewards() -> PlayerRewardStats {
    PlayerRewardStats { player: Key32::zero(), total_earned: 0, last_update_ts: 0, bump: 0 }
}

fn blank_live() -> PlayerLiveState {
    PlayerLiveState {
        player: Key32::zero(),
        wallet_address: Key32::zero(),
        session_address: Key32::zero(),
        room_id: key(8),
        round_index: 3,
        hp: 7,
        total_score: 9,
        earned_amount: 1,
        movement_hash: key(8),
        last_update_ts: 0,
        bump: 0,
    }
}

fn blank_board() -> LeaderboardState {
    let e = LeaderboardEntry::empty();
    LeaderboardState {
        last_update_ts: 0,
        bump: 0,
        xp: [e; LEADERBOARD_ENTRIES],
        winrate: [e; LEADERBOARD_ENTRIES],
        net_earnings: [e; LEADERBOARD_ENTRIES],
        reward_earned: [e; LEADERBOARD_ENTRIES],
    }
}

#[test]
fn a_result_updates_the_matching_counter() {
    let mut p = blank_profile();
    let cases = [
        (ProfileMatchMode::Duel, ProfileOutcome::Win),
        (ProfileMatchMode::Duel, ProfileOutcome::Loss),
        (ProfileMatchMode::Duel, ProfileOutcome::Draw),
        (ProfileMatchMode::RankedSolo, ProfileOutcome::Win),
        (ProfileMatchMode::RankedSolo, ProfileOutcome::Loss),
        (ProfileMatchMode::RankedSolo, ProfileOutcome::Draw),
    ];
    for (mode, outcome) in cases {
        assert_eq!(apply_profile_match_result(&mut p, key(1), mode, outcome, 10, -3, 42, 5, 99), Ok(()));
    }
    assert_eq!(p.player, key(1));
    assert_eq!(p.duel_wins, 1);
    assert_eq!(p.duel_losses, 1);
    assert_eq!(p.ranked_wins, 1);
    assert_eq!(p.ranked_losses, 1);
    assert_eq!(p.total_matches, 6);
    assert_eq!(p.total_xp, 60);
    assert_eq!(p.net_earnings, -18);
    assert_eq!(p.last_match_score, 42);
    assert_eq!(p.last_update_ts, 99);
    assert_eq!(p.bump, 5);
}

#[test]
fn an_overflowing_result_changes_nothing() {
    let mut p = blank_profile();
    p.total_xp = u64::MAX;
    let before = p;
    assert_eq!(
        apply_profile_match_result(&mut p, key(1), ProfileMatchMode::Duel, ProfileOutcome::Win, 1, 0, 1, 1, 1),
        Err(GuessrError::Overflow)
    );
    assert_eq!(p, before);
    let mut q = blank_profile();
    q.net_earnings = i64::MIN;
    assert_eq!(
        apply_profile_match_result(&mut q, key(1), ProfileMatchMode::Duel, ProfileOutcome::Win, 1, -1, 1, 1, 1),
        Err(GuessrError::Overflow)
    );
    let mut r = blank_profile();
    r.ranked_losses = u32::MAX;
    assert_eq!(
        apply_profile_match_result(&mut r, key(1), ProfileMatchMode::RankedSolo, ProfileOutcome::Loss, 1, 0, 1, 1, 1),
        Err(GuessrError::Overflow)
    );
    // a draw does not touch the full counter
    assert_eq!(
        apply_profile_match_result(&mut r, key(1), ProfileMatchMode::RankedSolo, ProfileOutcome::Draw, 1, 0, 1, 1, 1),
        Ok(())
    );
}

#[test]
fn commit_match_result_maps_mode_and_win() {
    let mut p = blank_profile();
    assert_eq!(commit_match_result_handler(&mut p, key(2), 1, true, 30, 7, 500, 3, 10), Ok(()));
    assert_eq!(p.ranked_wins, 1);
    assert_eq!(commit_match_result_handler(&mut p, key(2), 0, false, 30, 7, 500, 3, 10), Ok(()));
    assert_eq!(p.duel_losses, 1);
    assert_eq!(p.total_xp, 60);
    assert_eq!(p.net_earnings, 14);
    let before = p;
    assert_eq!(
        commit_match_result_handler(&mut p, key(2), 2, true, 30, 7, 500, 3, 10),
        Err(GuessrError::InvalidMatchMode)
    );
    assert_eq!(p, before);
}

#[test]
fn pooled_result_updates_profile_rewards_and_leaderboards() {
    let mut p = blank_profile();
    let mut r = blank_rewards();
    let mut lb = blank_board();
    assert_eq!(
        commit_match_result_pool_handler(&mut p, &mut r, &mut lb, key(4), 0, true, 25, 40, 900, 6, 7, 1234),
        Ok(())
    );
    assert_eq!(p.player, key(4));
    assert_eq!(p.duel_wins, 1);
    assert_eq!(r.player, key(4));
    assert_eq!(r.bump, 7);
    assert_eq!(r.total_earned, 40);
    assert_eq!(r.last_update_ts, 1234);
    assert_eq!(lb.last_update_ts, 1234);
    assert_eq!(lb.xp[0], LeaderboardEntry { player: key(4), value: 25 });
    assert_eq!(lb.winrate[0], LeaderboardEntry { player: key(4), value: 10_000 });
    assert_eq!(lb.net_earnings[0], LeaderboardEntry { player: key(4), value: 40 });
    assert_eq!(lb.reward_earned[0], LeaderboardEntry { player: key(4), value: 40 });
    // a loss costs money but not lifetime rewards
    assert_eq!(
        commit_match_result_pool_handler(&mut p, &mut r, &mut lb, key(4), 1, false, 5, -50, 10, 6, 99, 1300),
        Ok(())
    );
    assert_eq!(r.total_earned, 40);
    assert_eq!(r.bump, 7);
    assert_eq!(p.net_earnings, -10);
    assert_eq!(lb.net_earnings[0], LeaderboardEntry::empty());
    assert_eq!(lb.winrate[0], LeaderboardEntry { player: key(4), value: 5000 });
}

#[test]
fn pooled_result_refuses_bad_mode_and_overflowing_rewards() {
    let mut p = blank_profile();
    let mut r = blank_rewards();
    let mut lb = blank_board();
    assert_eq!(
        commit_match_result_pool_handler(&mut p, &mut r, &mut lb, key(4), 9, true, 1, 1, 1, 1, 1, 1),
        Err(GuessrError::InvalidMatchMode)
    );
    r.total_earned = u64::MAX;
    let before = (p, r);
    assert_eq!(
        commit_match_result_pool_handler(&mut p, &mut r, &mut lb, key(4), 0, true, 1, 1, 1, 1, 1, 1),
        Err(GuessrError::Overflow)
    );
    assert_eq!((p, r), before);
    assert_eq!(lb, blank_board());
    let _ = update_list;
}

#[test]
fn init_player_accounts_stamps_only_unused_accounts() {
    let mut p = blank_profile();
    let mut r = blank_rewards();
    let mut l = blank_live();
    init_player_accounts_handler(&mut p, &mut r, &mut l, key(9), key(4), 1, 2, 3, 50);
    assert_eq!(p.player, key(4));
    assert_eq!(p.bump, 1);
    assert_eq!(p.last_update_ts, 50);
    assert_eq!(r.player, key(4));
    assert_eq!(r.bump, 2);
    assert_eq!(l.player, key(4));
    assert_eq!(l.wallet_address, key(4));
    assert_eq!(l.session_address, key(9));
    assert_eq!(l.room_id, Key32::zero());
    assert_eq!(l.hp, 100);
    assert_eq!(l.round_index, 0);
    assert_eq!(l.bump, 3);
    let (p0, r0, l0) = (p, r, l);
    init_player_accounts_handler(&mut p, &mut r, &mut l, key(8), key(5), 7, 7, 7, 60);
    assert_eq!((p, r, l), (p0, r0, l0));
}

#[test]
fn touch_keeps_the_total() {
    let mut r = PlayerRewardStats { player: key(1), total_earned: 77, last_update_ts: 0, bump: 0 };
    r.touch(key(2), 5, 9);
    assert_eq!(r, PlayerRewardStats { player: key(2), total_earned: 77, last_update_ts: 9, bump: 5 });
}
