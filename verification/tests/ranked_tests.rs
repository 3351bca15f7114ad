use guessr::ranked::{
    close_ranked_room_handler, open_ranked_room_handler, set_reward_mint_handler,
    settle_ranked_room_handler, update_ranked_state_handler,
};
use guessr::state::{PlayerLiveState, PlayerProfile, PlayerStatus, RankedConfig, RankedRoom};
use guessr::types::{
    GuessrError, Key32, TokenAccountData, TokenEffects, ACTION_GUESS_SUBMIT, ACTION_HINT_OPEN,
    ACTION_MARK_MOVE,
};

fn key(b: u8) -> Key32 {
    Key32 { bytes: [b; 32] }
}

const PLAYER: u8 = 1;
const MINT: u8 = 2;
const CHALLENGE: u8 = 3;

fn config() -> RankedConfig {
    RankedConfig {
        authority: key(9),
        reward_mint: key(MINT),
        treasury_token_account: key(10),
        reward_multiplier: 100,
        penalty_divisor: 10,
        penalty_threshold: 50,
        mint_authority_bump: 254,
        bump: 253,
    }
}

fn status() -> PlayerStatus {
    PlayerStatus {
        player: key(PLAYER),
        session_address: Key32::zero(),
        active_room: Key32::zero(),
        last_heartbeat_ts: 0,
        is_online: true,
        bump: 1,
    }
}

fn live() -> PlayerLiveState {
    PlayerLiveState {
        player: Key32::zero(),
        wallet_address: Key32::zero(),
        session_address: key(77),
        room_id: Key32::zero(),
        round_index: 0,
        hp: 0,
        total_score: 0,
        earned_amount: 0,
        movement_hash: Key32::zero(),
        last_update_ts: 0,
        bump: 0,
    }
}

fn blank_room() -> RankedRoom {
    RankedRoom {
        player: Key32::zero(),
        challenge_hash: Key32::zero(),
        score: 9,
        total_earned: 9,
        total_lost: 9,
        action_count: 9,
        hints_opened: 9,
        last_round_index: 9,
        last_hp: 9,
        last_accuracy_bps: 9,
        last_distance_km: 9,
        last_action_kind: 9,
        is_settled: true,
        last_movement_hash: key(9),
        last_action_ts: 9,
        bump: 9,
    }
}

fn token(balance: u64) -> TokenAccountData {
    TokenAccountData { owner: key(PLAYER), mint: key(MINT), amount: balance }
}

fn blank_profile() -> PlayerProfile {
    PlayerProfile {
        player: Key32::zero(),
        total_xp: 0,
        duel_wins: 0,
        duel_losses: 0,
        ranked_wins: 0,
        ranked_losses: 0,
        net_earnings: 0,
        total_matches: 0,
        last_match_score: 0,
        last_update_ts: 0,
        bump: 0,
    }
}

fn opened() -> (RankedRoom, PlayerStatus) {
    let mut room = blank_room();
    let mut s = status();
    open_ranked_room_handler(&mut room, &mut s, key(PLAYER), key(CHALLENGE), 4, 10).unwrap();
    (room, s)
}

fn act(
    room: &mut RankedRoom,
    s: &mut PlayerStatus,
    l: &mut PlayerLiveState,
    cfg: &RankedConfig,
    kind: u8,
    accuracy: u16,
    distance: u32,
    correct: bool,
    balance: u64,
) -> Result<TokenEffects, GuessrError> {
    update_ranked_state_handler(
        room,
        s,
        l,
        cfg,
        key(PLAYER),
        key(MINT),
        token(balance),
        key(MINT),
        2,
        80,
        distance,
        accuracy,
        kind,
        correct,
        321,
        key(44),
        6,
        20,
    )
}

#[test]
fn opening_a_room_starts_it_fresh() {
    let (room, s) = opened();
    assert_eq!(room.player, key(PLAYER));
    assert_eq!(room.challenge_hash, key(CHALLENGE));
    assert_eq!((room.score, room.total_earned, room.total_lost, room.action_count), (0, 0, 0, 0));
    assert_eq!(room.last_hp, 100);
    assert_eq!(room.last_action_kind, ACTION_HINT_OPEN);
    assert!(!room.is_settled);
    assert_eq!(room.last_movement_hash, Key32::zero());
    assert_eq!(room.last_action_ts, 10);
    assert_eq!(room.bump, 4);
    assert_eq!(s.active_room, key(CHALLENGE));
    assert_eq!(s.last_heartbeat_ts, 10);
}

#[test]
fn opening_is_refused_offline_or_for_another_player() {
    let mut room = blank_room();
    let mut s = status();
    s.is_online = false;
    assert_eq!(
        open_ranked_room_handler(&mut room, &mut s, key(PLAYER), key(CHALLENGE), 4, 10),
        Err(GuessrError::PlayerOffline)
    );
    assert_eq!(room, blank_room());
    let mut s2 = status();
    assert_eq!(
        open_ranked_room_handler(&mut room, &mut s2, key(5), key(CHALLENGE), 4, 10),
        Err(GuessrError::Unauthorized)
    );
}

#[test]
fn a_hint_costs_one_penalty_unit() {
    let (mut room, mut s) = opened();
    let mut l = live();
    let fx = act(&mut room, &mut s, &mut l, &config(), ACTION_HINT_OPEN, 0, 0, false, 100).unwrap();
    assert_eq!(fx, TokenEffects { mint_amount: 0, penalty_transfer: 5 });
    assert_eq!(room.hints_opened, 1);
    assert_eq!(room.total_lost, 5);
    assert_eq!(room.action_count, 1);
    assert_eq!(room.last_round_index, 2);
    assert_eq!(room.last_hp, 80);
    assert_eq!(room.score, 321);
    assert_eq!(room.last_movement_hash, key(44));
    assert_eq!(room.last_action_ts, 20);
    assert_eq!(s.last_heartbeat_ts, 20);
    assert_eq!(l.player, key(PLAYER));
    assert_eq!(l.session_address, Key32::zero());
    assert_eq!(l.room_id, key(CHALLENGE));
    assert_eq!(l.earned_amount, 0);
    assert_eq!(l.hp, 80);
    assert_eq!(l.bump, 6);
}

#[test]
fn a_marker_move_earns_accuracy_over_multiplier_and_pays_distance_over_divisor() {
    let (mut room, mut s) = opened();
    let mut l = live();
    let fx = act(&mut room, &mut s, &mut l, &config(), ACTION_MARK_MOVE, 5000, 30, true, 100).unwrap();
    assert_eq!(fx, TokenEffects { mint_amount: 50, penalty_transfer: 3 });
    assert_eq!(l.earned_amount, 47);
}

#[test]
fn a_marker_move_in_the_wrong_country_earns_nothing_and_pays_a_unit_more() {
    let (mut room, mut s) = opened();
    let mut l = live();
    let fx = act(&mut room, &mut s, &mut l, &config(), ACTION_MARK_MOVE, 5000, 30, false, 100).unwrap();
    assert_eq!(fx, TokenEffects { mint_amount: 0, penalty_transfer: 8 });
}

#[test]
fn hints_decay_the_guess_reward_and_the_match_settles_as_a_win() {
    let (mut room, mut s) = opened();
    let mut l = live();
    act(&mut room, &mut s, &mut l, &config(), ACTION_HINT_OPEN, 0, 0, false, 100).unwrap();
    let fx = act(&mut room, &mut s, &mut l, &config(), ACTION_GUESS_SUBMIT, 8000, 100, true, 95).unwrap();
    // 2 * 8000 / 100 + 5, minus one hint of 5; the distance costs 100 / 10
    assert_eq!(fx, TokenEffects { mint_amount: 160, penalty_transfer: 10 });
    assert_eq!(room.total_earned, 160);
    assert_eq!(room.total_lost, 15);
    assert_eq!(l.earned_amount, 145);
    let mut p = blank_profile();
    assert_eq!(
        settle_ranked_room_handler(&mut room, &mut p, key(PLAYER), key(MINT), token(0), key(MINT), 400, 8, 30),
        Ok(())
    );
    assert!(room.is_settled);
    assert_eq!(room.score, 400);
    assert_eq!(room.last_action_ts, 30);
    // 20 + 400 / 20 + 2 / 2
    assert_eq!(p.total_xp, 41);
    assert_eq!(p.ranked_wins, 1);
    assert_eq!(p.net_earnings, 145);
    assert_eq!(p.last_match_score, 400);
    assert_eq!(p.bump, 8);
    assert_eq!(p.player, key(PLAYER));
}

#[test]
fn a_wrong_guess_pays_two_extra_units() {
    let (mut room, mut s) = opened();
    let mut l = live();
    let fx = act(&mut room, &mut s, &mut l, &config(), ACTION_GUESS_SUBMIT, 8000, 100, false, 100).unwrap();
    assert_eq!(fx, TokenEffects { mint_amount: 0, penalty_transfer: 20 });
}

#[test]
fn the_penalty_is_capped_by_the_balance() {
    let (mut room, mut s) = opened();
    let mut l = live();
    let fx = act(&mut room, &mut s, &mut l, &config(), ACTION_GUESS_SUBMIT, 8000, 100, false, 3).unwrap();
    assert_eq!(fx.penalty_transfer, 3);
    let fx = act(&mut room, &mut s, &mut l, &config(), ACTION_HINT_OPEN, 0, 0, false, 0).unwrap();
    assert_eq!(fx.penalty_transfer, 0);
    assert_eq!(room.total_lost, 3);
}

#[test]
fn the_penalty_unit_is_at_least_one() {
    let (mut room, mut s) = opened();
    let mut l = live();
    let mut cfg = config();
    cfg.penalty_threshold = 5;
    let fx = act(&mut room, &mut s, &mut l, &cfg, ACTION_HINT_OPEN, 0, 0, false, 100).unwrap();
    assert_eq!(fx.penalty_transfer, 1);
}

#[test]
fn ranked_actions_are_checked_in_order() {
    let (room0, s0) = opened();
    let mut l = live();
    let cfg = config();
    let run = |room: &mut RankedRoom, s: &mut PlayerStatus, l: &mut PlayerLiveState, cfg: &RankedConfig, kind: u8, acc: u16| {
        act(room, s, l, cfg, kind, acc, 0, true, 10)
    };
    let (mut room, mut s) = (room0, s0);
    assert_eq!(run(&mut room, &mut s, &mut l, &cfg, 3, 0), Err(GuessrError::InvalidActionKind));
    assert_eq!(run(&mut room, &mut s, &mut l, &cfg, ACTION_MARK_MOVE, 10_001), Err(GuessrError::InvalidAccuracy));
    let mut c2 = cfg;
    c2.reward_multiplier = 0;
    assert_eq!(run(&mut room, &mut s, &mut l, &c2, ACTION_MARK_MOVE, 1), Err(GuessrError::InvalidMultiplier));
    let mut c3 = cfg;
    c3.penalty_divisor = 0;
    assert_eq!(run(&mut room, &mut s, &mut l, &c3, ACTION_MARK_MOVE, 1), Err(GuessrError::InvalidPenaltyDivisor));
    s.active_room = key(66);
    assert_eq!(run(&mut room, &mut s, &mut l, &cfg, ACTION_MARK_MOVE, 1), Err(GuessrError::RoomMismatch));
    s.is_online = false;
    assert_eq!(run(&mut room, &mut s, &mut l, &cfg, ACTION_MARK_MOVE, 1), Err(GuessrError::PlayerOffline));
    room.is_settled = true;
    assert_eq!(run(&mut room, &mut s, &mut l, &cfg, ACTION_MARK_MOVE, 1), Err(GuessrError::RoomAlreadySettled));
    assert_eq!(l, live());
    let (mut room, mut s) = (room0, s0);
    room.hints_opened = u16::MAX;
    assert_eq!(run(&mut room, &mut s, &mut l, &cfg, ACTION_HINT_OPEN, 0), Err(GuessrError::Overflow));
    assert_eq!(room.hints_opened, u16::MAX);
}

#[test]
fn ranked_account_checks_come_first() {
    let (mut room, mut s) = opened();
    let mut l = live();
    let cfg = config();
    let call = |room: &mut RankedRoom, s: &mut PlayerStatus, l: &mut PlayerLiveState, player: u8, tok: TokenAccountData, treasury: u8| {
        update_ranked_state_handler(room, s, l, &cfg, key(player), key(MINT), tok, key(treasury), 0, 0, 0, 0, ACTION_HINT_OPEN, true, 0, key(0), 0, 0)
    };
    assert_eq!(call(&mut room, &mut s, &mut l, 5, token(1), MINT), Err(GuessrError::Unauthorized));
    let other_owner = TokenAccountData { owner: key(5), mint: key(MINT), amount: 1 };
    assert_eq!(call(&mut room, &mut s, &mut l, PLAYER, other_owner, MINT), Err(GuessrError::InvalidTokenOwner));
    let other_mint = TokenAccountData { owner: key(PLAYER), mint: key(5), amount: 1 };
    assert_eq!(call(&mut room, &mut s, &mut l, PLAYER, other_mint, MINT), Err(GuessrError::InvalidTokenMint));
    assert_eq!(call(&mut room, &mut s, &mut l, PLAYER, token(1), 5), Err(GuessrError::InvalidTreasuryMint));
    room.player = key(5);
    assert_eq!(call(&mut room, &mut s, &mut l, PLAYER, token(1), MINT), Err(GuessrError::Unauthorized));
}

#[test]
fn a_ranked_room_settles_once() {
    let (mut room, _) = opened();
    let mut p = blank_profile();
    assert_eq!(
        settle_ranked_room_handler(&mut room, &mut p, key(PLAYER), key(MINT), token(0), key(MINT), 0, 8, 30),
        Ok(())
    );
    // no score: a loss
    assert_eq!(p.ranked_losses, 1);
    assert_eq!(p.total_xp, 20);
    let p_before = p;
    assert_eq!(
        settle_ranked_room_handler(&mut room, &mut p, key(PLAYER), key(MINT), token(0), key(MINT), 10, 8, 40),
        Err(GuessrError::RoomAlreadySettled)
    );
    assert_eq!(p, p_before);
}

#[test]
fn settling_a_losing_room_records_a_loss_with_negative_earnings() {
    let (mut room, _) = opened();
    room.total_earned = 10;
    room.total_lost = 25;
    room.action_count = 7;
    let mut p = blank_profile();
    settle_ranked_room_handler(&mut room, &mut p, key(PLAYER), key(MINT), token(0), key(MINT), 100, 8, 30).unwrap();
    assert_eq!(p.ranked_losses, 1);
    assert_eq!(p.net_earnings, -15);
    assert_eq!(p.total_xp, 20 + 5 + 3);
}

#[test]
fn settling_an_unrepresentable_delta_overflows() {
    let (mut room, _) = opened();
    room.total_earned = u64::MAX;
    let mut p = blank_profile();
    let before = room;
    assert_eq!(
        settle_ranked_room_handler(&mut room, &mut p, key(PLAYER), key(MINT), token(0), key(MINT), 1, 8, 30),
        Err(GuessrError::Overflow)
    );
    assert_eq!(room, before);
    let mut r2 = before;
    r2.player = key(5);
    assert_eq!(
        settle_ranked_room_handler(&mut r2, &mut p, key(PLAYER), key(MINT), token(0), key(MINT), 1, 8, 30),
        Err(GuessrError::Unauthorized)
    );
}

#[test]
fn closing_needs_a_settled_room_and_leaves_it() {
    let (mut room, mut s) = opened();
    assert_eq!(close_ranked_room_handler(&mut s, &room, key(PLAYER)), Err(GuessrError::RoomNotSettled));
    room.is_settled = true;
    assert_eq!(close_ranked_room_handler(&mut s, &room, key(PLAYER)), Ok(()));
    assert_eq!(s.active_room, Key32::zero());
    s.active_room = key(70);
    assert_eq!(close_ranked_room_handler(&mut s, &room, key(PLAYER)), Ok(()));
    assert_eq!(s.active_room, key(70));
    assert_eq!(close_ranked_room_handler(&mut s, &room, key(5)), Err(GuessrError::Unauthorized));
}

#[test]
fn only_the_authority_sets_the_reward_mint() {
    let mut cfg = config();
    assert_eq!(set_reward_mint_handler(&mut cfg, key(5), key(20), key(21), key(20)), Err(GuessrError::Unauthorized));
    assert_eq!(set_reward_mint_handler(&mut cfg, key(9), key(20), key(21), key(22)), Err(GuessrError::InvalidTreasuryMint));
    assert_eq!(cfg, config());
    assert_eq!(set_reward_mint_handler(&mut cfg, key(9), key(20), key(21), key(20)), Ok(()));
    assert_eq!(cfg.reward_mint, key(20));
    assert_eq!(cfg.treasury_token_account, key(21));
    assert_eq!(cfg.reward_multiplier, 100);
}
