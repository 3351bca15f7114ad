//! Ephemeral-rollup bookkeeping: which account a delegation request names,
//! which accounts a commit carries, and the reward action that runs after a
//! commit.
use vstd::prelude::*;
use vstd::string::{StrSliceExecFns, StringSliceAdditionalSpecFns};

use crate::chain::{
    associated_token_address, associated_token_program_key, find_program_address, key_view,
    program_address, token_program_address, token_program_key,
};
use crate::state::{DuelRoom, RankedConfig, RankedRoom};
use crate::types::{GuessrError, Key32, MATCH_MODE_DUEL, MATCH_MODE_RANKED_SOLO};

verus! {

/// Delegation target: the lobby.
pub const DELEGATE_TARGET_LOBBY_STATE: u8 = 0;
/// Delegation target: the ranked configuration.
pub const DELEGATE_TARGET_RANKED_CONFIG: u8 = 1;
/// Delegation target: a player's status.
pub const DELEGATE_TARGET_PLAYER_STATUS: u8 = 2;
/// Delegation target: a player's live state.
pub const DELEGATE_TARGET_PLAYER_LIVE_STATE: u8 = 3;
/// Delegation target: a player's profile.
pub const DELEGATE_TARGET_PLAYER_PROFILE: u8 = 4;
/// Delegation target: a duel room.
pub const DELEGATE_TARGET_DUEL_ROOM: u8 = 5;
/// Delegation target: a ranked room.
pub const DELEGATE_TARGET_RANKED_ROOM: u8 = 6;
/// Delegation target: a reward claim.
pub const DELEGATE_TARGET_REWARD_CLAIM: u8 = 7;
/// Delegation target: the leaderboard.
pub const DELEGATE_TARGET_LEADERBOARD: u8 = 8;
/// Delegation target: a player's reward stats.
pub const DELEGATE_TARGET_PLAYER_REWARDS: u8 = 9;

/// Compute units granted to the reward action that runs after a commit.
pub const REWARD_ACTION_COMPUTE_UNITS: u32 = 200_000;

/// A request to delegate one account of the game.
#[derive(Clone, Copy, Debug, PartialEq, Eq)]
pub struct DelegateGuessrStateArgs {
    /// Which kind of account (one of the `DELEGATE_TARGET_*` numbers).
    pub target: u8,
    /// The player, for per-player accounts.
    pub player: Key32,
    /// The room id, challenge hash or match id, for rooms and claims.
    pub room_or_match_id: Key32,
    /// The match mode, for reward claims.
    pub mode: u8,
}

/// The account that a delegation request names, by what its address is
/// derived from.
#[derive(Clone, Copy, Debug, PartialEq, Eq)]
pub enum DelegatedAccount {
    LobbyState,
    RankedConfig,
    PlayerStatus { player: Key32 },
    PlayerLiveState { player: Key32 },
    PlayerProfile { player: Key32 },
    PlayerRewards { player: Key32 },
    DuelRoom { room_id: Key32 },
    RankedRoom { player: Key32, challenge_hash: Key32 },
    RewardClaim { player: Key32, match_id: Key32, mode: u8 },
    Leaderboard,
}

/// The account that a delegation request names, or why it names none.
pub open spec fn delegation_outcome(args: DelegateGuessrStateArgs) -> Result<
    DelegatedAccount,
    GuessrError,
> {
    if args.target == DELEGATE_TARGET_LOBBY_STATE {
        Ok(DelegatedAccount::LobbyState)
    } else if args.target == DELEGATE_TARGET_RANKED_CONFIG {
        Ok(DelegatedAccount::RankedConfig)
    } else if args.target == DELEGATE_TARGET_PLAYER_STATUS {
        Ok(DelegatedAccount::PlayerStatus { player: args.player })
    } else if args.target == DELEGATE_TARGET_PLAYER_LIVE_STATE {
        Ok(DelegatedAccount::PlayerLiveState { player: args.player })
    } else if args.target == DELEGATE_TARGET_PLAYER_PROFILE {
        Ok(DelegatedAccount::PlayerProfile { player: args.player })
    } else if args.target == DELEGATE_TARGET_PLAYER_REWARDS {
        Ok(DelegatedAccount::PlayerRewards { player: args.player })
    } else if args.target == DELEGATE_TARGET_DUEL_ROOM {
        Ok(DelegatedAccount::DuelRoom { room_id: args.room_or_match_id })
    } else if args.target == DELEGATE_TARGET_RANKED_ROOM {
        Ok(
            DelegatedAccount::RankedRoom {
                player: args.player,
                challenge_hash: args.room_or_match_id,
            },
        )
    } else if args.target == DELEGATE_TARGET_REWARD_CLAIM {
        if args.mode == MATCH_MODE_DUEL || args.mode == MATCH_MODE_RANKED_SOLO {
            Ok(
                DelegatedAccount::RewardClaim {
                    player: args.player,
                    match_id: args.room_or_match_id,
                    mode: args.mode,
                },
            )
        } else {
            Err(GuessrError::InvalidMatchMode)
        }
    } else if args.target == DELEGATE_TARGET_LEADERBOARD {
        Ok(DelegatedAccount::Leaderboard)
    } else {
        Err(GuessrError::InvalidDelegationTarget)
    }
}

/// The seeds of the address of a delegated account: its kind's name,
/// then the player, the room or match id and the mode that it is kept for.
pub open spec fn delegation_seeds(account: DelegatedAccount) -> Seq<Seq<u8>> {
    match account {
        DelegatedAccount::LobbyState => seq!["lobby-state".spec_bytes()],
        DelegatedAccount::RankedConfig => seq!["ranked-config".spec_bytes()],
        DelegatedAccount::PlayerStatus { player } => seq!["player-status".spec_bytes(), player@],
        DelegatedAccount::PlayerLiveState { player } => seq![
            "player-live-state".spec_bytes(),
            player@,
        ],
        DelegatedAccount::PlayerProfile { player } => seq!["player-profile".spec_bytes(), player@],
        DelegatedAccount::PlayerRewards { player } => seq![
            "player-reward-stats".spec_bytes(),
            player@,
        ],
        DelegatedAccount::DuelRoom { room_id } => seq!["duel-room".spec_bytes(), room_id@],
        DelegatedAccount::RankedRoom { player, challenge_hash } => seq![
            "ranked-room".spec_bytes(),
            player@,
            challenge_hash@,
        ],
        DelegatedAccount::RewardClaim { player, match_id, mode } => seq![
            "reward-claim".spec_bytes(),
            player@,
            match_id@,
            seq![mode],
        ],
        DelegatedAccount::Leaderboard => seq!["leaderboard".spec_bytes()],
    }
}

/// The bytes of a key, as a seed.
fn key_seed(k: &Key32) -> (r: Vec<u8>)
    ensures
        r@ == k@,
{
    let mut v: Vec<u8> = Vec::new();
    let mut i: usize = 0;
    while i < 32
        invariant
            0 <= i <= 32,
            v@ == k.bytes@.take(i as int),
        decreases 32 - i,
    {
        v.push(k.bytes[i]);
        assert(k.bytes@.take(i as int + 1) =~= k.bytes@.take(i as int).push(k.bytes[i as int]));
        i = i + 1;
    }
    assert(k.bytes@.take(32) =~= k.bytes@);
    v
}

/// A seed list of one seed.
fn seeds1(a: Vec<u8>) -> (r: Vec<Vec<u8>>)
    ensures
        r.deep_view() == seq![a@],
{
    let r = vec![a];
    assert(r.deep_view()[0] =~= a@);
    assert(r.deep_view() =~= seq![a@]);
    r
}

/// A seed list of two seeds.
fn seeds2(a: Vec<u8>, b: Vec<u8>) -> (r: Vec<Vec<u8>>)
    ensures
        r.deep_view() == seq![a@, b@],
{
    let r = vec![a, b];
    assert(r.deep_view()[0] =~= a@);
    assert(r.deep_view()[1] =~= b@);
    assert(r.deep_view() =~= seq![a@, b@]);
    r
}

/// A seed list of three seeds.
fn seeds3(a: Vec<u8>, b: Vec<u8>, c: Vec<u8>) -> (r: Vec<Vec<u8>>)
    ensures
        r.deep_view() == seq![a@, b@, c@],
{
    let r = vec![a, b, c];
    assert(r.deep_view()[0] =~= a@);
    assert(r.deep_view()[1] =~= b@);
    assert(r.deep_view()[2] =~= c@);
    assert(r.deep_view() =~= seq![a@, b@, c@]);
    r
}

/// A seed list of four seeds.
fn seeds4(a: Vec<u8>, b: Vec<u8>, c: Vec<u8>, d: Vec<u8>) -> (r: Vec<Vec<u8>>)
    ensures
        r.deep_view() == seq![a@, b@, c@, d@],
{
    let r = vec![a, b, c, d];
    assert(r.deep_view()[0] =~= a@);
    assert(r.deep_view()[1] =~= b@);
    assert(r.deep_view()[2] =~= c@);
    assert(r.deep_view()[3] =~= d@);
    assert(r.deep_view() =~= seq![a@, b@, c@, d@]);
    r
}

/// The seeds of the address of a delegated account.
pub fn delegation_seeds_of(account: &DelegatedAccount) -> (r: Vec<Vec<u8>>)
    ensures
        r.deep_view() == delegation_seeds(*account),
{
    match account {
        DelegatedAccount::LobbyState => seeds1("lobby-state".as_bytes_vec()),
        DelegatedAccount::RankedConfig => seeds1("ranked-config".as_bytes_vec()),
        DelegatedAccount::PlayerStatus { player } => seeds2(
            "player-status".as_bytes_vec(),
            key_seed(player),
        ),
        DelegatedAccount::PlayerLiveState { player } => seeds2(
            "player-live-state".as_bytes_vec(),
            key_seed(player),
        ),
        DelegatedAccount::PlayerProfile { player } => seeds2(
            "player-profile".as_bytes_vec(),
            key_seed(player),
        ),
        DelegatedAccount::PlayerRewards { player } => seeds2(
            "player-reward-stats".as_bytes_vec(),
            key_seed(player),
        ),
        DelegatedAccount::DuelRoom { room_id } => seeds2(
            "duel-room".as_bytes_vec(),
            key_seed(room_id),
        ),
        DelegatedAccount::RankedRoom { player, challenge_hash } => seeds3(
            "ranked-room".as_bytes_vec(),
            key_seed(player),
            key_seed(challenge_hash),
        ),
        DelegatedAccount::RewardClaim { player, match_id, mode } => {
            let m: Vec<u8> = vec![*mode];
            assert(m@ =~= seq![*mode]);
            seeds4("reward-claim".as_bytes_vec(), key_seed(player), key_seed(match_id), m)
        },
        DelegatedAccount::Leaderboard => seeds1("leaderboard".as_bytes_vec()),
    }
}

/// What a delegation request delegates: the account, the seeds of its
/// address, and the validator that it is delegated to, if one is named.
#[derive(Debug, PartialEq, Eq)]
pub struct Delegation {
    pub account: DelegatedAccount,
    pub seeds: Vec<Vec<u8>>,
    pub validator: Option<Key32>,
}

/// The validator named by the extra accounts of a delegation request: the
/// first of them, if any.
pub open spec fn named_validator(remaining: Seq<Key32>) -> Option<Key32> {
    if remaining.len() > 0 {
        Some(remaining[0])
    } else {
        None
    }
}

/// Names the account that a delegation request asks for, with the seeds of
/// its address and the validator, the first of the extra accounts if there
/// is one. Reward claims need a known match mode; an unknown target is
/// refused.
pub fn delegate_guessr_state_handler(
    args: &DelegateGuessrStateArgs,
    remaining: &Vec<Key32>,
) -> (r: Result<Delegation, GuessrError>)
    ensures
        match delegation_outcome(*args) {
            Ok(account) => r matches Ok(d) && d.account == account && d.seeds.deep_view()
                == delegation_seeds(account) && d.validator == named_validator(remaining@),
            Err(e) => r matches Err(f) && f == e,
        },
{
    let account = delegated_account(args)?;
    let seeds = delegation_seeds_of(&account);
    let validator = if remaining.len() > 0 {
        Some(remaining[0])
    } else {
        None
    };
    Ok(Delegation { account, seeds, validator })
}

/// Names the account that a delegation request asks for.
fn delegated_account(args: &DelegateGuessrStateArgs) -> (r: Result<
    DelegatedAccount,
    GuessrError,
>)
    ensures
        r == delegation_outcome(*args),
{
    let player = args.player;
    let id = args.room_or_match_id;
    if args.target == DELEGATE_TARGET_LOBBY_STATE {
        Ok(DelegatedAccount::LobbyState)
    } else if args.target == DELEGATE_TARGET_RANKED_CONFIG {
        Ok(DelegatedAccount::RankedConfig)
    } else if args.target == DELEGATE_TARGET_PLAYER_STATUS {
        Ok(DelegatedAccount::PlayerStatus { player })
    } else if args.target == DELEGATE_TARGET_PLAYER_LIVE_STATE {
        Ok(DelegatedAccount::PlayerLiveState { player })
    } else if args.target == DELEGATE_TARGET_PLAYER_PROFILE {
        Ok(DelegatedAccount::PlayerProfile { player })
    } else if args.target == DELEGATE_TARGET_PLAYER_REWARDS {
        Ok(DelegatedAccount::PlayerRewards { player })
    } else if args.target == DELEGATE_TARGET_DUEL_ROOM {
        Ok(DelegatedAccount::DuelRoom { room_id: id })
    } else if args.target == DELEGATE_TARGET_RANKED_ROOM {
        Ok(DelegatedAccount::RankedRoom { player, challenge_hash: id })
    } else if args.target == DELEGATE_TARGET_REWARD_CLAIM {
        if !(args.mode == MATCH_MODE_DUEL || args.mode == MATCH_MODE_RANKED_SOLO) {
            return Err(GuessrError::InvalidMatchMode);
        }
        Ok(DelegatedAccount::RewardClaim { player, match_id: id, mode: args.mode })
    } else if args.target == DELEGATE_TARGET_LEADERBOARD {
        Ok(DelegatedAccount::Leaderboard)
    } else {
        Err(GuessrError::InvalidDelegationTarget)
    }
}

/// An account named by its address, with whether it may be written.
#[derive(Clone, Copy, Debug, PartialEq, Eq)]
pub struct AccountRef {
    pub key: Key32,
    pub is_writable: bool,
}

/// Whether the key of `rest[i]` was met before it: among the base accounts,
/// or among the writable accounts before it.
pub open spec fn seen_before(base: Seq<Key32>, rest: Seq<AccountRef>, i: int) -> bool {
    ||| base.contains(rest[i].key)
    ||| exists|j: int| 0 <= j < i && rest[j].is_writable && #[trigger] rest[j].key == rest[i].key
}

/// Whether `rest[i]` joins the commit: it is writable and its key is new.
pub open spec fn joins_commit(base: Seq<Key32>, rest: Seq<AccountRef>, i: int) -> bool {
    rest[i].is_writable && !seen_before(base, rest, i)
}

/// Whether `picked` lists, in increasing order, exactly the indices of
/// `0..n` that satisfy `pick`.
pub open spec fn lists_exactly(picked: Seq<usize>, n: int, pick: spec_fn(int) -> bool) -> bool {
    &&& forall|k: int| 0 <= k < picked.len() ==> 0 <= #[trigger] picked[k] < n && pick(
        picked[k] as int,
    )
    &&& forall|k1: int, k2: int|
        0 <= k1 < k2 < picked.len() ==> #[trigger] picked[k1] < #[trigger] picked[k2]
    &&& forall|i: int| 0 <= i < n && #[trigger] pick(i) ==> picked.contains(i as usize)
}

/// Whether `key` equals one of `keys`.
fn contains_key(keys: &Vec<Key32>, key: &Key32) -> (r: bool)
    ensures
        r == keys@.contains(*key),
{
    let mut i: usize = 0;
    while i < keys.len()
        invariant
            0 <= i <= keys@.len(),
            forall|j: int| 0 <= j < i ==> keys@[j] != *key,
        decreases keys@.len() - i,
    {
        if keys[i].same_as(key) {
            assert(keys@[i as int] == *key);
            return true;
        }
        i = i + 1;
    }
    false
}

/// The accounts that a state commit is offered: the lobby and the ranked
/// configuration, then the extra accounts in their order.
pub open spec fn guessr_commit_offer(
    lobby_state: Key32,
    ranked_config: Key32,
    remaining: Seq<AccountRef>,
) -> Seq<AccountRef> {
    seq![
        AccountRef { key: lobby_state, is_writable: true },
        AccountRef { key: ranked_config, is_writable: true },
    ] + remaining
}

/// Whether the offered account `i` is committed: the lobby and the ranked
/// configuration always are; an extra account is when it is writable and its
/// key was not met before.
pub open spec fn commits_offered(
    lobby_state: Key32,
    ranked_config: Key32,
    remaining: Seq<AccountRef>,
    i: int,
) -> bool {
    i < 2 || joins_commit(seq![lobby_state, ranked_config], remaining, i - 2)
}

/// Picks the accounts that a state commit carries, as indices into the
/// offered accounts (the lobby, the ranked configuration, then `remaining`):
/// the lobby and the ranked configuration, then the writable extra accounts
/// whose key was not met before, in their order.
pub fn commit_guessr_state_handler(
    lobby_state: Key32,
    ranked_config: Key32,
    remaining: &Vec<AccountRef>,
) -> (picked: Vec<usize>)
    requires
        remaining@.len() + 2 <= usize::MAX,
    ensures
        lists_exactly(
            picked@,
            remaining@.len() + 2int,
            |i: int| commits_offered(lobby_state, ranked_config, remaining@, i),
        ),
{
    let base = vec![lobby_state, ranked_config];
    let ghost b = seq![lobby_state, ranked_config];
    assert(base@ =~= b);
    let ghost pick = |i: int| commits_offered(lobby_state, ranked_config, remaining@, i);
    let mut picked: Vec<usize> = vec![0, 1];
    let mut i: usize = 0;
    while i < remaining.len()
        invariant
            0 <= i <= remaining@.len(),
            remaining@.len() + 2 <= usize::MAX,
            base@ == b,
            b == seq![lobby_state, ranked_config],
            pick == (|i: int| commits_offered(lobby_state, ranked_config, remaining@, i)),
            forall|k: int| 0 <= k < picked@.len() ==> 0 <= #[trigger] picked@[k] < i + 2 && pick(
                picked@[k] as int,
            ),
            forall|k1: int, k2: int|
                0 <= k1 < k2 < picked@.len() ==> #[trigger] picked@[k1] < #[trigger] picked@[k2],
            forall|m: int| 0 <= m < i + 2 && #[trigger] pick(m) ==> picked@.contains(m as usize),
        decreases remaining@.len() - i,
    {
        let account = remaining[i];
        let ghost prev = picked@;
        if account.is_writable {
            let mut duplicate = contains_key(&base, &account.key);
            let mut j: usize = 0;
            while j < i
                invariant
                    0 <= j <= i < remaining@.len(),
                    account == remaining@[i as int],
                    duplicate == (b.contains(account.key) || exists|m: int|
                        0 <= m < j && remaining@[m].is_writable && #[trigger] remaining@[m].key
                            == account.key),
                decreases i - j,
            {
                if remaining[j].is_writable && remaining[j].key.same_as(&account.key) {
                    duplicate = true;
                }
                j = j + 1;
            }
            if !duplicate {
                picked.push(i + 2);
                assert(picked@[picked@.len() - 1] == i + 2);
            }
        }
        proof {
            assert(pick(i + 2) == joins_commit(b, remaining@, i as int));
            assert forall|m: int| 0 <= m < i + 3 && #[trigger] pick(m) implies picked@.contains(
                m as usize,
            ) by {
                if m < i + 2 {
                    assert(prev.contains(m as usize));
                    let k = choose|k: int| 0 <= k < prev.len() && prev[k] == m as usize;
                    assert(picked@[k] == prev[k]);
                } else {
                    assert(picked@[picked@.len() - 1] == i + 2);
                }
            }
        }
        i = i + 1;
    }
    picked
}

/// Whether `keys[i]` is the first occurrence of its key.
pub open spec fn first_occurrence(keys: Seq<Key32>, i: int) -> bool {
    forall|j: int| 0 <= j < i ==> #[trigger] keys[j] != keys[i]
}

/// The indices of the first occurrence of each key, in order.
pub fn first_occurrences(keys: &Vec<Key32>) -> (picked: Vec<usize>)
    ensures
        lists_exactly(picked@, keys@.len() as int, |i: int| first_occurrence(keys@, i)),
{
    let ghost pick = |i: int| first_occurrence(keys@, i);
    let mut picked: Vec<usize> = Vec::new();
    let mut i: usize = 0;
    while i < keys.len()
        invariant
            0 <= i <= keys@.len(),
            pick == (|i: int| first_occurrence(keys@, i)),
            forall|k: int| 0 <= k < picked@.len() ==> 0 <= #[trigger] picked@[k] < i && pick(
                picked@[k] as int,
            ),
            forall|k1: int, k2: int|
                0 <= k1 < k2 < picked@.len() ==> #[trigger] picked@[k1] < #[trigger] picked@[k2],
            forall|m: int| 0 <= m < i && #[trigger] pick(m) ==> picked@.contains(m as usize),
        decreases keys@.len() - i,
    {
        let ghost prev = picked@;
        let mut duplicate = false;
        let mut j: usize = 0;
        while j < i
            invariant
                0 <= j <= i < keys@.len(),
                duplicate == exists|m: int| 0 <= m < j && #[trigger] keys@[m] == keys@[i as int],
            decreases i - j,
        {
            if keys[j].same_as(&keys[i]) {
                duplicate = true;
            }
            j = j + 1;
        }
        if !duplicate {
            picked.push(i);
        }
        proof {
            assert forall|m: int| 0 <= m < i + 1 && #[trigger] pick(m) implies picked@.contains(
                m as usize,
            ) by {
                if m < i {
                    assert(prev.contains(m as usize));
                    let k = choose|k: int| 0 <= k < prev.len() && prev[k] == m as usize;
                    assert(picked@[k] == prev[k]);
                } else {
                    assert(picked@[picked@.len() - 1] == i);
                }
            }
        }
        i = i + 1;
    }
    picked
}

/// The seed of the mint authority's address.
pub open spec fn mint_authority_seed() -> Seq<u8> {
    "mint-authority".spec_bytes()
}

/// The address of the program's mint authority, if one is found.
pub open spec fn mint_authority_of(program_id: Key32) -> Option<Seq<u8>> {
    program_address(seq![mint_authority_seed()], program_id@)
}

/// Derives the program's mint authority address, if one is found.
fn mint_authority_address(program_id: Key32) -> (r: Option<Key32>)
    ensures
        key_view(r) == mint_authority_of(program_id),
{
    let seed: Vec<u8> = "mint-authority".as_bytes_vec();
    proof {
        reveal_strlit("mint-authority");
        vstd::string::is_ascii_spec_bytes("mint-authority");
    }
    assert(seed@.len() == 14);
    assert(seed.deep_view() =~= seed@);
    let seeds: Vec<Vec<u8>> = vec![seed];
    assert(seeds@[0] == seed);
    assert(seeds.deep_view()[0] == seed.deep_view());
    assert(seeds.deep_view() =~= seq![mint_authority_seed()]);
    find_program_address(&seeds, program_id)
}

/// Derives the associated token account of a wallet for a mint, if one is
/// found.
fn associated_token_account(wallet: Key32, mint: Key32) -> (r: Option<Key32>)
    ensures
        key_view(r) == associated_token_address(wallet@, mint@),
{
    let token_program = token_program_key();
    let seeds = seeds3(key_seed(&wallet), key_seed(&token_program), key_seed(&mint));
    find_program_address(&seeds, associated_token_program_key())
}

/// The call that runs after a commit: the program to call, its accounts and
/// its compute budget.
#[derive(Debug, PartialEq, Eq)]
pub struct RewardAction {
    pub destination_program: Key32,
    pub accounts: Vec<AccountRef>,
    pub compute_units: u32,
}

/// A commit with a reward action: the action, and which of the offered
/// accounts are committed (indices of first occurrences).
#[derive(Debug, PartialEq, Eq)]
pub struct RewardCommit {
    pub action: RewardAction,
    pub committed: Vec<usize>,
}

/// Whether `a` names `key` with the given writability.
pub open spec fn names(a: AccountRef, key: Seq<u8>, is_writable: bool) -> bool {
    a.key@ == key && a.is_writable == is_writable
}

/// Prepares the commit of a ranked match with its reward action. The action
/// calls `program_id` with, in order: the ranked configuration and the ranked
/// room (read-only), the reward mint (writable), the mint authority
/// (read-only), the player's associated token account of the reward mint
/// (writable) and the token program (read-only). The accounts offered to the
/// commit are, in order, the lobby, the ranked configuration, the
/// leaderboard, the player's status, profile and reward stats, and the ranked
/// room; the committed ones are the first occurrences of their keys. When no
/// mint authority address or no token account address is found, the commit
/// is refused.
pub fn commit_ranked_with_reward_handler(
    program_id: Key32,
    lobby_state_key: Key32,
    ranked_config_key: Key32,
    ranked_config: &RankedConfig,
    leaderboard_key: Key32,
    player_status_key: Key32,
    player_profile_key: Key32,
    player_rewards_key: Key32,
    ranked_room_key: Key32,
    ranked_room: &RankedRoom,
) -> (r: Result<RewardCommit, GuessrError>)
    ensures
        mint_authority_of(program_id) is None || associated_token_address(
            ranked_room.player@,
            ranked_config.reward_mint@,
        ) is None ==> r == Err::<RewardCommit, GuessrError>(GuessrError::AddressNotFound),
        mint_authority_of(program_id) is Some && associated_token_address(
            ranked_room.player@,
            ranked_config.reward_mint@,
        ) is Some ==> r is Ok,
        r matches Ok(c) ==> c.action.destination_program == program_id
            && c.action.compute_units == REWARD_ACTION_COMPUTE_UNITS
            && c.action.accounts@.len() == 6
            && names(c.action.accounts@[0], ranked_config_key@, false)
            && names(c.action.accounts@[1], ranked_room_key@, false)
            && names(c.action.accounts@[2], ranked_config.reward_mint@, true)
            && names(c.action.accounts@[3], mint_authority_of(program_id)->0, false)
            && names(
            c.action.accounts@[4],
            associated_token_address(ranked_room.player@, ranked_config.reward_mint@)->0,
            true,
        ) && names(c.action.accounts@[5], token_program_address(), false) && lists_exactly(
            c.committed@,
            7,
            |i: int|
                first_occurrence(
                    ranked_commit_offer(
                        lobby_state_key,
                        ranked_config_key,
                        leaderboard_key,
                        player_status_key,
                        player_profile_key,
                        player_rewards_key,
                        ranked_room_key,
                    ),
                    i,
                ),
        ),
{
    let reward_mint = ranked_config.reward_mint;
    let player_token_account = match associated_token_account(ranked_room.player, reward_mint) {
        Some(a) => a,
        None => return Err(GuessrError::AddressNotFound),
    };
    let mint_authority = match mint_authority_address(program_id) {
        Some(a) => a,
        None => return Err(GuessrError::AddressNotFound),
    };
    let accounts = vec![
        AccountRef { key: ranked_config_key, is_writable: false },
        AccountRef { key: ranked_room_key, is_writable: false },
        AccountRef { key: reward_mint, is_writable: true },
        AccountRef { key: mint_authority, is_writable: false },
        AccountRef { key: player_token_account, is_writable: true },
        AccountRef { key: token_program_key(), is_writable: false },
    ];
    let offered = vec![
        lobby_state_key,
        ranked_config_key,
        leaderboard_key,
        player_status_key,
        player_profile_key,
        player_rewards_key,
        ranked_room_key,
    ];
    assert(offered@ =~= ranked_commit_offer(
        lobby_state_key,
        ranked_config_key,
        leaderboard_key,
        player_status_key,
        player_profile_key,
        player_rewards_key,
        ranked_room_key,
    ));
    let committed = first_occurrences(&offered);
    Ok(
        RewardCommit {
            action: RewardAction {
                destination_program: program_id,
                accounts,
                compute_units: REWARD_ACTION_COMPUTE_UNITS,
            },
            committed,
        },
    )
}

/// The accounts offered to the commit of a ranked match, in order.
pub open spec fn ranked_commit_offer(
    lobby_state: Key32,
    ranked_config: Key32,
    leaderboard: Key32,
    player_status: Key32,
    player_profile: Key32,
    player_rewards: Key32,
    ranked_room: Key32,
) -> Seq<Key32> {
    seq![
        lobby_state,
        ranked_config,
        leaderboard,
        player_status,
        player_profile,
        player_rewards,
        ranked_room,
    ]
}

/// The accounts offered to the commit of a duel, in order.
pub open spec fn duel_commit_offer(
    lobby_state: Key32,
    ranked_config: Key32,
    leaderboard: Key32,
    player_status: Key32,
    duel_room: Key32,
    host_profile: Key32,
    challenger_profile: Key32,
    host_rewards: Key32,
    challenger_rewards: Key32,
) -> Seq<Key32> {
    seq![
        lobby_state,
        ranked_config,
        leaderboard,
        player_status,
        duel_room,
        host_profile,
        challenger_profile,
        host_rewards,
        challenger_rewards,
    ]
}

/// Prepares the commit of a duel with its reward action. The action calls
/// `program_id` with, in order: the ranked configuration and the duel room
/// (read-only), the reward mint (writable), the mint authority (read-only),
/// the host's and the challenger's associated token accounts of the reward
/// mint (writable) and the token program (read-only). The accounts offered
/// to the commit are, in order, the lobby, the ranked configuration, the
/// leaderboard, the player's status, the duel room, the host's and the
/// challenger's profiles, and the host's and the challenger's reward stats;
/// the committed ones are the first occurrences of their keys. When no mint
/// authority address or no token account address is found, the commit is
/// refused.
pub fn commit_duel_with_rewards_handler(
    program_id: Key32,
    lobby_state_key: Key32,
    ranked_config_key: Key32,
    ranked_config: &RankedConfig,
    leaderboard_key: Key32,
    player_status_key: Key32,
    duel_room_key: Key32,
    duel_room: &DuelRoom,
    host_profile_key: Key32,
    challenger_profile_key: Key32,
    host_rewards_key: Key32,
    challenger_rewards_key: Key32,
) -> (r: Result<RewardCommit, GuessrError>)
    ensures
        mint_authority_of(program_id) is None || associated_token_address(
            duel_room.host@,
            ranked_config.reward_mint@,
        ) is None || associated_token_address(duel_room.challenger@, ranked_config.reward_mint@)
            is None ==> r == Err::<RewardCommit, GuessrError>(GuessrError::AddressNotFound),
        mint_authority_of(program_id) is Some && associated_token_address(
            duel_room.host@,
            ranked_config.reward_mint@,
        ) is Some && associated_token_address(duel_room.challenger@, ranked_config.reward_mint@)
            is Some ==> r is Ok,
        r matches Ok(c) ==> c.action.destination_program == program_id
            && c.action.compute_units == REWARD_ACTION_COMPUTE_UNITS
            && c.action.accounts@.len() == 7
            && names(c.action.accounts@[0], ranked_config_key@, false)
            && names(c.action.accounts@[1], duel_room_key@, false)
            && names(c.action.accounts@[2], ranked_config.reward_mint@, true)
            && names(c.action.accounts@[3], mint_authority_of(program_id)->0, false)
            && names(
            c.action.accounts@[4],
            associated_token_address(duel_room.host@, ranked_config.reward_mint@)->0,
            true,
        ) && names(
            c.action.accounts@[5],
            associated_token_address(duel_room.challenger@, ranked_config.reward_mint@)->0,
            true,
        ) && names(c.action.accounts@[6], token_program_address(), false) && lists_exactly(
            c.committed@,
            9,
            |i: int|
                first_occurrence(
                    duel_commit_offer(
                        lobby_state_key,
                        ranked_config_key,
                        leaderboard_key,
                        player_status_key,
                        duel_room_key,
                        host_profile_key,
                        challenger_profile_key,
                        host_rewards_key,
                        challenger_rewards_key,
                    ),
                    i,
                ),
        ),
{
    let reward_mint = ranked_config.reward_mint;
    let host_token_account = match associated_token_account(duel_room.host, reward_mint) {
        Some(a) => a,
        None => return Err(GuessrError::AddressNotFound),
    };
    let challenger_token_account = match associated_token_account(
        duel_room.challenger,
        reward_mint,
    ) {
        Some(a) => a,
        None => return Err(GuessrError::AddressNotFound),
    };
    let mint_authority = match mint_authority_address(program_id) {
        Some(a) => a,
        None => return Err(GuessrError::AddressNotFound),
    };
    let accounts = vec![
        AccountRef { key: ranked_config_key, is_writable: false },
        AccountRef { key: duel_room_key, is_writable: false },
        AccountRef { key: reward_mint, is_writable: true },
        AccountRef { key: mint_authority, is_writable: false },
        AccountRef { key: host_token_account, is_writable: true },
        AccountRef { key: challenger_token_account, is_writable: true },
        AccountRef { key: token_program_key(), is_writable: false },
    ];
    let offered = vec![
        lobby_state_key,
        ranked_config_key,
        leaderboard_key,
        player_status_key,
        duel_room_key,
        host_profile_key,
        challenger_profile_key,
        host_rewards_key,
        challenger_rewards_key,
    ];
    assert(offered@ =~= duel_commit_offer(
        lobby_state_key,
        ranked_config_key,
        leaderboard_key,
        player_status_key,
        duel_room_key,
        host_profile_key,
        challenger_profile_key,
        host_rewards_key,
        challenger_rewards_key,
    ));
    let committed = first_occurrences(&offered);
    Ok(
        RewardCommit {
            action: RewardAction {
                destination_program: program_id,
                accounts,
                compute_units: REWARD_ACTION_COMPUTE_UNITS,
            },
            committed,
        },
    )
}

} // verus!
