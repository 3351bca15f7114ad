//! Leaderboards: top lists of experience, win rate, net earnings and rewards.
use vstd::prelude::*;

use crate::state::{
    empty_entry, LeaderboardEntry, LeaderboardState, PlayerProfile, PlayerRewardStats,
    LEADERBOARD_ENTRIES,
};
use crate::types::{zero_key, Key32};

verus! {

/// The entries of `list` that belong to players other than `player`, in
/// their order.
pub open spec fn others(list: Seq<LeaderboardEntry>, player: Key32) -> Seq<LeaderboardEntry>
    decreases list.len(),
{
    if list.len() == 0 {
        Seq::empty()
    } else {
        let rest = others(list.drop_last(), player);
        if list.last().player == player {
            rest
        } else {
            rest.push(list.last())
        }
    }
}

/// The list with `player`'s slots taken out: the other entries move up in
/// their order and the freed slots are emptied at the end.
pub open spec fn compacted(list: Seq<LeaderboardEntry>, player: Key32) -> Seq<LeaderboardEntry> {
    let kept = others(list, player);
    kept + Seq::new((list.len() - kept.len()) as nat, |_i: int| empty_entry())
}

/// The entries of other players are no more than the list holds, and each is
/// a slot of the list that `player` does not hold.
pub proof fn lemma_others_from(list: Seq<LeaderboardEntry>, player: Key32)
    ensures
        others(list, player).len() <= list.len(),
        forall|k: int|
            0 <= k < others(list, player).len() ==> (#[trigger] others(list, player)[k]).player
                != player && exists|i: int|
                0 <= i < list.len() && others(list, player)[k] == #[trigger] list[i],
    decreases list.len(),
{
    if list.len() > 0 {
        let d = list.drop_last();
        lemma_others_from(d, player);
        let o = others(list, player);
        let od = others(d, player);
        assert forall|k: int| 0 <= k < o.len() implies (#[trigger] o[k]).player != player
            && exists|i: int| 0 <= i < list.len() && o[k] == #[trigger] list[i] by {
            if k < od.len() {
                assert(o[k] == od[k]);
                let i = choose|i: int| 0 <= i < d.len() && od[k] == #[trigger] d[i];
                assert(d[i] == list[i]);
            } else {
                assert(o[k] == list[list.len() - 1]);
            }
        }
    }
}

/// The list with `player`'s slots taken out keeps its length and holds no
/// slot of a nonzero `player`.
pub proof fn lemma_compacted(list: Seq<LeaderboardEntry>, player: Key32)
    ensures
        compacted(list, player).len() == list.len(),
        player != zero_key() ==> forall|k: int|
            0 <= k < list.len() ==> #[trigger] compacted(list, player)[k].player != player,
{
    lemma_others_from(list, player);
    let kept = others(list, player);
    let c = compacted(list, player);
    assert forall|k: int| 0 <= k < list.len() && player != zero_key() implies #[trigger] c[k].player
        != player by {
        if k < kept.len() {
            assert(c[k] == kept[k]);
        } else {
            assert(c[k] == empty_entry());
        }
    }
}

/// Whether a slot takes a new value: it is empty, or holds at most `value`.
pub open spec fn admits(e: LeaderboardEntry, value: u64) -> bool {
    e.player == zero_key() || value >= e.value
}

/// Whether `i` is the first slot of `list` that takes `value`.
pub open spec fn is_first_slot(list: Seq<LeaderboardEntry>, value: u64, i: int) -> bool {
    &&& 0 <= i < list.len()
    &&& admits(list[i], value)
    &&& forall|j: int| 0 <= j < i ==> !admits(#[trigger] list[j], value)
}

/// Whether some slot of `list` takes `value`.
pub open spec fn has_slot(list: Seq<LeaderboardEntry>, value: u64) -> bool {
    exists|i: int| 0 <= i < list.len() && admits(#[trigger] list[i], value)
}

/// The first slot of `list` that takes `value`.
pub open spec fn first_slot(list: Seq<LeaderboardEntry>, value: u64) -> int {
    choose|i: int| is_first_slot(list, value, i)
}

/// A list with a slot that takes `value` has a first such slot.
pub proof fn lemma_first_slot_exists(list: Seq<LeaderboardEntry>, value: u64, n: int)
    requires
        0 <= n <= list.len(),
        exists|i: int| 0 <= i < n && admits(#[trigger] list[i], value),
    ensures
        is_first_slot(list, value, first_slot(list, value)),
    decreases n,
{
    if exists|i: int| 0 <= i < n - 1 && admits(#[trigger] list[i], value) {
        lemma_first_slot_exists(list, value, n - 1);
    } else {
        assert(is_first_slot(list, value, n - 1));
    }
}

/// `entry` put at `idx`, the entries from `idx` on moved one slot down and
/// the last one dropped.
pub open spec fn inserted(
    list: Seq<LeaderboardEntry>,
    idx: int,
    entry: LeaderboardEntry,
) -> Seq<LeaderboardEntry> {
    list.take(idx) + seq![entry] + list.subrange(idx, list.len() - 1)
}

/// A list after `player` reports `value`: the player's old slots are taken
/// out and the entries below move up, and a nonzero value goes into the first
/// slot that is empty or holds no more than it, pushing the rest down by one
/// and dropping the last. When no slot takes the value, or the value is zero,
/// the player is only taken out.
pub open spec fn list_after_update(
    list: Seq<LeaderboardEntry>,
    player: Key32,
    value: u64,
) -> Seq<LeaderboardEntry> {
    let c = compacted(list, player);
    if value == 0 || !has_slot(c, value) {
        c
    } else {
        inserted(c, first_slot(c, value), LeaderboardEntry { player: player, value: value })
    }
}

/// Records `value` for `player` in one leaderboard list.
pub fn update_list(
    list: &mut [LeaderboardEntry; LEADERBOARD_ENTRIES],
    player: Key32,
    value: u64,
)
    ensures
        final(list)@ == list_after_update(old(list)@, player, value),
{
    let ghost old_list = old(list)@;
    let ghost c = compacted(old_list, player);
    let mut w: usize = 0;
    let mut i: usize = 0;
    while i < LEADERBOARD_ENTRIES
        invariant
            0 <= w <= i <= LEADERBOARD_ENTRIES,
            old_list.len() == LEADERBOARD_ENTRIES,
            list@.len() == LEADERBOARD_ENTRIES,
            w == others(old_list.take(i as int), player).len(),
            forall|k: int| 0 <= k < w ==> list@[k] == others(old_list.take(i as int), player)[k],
            forall|k: int| i <= k < LEADERBOARD_ENTRIES ==> list@[k] == old_list[k],
        decreases LEADERBOARD_ENTRIES - i,
    {
        let e = list[i];
        proof {
            let t = old_list.take(i as int + 1);
            assert(t.drop_last() =~= old_list.take(i as int));
            assert(t.last() == e);
            lemma_others_from(old_list.take(i as int), player);
        }
        if !e.player.same_as(&player) {
            list[w] = e;
            w = w + 1;
        }
        i = i + 1;
    }
    assert(old_list.take(LEADERBOARD_ENTRIES as int) =~= old_list);
    let ghost kept = others(old_list, player);
    while w < LEADERBOARD_ENTRIES
        invariant
            kept == others(old_list, player),
            kept.len() <= w <= LEADERBOARD_ENTRIES,
            list@.len() == LEADERBOARD_ENTRIES,
            old_list.len() == LEADERBOARD_ENTRIES,
            c == compacted(old_list, player),
            forall|k: int| 0 <= k < kept.len() ==> list@[k] == kept[k],
            forall|k: int| kept.len() <= k < w ==> list@[k] == empty_entry(),
        decreases LEADERBOARD_ENTRIES - w,
    {
        list[w] = LeaderboardEntry::empty();
        w = w + 1;
    }
    assert(list@ =~= c);

    if value == 0 {
        return;
    }

    let mut found = false;
    let mut idx: usize = 0;
    let mut j: usize = 0;
    while j < LEADERBOARD_ENTRIES
        invariant_except_break
            0 <= j <= LEADERBOARD_ENTRIES,
            !found,
            list@ == c,
            list@.len() == LEADERBOARD_ENTRIES,
            forall|k: int| 0 <= k < j ==> !admits(#[trigger] c[k], value),
        ensures
            list@ == c,
            list@.len() == LEADERBOARD_ENTRIES,
            found ==> is_first_slot(c, value, idx as int),
            !found ==> forall|k: int| 0 <= k < LEADERBOARD_ENTRIES ==> !admits(#[trigger] c[k], value),
        decreases LEADERBOARD_ENTRIES - j,
    {
        if list[j].player.is_zero() || value >= list[j].value {
            found = true;
            idx = j;
            break;
        }
        j = j + 1;
    }
    if !found {
        assert(!has_slot(c, value));
        return;
    }
    proof {
        assert(has_slot(c, value));
        let f = first_slot(c, value);
        assert(is_first_slot(c, value, f));
        assert(f == idx as int) by {
            if f < idx as int {
                assert(!admits(c[f], value));
            } else if f > idx as int {
                assert(!admits(c[idx as int], value));
            }
        }
    }

    let mut k: usize = LEADERBOARD_ENTRIES - 1;
    while k > idx
        invariant
            idx < LEADERBOARD_ENTRIES,
            idx <= k < LEADERBOARD_ENTRIES,
            list@.len() == LEADERBOARD_ENTRIES,
            forall|m: int| 0 <= m <= k ==> list@[m] == c[m],
            forall|m: int| k < m < LEADERBOARD_ENTRIES ==> list@[m] == c[m - 1],
        decreases k,
    {
        list[k] = list[k - 1];
        k = k - 1;
    }
    list[idx] = LeaderboardEntry { player: player, value: value };
    assert(list@ =~= inserted(c, idx as int, LeaderboardEntry { player: player, value: value }));
}

/// Wins over decided matches, in basis points; zero before any decided match.
pub open spec fn winrate_bps(profile: PlayerProfile) -> int {
    let wins = profile.duel_wins + profile.ranked_wins;
    let losses = profile.duel_losses + profile.ranked_losses;
    if wins + losses == 0 {
        0
    } else {
        (wins * 10_000) / (wins + losses)
    }
}

/// The win rate of a profile in basis points.
pub fn compute_winrate_bps(profile: &PlayerProfile) -> (r: u64)
    ensures
        r == winrate_bps(*profile),
        r <= 10_000,
{
    let wins: u64 = profile.duel_wins as u64 + profile.ranked_wins as u64;
    let losses: u64 = profile.duel_losses as u64 + profile.ranked_losses as u64;
    let total: u64 = wins + losses;
    if total == 0 {
        return 0;
    }
    assert(wins * 10_000 <= 0x2_0000_0000 * 10_000) by (nonlinear_arith)
        requires
            wins <= 0x2_0000_0000,
    ;
    let scaled: u64 = wins * 10_000;
    let r = scaled / total;
    proof {
        assert(wins * 10_000 <= total * 10_000) by (nonlinear_arith)
            requires
                wins <= total,
        ;
        vstd::arithmetic::div_mod::lemma_div_is_ordered(
            wins * 10_000,
            total * 10_000,
            total as int,
        );
        vstd::arithmetic::div_mod::lemma_div_multiples_vanish(10_000, total as int);
        assert(total * 10_000 == total as int * 10_000);
    }
    r
}

/// The positive part of the net earnings.
pub open spec fn positive_earnings(profile: PlayerProfile) -> u64 {
    if profile.net_earnings > 0 {
        profile.net_earnings as u64
    } else {
        0
    }
}

/// Whether `after` is `before` with the player of `profile` recorded in the
/// four lists at time `now_ts`.
pub open spec fn leaderboards_updated(
    before: LeaderboardState,
    after: LeaderboardState,
    profile: PlayerProfile,
    reward_stats: PlayerRewardStats,
    now_ts: i64,
) -> bool {
    &&& after.last_update_ts == now_ts
    &&& after.bump == before.bump
    &&& after.xp@ == list_after_update(before.xp@, profile.player, profile.total_xp)
    &&& after.winrate@ == list_after_update(
        before.winrate@,
        profile.player,
        winrate_bps(profile) as u64,
    )
    &&& after.net_earnings@ == list_after_update(
        before.net_earnings@,
        profile.player,
        positive_earnings(profile),
    )
    &&& after.reward_earned@ == list_after_update(
        before.reward_earned@,
        profile.player,
        reward_stats.total_earned,
    )
}

/// Records the player of `profile` in the four leaderboards: experience, win
/// rate, positive net earnings, and lifetime rewards.
pub fn update_leaderboards(
    leaderboard: &mut LeaderboardState,
    profile: &PlayerProfile,
    reward_stats: &PlayerRewardStats,
    now_ts: i64,
)
    ensures
        leaderboards_updated(*old(leaderboard), *final(leaderboard), *profile, *reward_stats, now_ts),
{
    leaderboard.last_update_ts = now_ts;
    update_list(&mut leaderboard.xp, profile.player, profile.total_xp);
    let winrate = compute_winrate_bps(profile);
    update_list(&mut leaderboard.winrate, profile.player, winrate);
    let earnings: u64 = if profile.net_earnings > 0 {
        profile.net_earnings as u64
    } else {
        0
    };
    update_list(&mut leaderboard.net_earnings, profile.player, earnings);
    update_list(&mut leaderboard.reward_earned, profile.player, reward_stats.total_earned);
}

} // verus!
