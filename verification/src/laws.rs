//! Properties that hold across the operations of the game.
use vstd::prelude::*;

use crate::duel::{duel_xp, settle_duel_check};
use crate::er::{
    commits_offered, first_occurrence, guessr_commit_offer, joins_commit, lists_exactly,
    seen_before, AccountRef,
};
use crate::leaderboard::{
    admits, compacted, first_slot, has_slot, inserted, is_first_slot, lemma_compacted,
    lemma_first_slot_exists, lemma_others_from, list_after_update, others,
};
use crate::lobby::{count_follows_flag, heartbeat_result};
use crate::pool::pool_after_push;
use crate::profile::{
    profile_after, result_fits, rewards_after, ProfileMatchMode, ProfileOutcome,
};
use crate::ranked::{action_reward, ranked_settle_check, ranked_update_check, ranked_xp};
use crate::reward::claim_outcome;
use crate::room::{enter_room_result, room_after_enter};
use crate::player_state::{duel_penalty_paid, room_after_duel_update, update_duel_check};
use crate::state::{
    PlayerRewardStats,
    empty_entry, DuelRoom, LeaderboardEntry, LobbyState, PlayerProfile, PlayerStatus, RankedConfig,
    RankedRoom, RewardClaim, RoomPool, RoomPoolEntry, ROOM_POOL_MAX_ENTRIES,
};
use crate::types::{
    flag, zero_key, GuessrError, Key32, TokenAccountData, ACTION_GUESS_SUBMIT, ACTION_MARK_MOVE,
};

verus! {

// ----- Lobby presence -----

/// The number of statuses that are online.
pub open spec fn online_count(statuses: Seq<PlayerStatus>) -> int
    decreases statuses.len(),
{
    if statuses.len() == 0 {
        0
    } else {
        online_count(statuses.drop_last()) + flag(statuses.last().is_online)
    }
}

/// Replacing one status moves the online count by the change of its flag.
pub proof fn lemma_online_count_update(statuses: Seq<PlayerStatus>, i: int, status: PlayerStatus)
    requires
        0 <= i < statuses.len(),
    ensures
        online_count(statuses.update(i, status)) == online_count(statuses) - flag(
            statuses[i].is_online,
        ) + flag(status.is_online),
    decreases statuses.len(),
{
    let s2 = statuses.update(i, status);
    if i == statuses.len() - 1 {
        assert(s2.drop_last() =~= statuses.drop_last());
    } else {
        assert(s2.drop_last() =~= statuses.drop_last().update(i, status));
        lemma_online_count_update(statuses.drop_last(), i, status);
    }
}

/// The lobby's count of online players stays equal to the number of online
/// players in the lobby: if it was equal before, it is equal after any lobby
/// operation on one player (join, heartbeat, leave, prune), whatever the
/// operation returned.
pub proof fn online_count_matches_lobby(
    statuses: Seq<PlayerStatus>,
    i: int,
    old_lobby: LobbyState,
    new_lobby: LobbyState,
    new_status: PlayerStatus,
)
    requires
        0 <= i < statuses.len(),
        old_lobby.online_players == online_count(statuses),
        count_follows_flag(old_lobby, new_lobby, statuses[i], new_status),
    ensures
        new_lobby.online_players == online_count(statuses.update(i, new_status)),
{
    lemma_online_count_update(statuses, i, new_status);
}

/// A player whose heartbeat expired is offline and must join again: a
/// second heartbeat is refused as offline.
pub proof fn expired_player_must_rejoin(lobby: LobbyState, status: PlayerStatus, now: i64)
    requires
        !status.is_online,
    ensures
        heartbeat_result(lobby, status, now) == Err::<(), GuessrError>(GuessrError::PlayerOffline),
{
}

// ----- Leaderboards -----

/// Whether slot `a` keeps a different player from a later slot `b`, unless
/// `a` is empty.
pub open spec fn distinct_players(a: LeaderboardEntry, b: LeaderboardEntry) -> bool {
    a.player != zero_key() ==> a.player != b.player
}

/// No player other than the empty marker holds two slots of a list.
pub open spec fn unique_players(list: Seq<LeaderboardEntry>) -> bool {
    forall|i: int, j: int| 0 <= i < j < list.len() ==> #[trigger] distinct_players(list[i], list[j])
}

/// Whether slot `a` may stand above a later slot `b` of a ranked list: after
/// an empty slot come only empty slots, values never rise, and no player
/// comes twice.
pub open spec fn ranks_above(a: LeaderboardEntry, b: LeaderboardEntry) -> bool {
    &&& a.player == zero_key() ==> b == empty_entry()
    &&& b.player != zero_key() ==> a.value >= b.value
    &&& distinct_players(a, b)
}

/// A ranked top list: the players' entries come first, ordered by value from
/// the highest down, each player at most once, and the rest are empty slots.
pub open spec fn ranked_list(list: Seq<LeaderboardEntry>) -> bool {
    &&& forall|i: int|
        0 <= i < list.len() && (#[trigger] list[i]).player == zero_key() ==> list[i]
            == empty_entry()
    &&& forall|i: int, j: int| 0 <= i < j < list.len() ==> #[trigger] ranks_above(list[i], list[j])
}

/// Taking a player's entries out keeps every relation that held between a
/// slot and each later slot.
pub proof fn lemma_others_keep(
    list: Seq<LeaderboardEntry>,
    player: Key32,
    r: spec_fn(LeaderboardEntry, LeaderboardEntry) -> bool,
)
    requires
        forall|i: int, j: int| 0 <= i < j < list.len() ==> #[trigger] r(list[i], list[j]),
    ensures
        forall|i: int, j: int|
            0 <= i < j < others(list, player).len() ==> #[trigger] r(
                others(list, player)[i],
                others(list, player)[j],
            ),
    decreases list.len(),
{
    if list.len() > 0 {
        let d = list.drop_last();
        assert forall|i: int, j: int| 0 <= i < j < d.len() implies #[trigger] r(d[i], d[j]) by {
            assert(d[i] == list[i] && d[j] == list[j]);
            assert(r(list[i], list[j]));
        }
        lemma_others_keep(d, player, r);
        lemma_others_from(d, player);
        let o = others(list, player);
        let od = others(d, player);
        let n = list.len() - 1;
        assert forall|i: int, j: int| 0 <= i < j < o.len() implies #[trigger] r(o[i], o[j]) by {
            if j < od.len() {
                assert(o[i] == od[i] && o[j] == od[j]);
                assert(r(od[i], od[j]));
            } else {
                assert(o[j] == list[n]);
                assert(o[i] == od[i]);
                let m = choose|m: int| 0 <= m < d.len() && od[i] == #[trigger] d[m];
                assert(d[m] == list[m]);
                assert(r(list[m], list[n]));
            }
        }
    }
}

/// Taking a player's entries out of a list keeps every relation that held
/// between a slot and each later slot, when the relation also holds between
/// any slot and an empty slot.
pub proof fn lemma_compacted_keep(
    list: Seq<LeaderboardEntry>,
    player: Key32,
    r: spec_fn(LeaderboardEntry, LeaderboardEntry) -> bool,
)
    requires
        forall|i: int, j: int| 0 <= i < j < list.len() ==> #[trigger] r(list[i], list[j]),
        forall|a: LeaderboardEntry| #[trigger] r(a, empty_entry()),
    ensures
        forall|i: int, j: int|
            0 <= i < j < compacted(list, player).len() ==> #[trigger] r(
                compacted(list, player)[i],
                compacted(list, player)[j],
            ),
{
    lemma_others_keep(list, player, r);
    lemma_compacted(list, player);
    let kept = others(list, player);
    let c = compacted(list, player);
    assert forall|i: int, j: int| 0 <= i < j < c.len() implies #[trigger] r(c[i], c[j]) by {
        if j < kept.len() {
            assert(c[i] == kept[i] && c[j] == kept[j]);
            assert(r(kept[i], kept[j]));
        } else {
            assert(c[j] == empty_entry());
            assert(r(c[i], empty_entry()));
        }
    }
}

/// Slot `k` of `inserted(c, idx, e)`.
proof fn lemma_inserted_at(
    c: Seq<LeaderboardEntry>,
    idx: int,
    e: LeaderboardEntry,
)
    requires
        0 <= idx < c.len(),
    ensures
        inserted(c, idx, e).len() == c.len(),
        forall|k: int|
            0 <= k < c.len() ==> #[trigger] inserted(c, idx, e)[k] == (if k < idx {
                c[k]
            } else if k == idx {
                e
            } else {
                c[k - 1]
            }),
{
}

/// Recording a value for a player keeps every nonzero player in at most one
/// slot of the list, and keeps the list's length.
pub proof fn update_list_keeps_players_unique(
    list: Seq<LeaderboardEntry>,
    player: Key32,
    value: u64,
)
    requires
        unique_players(list),
    ensures
        list_after_update(list, player, value).len() == list.len(),
        unique_players(list_after_update(list, player, value)),
{
    lemma_compacted(list, player);
    lemma_others_from(list, player);
    let rel = |a: LeaderboardEntry, b: LeaderboardEntry| distinct_players(a, b);
    assert forall|i: int, j: int| 0 <= i < j < list.len() implies #[trigger] rel(list[i], list[j]) by {
        assert(distinct_players(list[i], list[j]));
    }
    lemma_compacted_keep(list, player, rel);
    let c = compacted(list, player);
    let kept = others(list, player);
    assert forall|i: int, j: int| 0 <= i < j < c.len() implies #[trigger] distinct_players(c[i], c[j]) by {
        assert(rel(c[i], c[j]));
    }
    if !(value == 0 || !has_slot(c, value)) {
        lemma_first_slot_exists(c, value, c.len() as int);
        let idx = first_slot(c, value);
        let e = LeaderboardEntry { player: player, value: value };
        let r = inserted(c, idx, e);
        lemma_inserted_at(c, idx, e);
        assert forall|k: int| 0 <= k < c.len() implies (#[trigger] c[k]).player != player || player == zero_key() by {
            if k < kept.len() {
                assert(c[k] == kept[k]);
            } else {
                assert(c[k] == empty_entry());
            }
        }
        assert forall|i: int, j: int| 0 <= i < j < r.len() implies #[trigger] distinct_players(r[i], r[j]) by {
            let ci = if i < idx {
                i
            } else {
                i - 1
            };
            let cj = if j < idx {
                j
            } else {
                j - 1
            };
            if i == idx {
                assert(r[j] == c[cj]);
                assert(c[cj].player != player || player == zero_key());
            } else if j == idx {
                assert(r[i] == c[ci]);
                assert(c[ci].player != player || player == zero_key());
            } else {
                assert(r[i] == c[ci]);
                assert(r[j] == c[cj]);
                assert(distinct_players(c[ci], c[cj]));
            }
        }
    }
}

/// A ranked top list stays a ranked top list when a player records a value:
/// the player's old entry is taken out, the entries below move up, and a
/// nonzero value is placed before the first entry that it reaches, dropping
/// the last entry when the list is full. The all-zero key marks an empty
/// slot, so a nonzero value recorded for it would be an empty slot holding a
/// value; for that key only a zero value keeps the list ranked.
pub proof fn update_list_keeps_list_ranked(list: Seq<LeaderboardEntry>, player: Key32, value: u64)
    requires
        ranked_list(list),
        player != zero_key() || value == 0,
    ensures
        list_after_update(list, player, value).len() == list.len(),
        ranked_list(list_after_update(list, player, value)),
{
    lemma_compacted(list, player);
    lemma_others_from(list, player);
    let rel = |a: LeaderboardEntry, b: LeaderboardEntry| ranks_above(a, b);
    assert forall|i: int, j: int| 0 <= i < j < list.len() implies #[trigger] rel(list[i], list[j]) by {
        assert(ranks_above(list[i], list[j]));
    }
    lemma_compacted_keep(list, player, rel);
    let c = compacted(list, player);
    let kept = others(list, player);
    assert forall|i: int, j: int| 0 <= i < j < c.len() implies #[trigger] ranks_above(c[i], c[j]) by {
        assert(rel(c[i], c[j]));
    }
    assert forall|k: int| 0 <= k < c.len() implies (player != zero_key() ==> (#[trigger] c[k]).player != player) && ((c[k]).player == zero_key() ==> c[k] == empty_entry()) by {
        if k < kept.len() {
            assert(c[k] == kept[k]);
            let m = choose|m: int| 0 <= m < list.len() && kept[k] == #[trigger] list[m];
            assert(list[m].player == zero_key() ==> list[m] == empty_entry());
        } else {
            assert(c[k] == empty_entry());
        }
    }
    assert(ranked_list(c));
    if !(value == 0 || !has_slot(c, value)) {
        lemma_first_slot_exists(c, value, c.len() as int);
        let idx = first_slot(c, value);
        let e = LeaderboardEntry { player: player, value: value };
        let r = inserted(c, idx, e);
        lemma_inserted_at(c, idx, e);
        assert(admits(c[idx], value));
        assert forall|i: int, j: int| 0 <= i < j < r.len() implies #[trigger] ranks_above(r[i], r[j]) by {
            let ci = if i < idx {
                i
            } else {
                i - 1
            };
            let cj = if j < idx {
                j
            } else {
                j - 1
            };
            if i == idx {
                assert(r[j] == c[cj]);
                assert(c[cj].player != player);
                if cj > idx {
                    assert(ranks_above(c[idx], c[cj]));
                }
            } else if j == idx {
                assert(r[i] == c[ci]);
                assert(!admits(c[ci], value));
                assert(c[ci].player != player);
            } else {
                assert(r[i] == c[ci]);
                assert(r[j] == c[cj]);
                assert(ranks_above(c[ci], c[cj]));
            }
        }
        assert forall|k: int| 0 <= k < r.len() && (#[trigger] r[k]).player == zero_key() implies r[k]
            == empty_entry() by {
            if k < idx {
                assert(r[k] == c[k]);
            } else if k > idx {
                assert(r[k] == c[k - 1]);
            }
        }
    }
}

/// The length of the leading run of entries of `s` whose value is above
/// `value`: in a list ordered from the highest value down, the number of
/// entries above it.
pub open spec fn higher_run(s: Seq<LeaderboardEntry>, value: u64) -> nat
    decreases s.len(),
{
    if s.len() == 0 {
        0
    } else if s[0].value > value {
        1 + higher_run(s.skip(1), value)
    } else {
        0
    }
}

/// `e` merged into entries ordered from the highest value down: after every
/// entry above it, before the first entry that it reaches.
pub open spec fn merged(s: Seq<LeaderboardEntry>, e: LeaderboardEntry) -> Seq<LeaderboardEntry> {
    let p = higher_run(s, e.value) as int;
    s.take(p) + seq![e] + s.skip(p)
}

/// The first `n` entries of `s`, padded with empty slots.
pub open spec fn top(s: Seq<LeaderboardEntry>, n: nat) -> Seq<LeaderboardEntry> {
    (s + Seq::new(n, |_i: int| empty_entry())).take(n as int)
}

/// The entries of `list` that players hold, `player` excepted, in order.
pub open spec fn held_by_others(list: Seq<LeaderboardEntry>, player: Key32) -> Seq<
    LeaderboardEntry,
> {
    others(others(list, player), zero_key())
}

/// The leading run of higher values ends at the first entry that `value`
/// reaches, or at the end.
proof fn lemma_higher_run(s: Seq<LeaderboardEntry>, value: u64)
    ensures
        higher_run(s, value) <= s.len(),
        forall|k: int| 0 <= k < higher_run(s, value) ==> (#[trigger] s[k]).value > value,
        higher_run(s, value) < s.len() ==> s[higher_run(s, value) as int].value <= value,
    decreases s.len(),
{
    if s.len() > 0 && s[0].value > value {
        let t = s.skip(1);
        lemma_higher_run(t, value);
        assert forall|k: int| 0 <= k < higher_run(s, value) implies (#[trigger] s[k]).value
            > value by {
            if k > 0 {
                assert(s[k] == t[k - 1]);
            }
        }
        if higher_run(s, value) < s.len() {
            assert(s[higher_run(s, value) as int] == t[higher_run(t, value) as int]);
        }
    }
}

/// Taking out a player that holds no slot changes nothing.
proof fn lemma_others_absent(t: Seq<LeaderboardEntry>, player: Key32)
    requires
        forall|k: int| 0 <= k < t.len() ==> (#[trigger] t[k]).player != player,
    ensures
        others(t, player) == t,
    decreases t.len(),
{
    if t.len() > 0 {
        let d = t.drop_last();
        assert forall|k: int| 0 <= k < d.len() implies (#[trigger] d[k]).player != player by {
            assert(d[k] == t[k]);
        }
        lemma_others_absent(d, player);
        assert(t.last().player != player);
        assert(d.push(t.last()) =~= t);
    }
}

/// A list ordered like a ranked list is its held entries followed by empty
/// slots.
proof fn lemma_held_then_empty(t: Seq<LeaderboardEntry>)
    requires
        forall|i: int|
            0 <= i < t.len() && (#[trigger] t[i]).player == zero_key() ==> t[i] == empty_entry(),
        forall|i: int, j: int| 0 <= i < j < t.len() ==> #[trigger] ranks_above(t[i], t[j]),
    ensures
        others(t, zero_key()).len() <= t.len(),
        t =~= others(t, zero_key()) + Seq::new(
            (t.len() - others(t, zero_key()).len()) as nat,
            |_i: int| empty_entry(),
        ),
    decreases t.len(),
{
    lemma_others_from(t, zero_key());
    if t.len() > 0 {
        let d = t.drop_last();
        let n = t.len() - 1;
        assert forall|i: int| 0 <= i < d.len() && (#[trigger] d[i]).player == zero_key() implies d[i]
            == empty_entry() by {
            assert(d[i] == t[i]);
        }
        assert forall|i: int, j: int| 0 <= i < j < d.len() implies #[trigger] ranks_above(
            d[i],
            d[j],
        ) by {
            assert(d[i] == t[i] && d[j] == t[j]);
        }
        lemma_held_then_empty(d);
        let od = others(d, zero_key());
        let o = others(t, zero_key());
        if t[n].player == zero_key() {
            assert(t[n] == empty_entry());
            assert(o == od);
            let pd = Seq::new((d.len() - od.len()) as nat, |_i: int| empty_entry());
            let pt = Seq::new((t.len() - o.len()) as nat, |_i: int| empty_entry());
            assert forall|k: int| 0 <= k < t.len() implies #[trigger] t[k] == (od + pt)[k] by {
                if k < n {
                    assert(t[k] == d[k]);
                    assert(d[k] == (od + pd)[k]);
                }
            }
        } else {
            assert forall|k: int| 0 <= k < d.len() implies (#[trigger] d[k]).player != zero_key() by {
                assert(d[k] == t[k]);
                assert(ranks_above(t[k], t[n]));
            }
            lemma_others_absent(d, zero_key());
            assert(o == d.push(t[n]));
            assert(d.push(t[n]) =~= t);
        }
    }
}

/// A ranked list with `player` taken out is the other players' entries
/// followed by empty slots.
proof fn lemma_compacted_shape(list: Seq<LeaderboardEntry>, player: Key32)
    requires
        ranked_list(list),
    ensures
        held_by_others(list, player).len() <= list.len(),
        compacted(list, player).len() == list.len(),
        forall|k: int|
            0 <= k < list.len() ==> #[trigger] compacted(list, player)[k] == (if k < held_by_others(
                list,
                player,
            ).len() {
                held_by_others(list, player)[k]
            } else {
                empty_entry()
            }),
        forall|k: int|
            0 <= k < held_by_others(list, player).len() ==> (#[trigger] held_by_others(
                list,
                player,
            )[k]).player != zero_key(),
{
    let n = list.len();
    lemma_compacted(list, player);
    lemma_others_from(list, player);
    let t = others(list, player);
    let rel = |a: LeaderboardEntry, b: LeaderboardEntry| ranks_above(a, b);
    assert forall|i: int, j: int| 0 <= i < j < list.len() implies #[trigger] rel(list[i], list[j]) by {
        assert(ranks_above(list[i], list[j]));
    }
    lemma_others_keep(list, player, rel);
    assert forall|i: int, j: int| 0 <= i < j < t.len() implies #[trigger] ranks_above(t[i], t[j]) by {
        assert(rel(t[i], t[j]));
    }
    assert forall|i: int| 0 <= i < t.len() && (#[trigger] t[i]).player == zero_key() implies t[i]
        == empty_entry() by {
        let m = choose|m: int| 0 <= m < list.len() && t[i] == #[trigger] list[m];
        assert(list[m].player == zero_key() ==> list[m] == empty_entry());
    }
    lemma_held_then_empty(t);
    lemma_others_from(t, zero_key());
    let held = held_by_others(list, player);
    let m = held.len();
    let c = compacted(list, player);
    assert forall|k: int| 0 <= k < n implies #[trigger] c[k] == (if k < m {
        held[k]
    } else {
        empty_entry()
    }) by {
        if k < t.len() {
            assert(c[k] == t[k]);
            if k >= m {
                assert(t[k] == Seq::new((t.len() - m) as nat, |_i: int| empty_entry())[k - m]);
            } else {
                assert(t[k] == held[k]);
            }
        }
    }
}

/// Placing a nonzero value into held entries followed by empty slots, at
/// the first slot that takes it, merges it in order.
proof fn lemma_insert_merges(c: Seq<LeaderboardEntry>, held: Seq<LeaderboardEntry>, e: LeaderboardEntry)
    requires
        held.len() <= c.len(),
        forall|k: int|
            0 <= k < c.len() ==> #[trigger] c[k] == (if k < held.len() {
                held[k]
            } else {
                empty_entry()
            }),
        forall|k: int| 0 <= k < held.len() ==> (#[trigger] held[k]).player != zero_key(),
        e.value > 0,
    ensures
        (if has_slot(c, e.value) {
            inserted(c, first_slot(c, e.value), e)
        } else {
            c
        }) == top(merged(held, e), c.len()),
{
    let n = c.len();
    let m = held.len();
    let value = e.value;
    lemma_higher_run(held, value);
    let p = higher_run(held, value) as int;
    let goal = top(merged(held, e), n);
    let mg = merged(held, e);
    assert forall|k: int| 0 <= k < mg.len() implies #[trigger] mg[k] == (if k < p {
        held[k]
    } else if k == p {
        e
    } else {
        held[k - 1]
    }) by {}
    if !has_slot(c, value) {
        if m < n {
            assert(c[m as int] == empty_entry());
            assert(admits(c[m as int], value));
        }
        assert(m == n);
        if p < m {
            assert(c[p] == held[p]);
            assert(admits(c[p], value));
        }
        assert(c =~= goal);
    } else {
        lemma_first_slot_exists(c, value, c.len() as int);
        let idx = first_slot(c, value);
        assert(is_first_slot(c, value, idx));
        assert forall|k: int| 0 <= k < p implies !admits(#[trigger] c[k], value) by {
            assert(c[k] == held[k]);
        }
        if p == n {
            let w = choose|i: int| 0 <= i < c.len() && admits(#[trigger] c[i], value);
            assert(!admits(c[w], value));
        }
        assert(p < n);
        assert(admits(c[p], value));
        assert(idx == p) by {
            if idx < p {
                assert(!admits(c[idx], value));
            } else if idx > p {
                assert(!admits(c[p], value));
            }
        }
        lemma_inserted_at(c, p, e);
        let r = inserted(c, p, e);
        assert forall|k: int| 0 <= k < n implies #[trigger] r[k] == goal[k] by {
            if k < p {
                assert(r[k] == c[k]);
            } else if k > p {
                assert(r[k] == c[k - 1]);
            }
        }
        assert(r =~= goal);
    }
}

/// Recording a value in a ranked top list merges it in order: the list
/// becomes the first entries, padded with empty slots, of the other players'
/// entries in their order with the player's new entry placed after every
/// higher value and before equal ones (a zero value only takes the player
/// out). This holds for every player, the all-zero key included.
pub proof fn update_list_merges_in_order(list: Seq<LeaderboardEntry>, player: Key32, value: u64)
    requires
        ranked_list(list),
    ensures
        list_after_update(list, player, value) == top(
            if value > 0 {
                merged(held_by_others(list, player), LeaderboardEntry { player: player, value: value })
            } else {
                held_by_others(list, player)
            },
            list.len(),
        ),
{
    lemma_compacted_shape(list, player);
    let held = held_by_others(list, player);
    let c = compacted(list, player);
    if value == 0 {
        assert(list_after_update(list, player, value) =~= top(held, list.len()));
    } else {
        lemma_insert_merges(c, held, LeaderboardEntry { player: player, value: value });
    }
}

/// Where a player stands after recording a value: a zero value takes the
/// player out of the list; a nonzero value that some slot takes puts the
/// player, with that value, into the first such slot once the player's old
/// entry is taken out. The all-zero key is left out: it marks the empty
/// slots, which stay in the list.
pub proof fn update_list_places_player(list: Seq<LeaderboardEntry>, player: Key32, value: u64)
    requires
        player != zero_key(),
    ensures
        value == 0 ==> forall|k: int|
            0 <= k < list.len() ==> #[trigger] list_after_update(list, player, value)[k].player
                != player,
        value > 0 && has_slot(compacted(list, player), value) ==> {
            let idx = first_slot(compacted(list, player), value);
            &&& 0 <= idx < list.len()
            &&& list_after_update(list, player, value)[idx] == LeaderboardEntry {
                player: player,
                value: value,
            }
        },
{
    lemma_compacted(list, player);
    let c = compacted(list, player);
    if value > 0 && has_slot(c, value) {
        lemma_first_slot_exists(c, value, c.len() as int);
    }
}

// ----- Profiles -----

/// The number of decided matches (wins and losses) a profile records.
pub open spec fn decided_matches(p: PlayerProfile) -> int {
    p.duel_wins + p.duel_losses + p.ranked_wins + p.ranked_losses
}

/// Each recorded result counts one more match and at most one more decided
/// match, so decided matches never outnumber matches.
pub proof fn profile_counts_stay_consistent(
    p: PlayerProfile,
    player: Key32,
    mode: ProfileMatchMode,
    outcome: ProfileOutcome,
    xp_gained: u64,
    earning_delta: i64,
    final_score: u64,
    bump: u8,
    now_ts: i64,
)
    requires
        decided_matches(p) <= p.total_matches,
        result_fits(p, mode, outcome, xp_gained, earning_delta),
    ensures
        ({
            let q = profile_after(
                p,
                player,
                mode,
                outcome,
                xp_gained,
                earning_delta,
                final_score,
                bump,
                now_ts,
            );
            &&& q.total_matches == p.total_matches + 1
            &&& decided_matches(q) == decided_matches(p) + (if outcome == ProfileOutcome::Draw {
                0int
            } else {
                1int
            })
            &&& decided_matches(q) <= q.total_matches
            &&& q.total_xp == p.total_xp + xp_gained
            &&& q.net_earnings == p.net_earnings + earning_delta
        }),
{
}

// ----- Duel rooms -----

/// An open duel room seats its host and at most one challenger, and counts
/// them.
pub open spec fn seats_consistent(room: DuelRoom) -> bool {
    room.player_count == if room.challenger == zero_key() {
        1int
    } else {
        2int
    }
}

/// Entering a room keeps its seat count right.
pub proof fn entering_keeps_seats_consistent(
    status: PlayerStatus,
    room: DuelRoom,
    wallet_address: Key32,
    room_id: Key32,
    bump: u8,
    now_ts: i64,
)
    requires
        room.room_id != zero_key() ==> seats_consistent(room),
        enter_room_result(status, room, wallet_address, room_id) is Ok,
    ensures
        seats_consistent(room_after_enter(room, status.player, room_id, bump, now_ts)),
{
}

/// A duel update that goes through keeps the seat count right.
pub proof fn duel_update_keeps_seats_consistent(
    status: PlayerStatus,
    room: DuelRoom,
    authority: Key32,
    wallet_address: Key32,
    session: Key32,
    room_id: Key32,
    earning_delta: i64,
    reward_mint: Key32,
    token: TokenAccountData,
    treasury_mint: Key32,
    total_score: u64,
    reward: int,
    paid: int,
    now_ts: i64,
)
    requires
        seats_consistent(room),
        update_duel_check(
            status,
            room,
            authority,
            wallet_address,
            session,
            room_id,
            earning_delta,
            reward_mint,
            token,
            treasury_mint,
        ) is Ok,
    ensures
        seats_consistent(
            room_after_duel_update(room, status.player, total_score, reward, paid, now_ts),
        ),
{
}

/// A settled duel is settled once: a second settlement, an update and an
/// entry into it (by id) are all refused.
pub proof fn settled_duel_is_final(
    status: PlayerStatus,
    room: DuelRoom,
    host_profile: PlayerProfile,
    challenger_profile: PlayerProfile,
    player: Key32,
    winner: Key32,
    is_draw: bool,
    host_score: u64,
    challenger_score: u64,
    authority: Key32,
    session: Key32,
    earning_delta: i64,
    reward_mint: Key32,
    token: TokenAccountData,
    treasury_mint: Key32,
)
    requires
        room.is_settled,
        room.room_id != zero_key(),
        status.player == player,
        status.is_online,
        status.active_room == room.room_id,
        token.owner == player,
        token.mint == reward_mint,
        treasury_mint == reward_mint,
    ensures
        settle_duel_check(
            status,
            room,
            host_profile,
            challenger_profile,
            player,
            room.room_id,
            winner,
            is_draw,
            host_score,
            challenger_score,
        ) == Err::<(), GuessrError>(GuessrError::DuelAlreadySettled),
        update_duel_check(
            status,
            room,
            authority,
            player,
            session,
            room.room_id,
            earning_delta,
            reward_mint,
            token,
            treasury_mint,
        ) == Err::<(), GuessrError>(GuessrError::DuelAlreadySettled),
        enter_room_result(status, room, player, room.room_id) == Err::<(), GuessrError>(
            GuessrError::DuelAlreadySettled,
        ),
{
}

// ----- Ranked rooms -----

/// A ranked room that settled refuses further actions and a second
/// settlement.
pub proof fn settled_ranked_room_is_final(
    status: PlayerStatus,
    room: RankedRoom,
    config: RankedConfig,
    profile: PlayerProfile,
    player: Key32,
    reward_mint: Key32,
    token: TokenAccountData,
    treasury_mint: Key32,
    distance_km: u32,
    accuracy_bps: u16,
    action_kind: u8,
    is_correct_country: bool,
    score: u64,
)
    requires
        room.is_settled,
        status.player == player,
        room.player == player,
        token.owner == player,
        token.mint == reward_mint,
        treasury_mint == reward_mint,
    ensures
        ranked_update_check(
            status,
            room,
            config,
            player,
            reward_mint,
            token,
            treasury_mint,
            distance_km,
            accuracy_bps,
            action_kind,
            is_correct_country,
        ) == Err::<(), GuessrError>(GuessrError::RoomAlreadySettled),
        ranked_settle_check(room, profile, player, reward_mint, token, treasury_mint, score)
            == Err::<(), GuessrError>(GuessrError::RoomAlreadySettled),
{
}

// ----- Reward claims -----

/// A claim pays out once: after a successful claim, claiming again is
/// refused as already claimed.
pub proof fn claim_pays_once(
    claim: RewardClaim,
    player: Key32,
    config_authority: Key32,
    treasury_authority: Key32,
    token: TokenAccountData,
)
    requires
        claim_outcome(claim, player, config_authority, treasury_authority, token) is Ok,
    ensures
        claim_outcome(
            RewardClaim { claimed: true, ..claim },
            player,
            config_authority,
            treasury_authority,
            token,
        ) == Err::<u64, GuessrError>(GuessrError::AlreadyClaimed),
{
}

// ----- Room pool -----

/// Pushing to the pool never counts more filled slots than it has, fills
/// one more slot until the pool is full, and leaves the new entry in the slot
/// just before the write index.
pub proof fn push_keeps_pool_well_formed(pool: RoomPool, entry: RoomPoolEntry)
    requires
        pool.well_formed(),
    ensures
        pool_after_push(pool, entry).well_formed(),
        pool_after_push(pool, entry).entry_count == if pool.entry_count
            < ROOM_POOL_MAX_ENTRIES {
            pool.entry_count + 1
        } else {
            ROOM_POOL_MAX_ENTRIES as int
        },
        pool_after_push(pool, entry).entries[((pool_after_push(pool, entry).write_index as int
            + 0xffff_ffff) % 0x1_0000_0000) % ROOM_POOL_MAX_ENTRIES as int] == entry,
{
    let w = pool.write_index as int;
    let p = pool_after_push(pool, entry);
    assert((p.write_index as int + 0xffff_ffff) % 0x1_0000_0000 == w);
}

/// The pool after pushing `pushed`, oldest first.
pub open spec fn pool_after_pushes(pool: RoomPool, pushed: Seq<RoomPoolEntry>) -> RoomPool
    decreases pushed.len(),
{
    if pushed.len() == 0 {
        pool
    } else {
        pool_after_push(pool_after_pushes(pool, pushed.drop_last()), pushed.last())
    }
}

/// The smaller of two numbers.
pub open spec fn min_int(a: int, b: int) -> int {
    if a <= b {
        a
    } else {
        b
    }
}

/// From an empty pool, `k` pushes (fewer than the write index can count)
/// leave the write index at `k` and `min(k, capacity)` filled slots, and keep
/// the newest `min(k, capacity)` entries, the one pushed `j`-th in slot
/// `j % capacity`: the newest sits just before the write index and the older
/// ones follow the ring backwards.
pub proof fn pushes_keep_the_newest_entries(pool: RoomPool, pushed: Seq<RoomPoolEntry>)
    requires
        pool.write_index == 0,
        pool.entry_count == 0,
        pushed.len() < 0x1_0000_0000,
    ensures
        pool_after_pushes(pool, pushed).write_index == pushed.len(),
        pool_after_pushes(pool, pushed).entry_count == min_int(
            pushed.len() as int,
            ROOM_POOL_MAX_ENTRIES as int,
        ),
        forall|j: int|
            pushed.len() - pool_after_pushes(pool, pushed).entry_count <= j < pushed.len() ==> (
            #[trigger] pool_after_pushes(pool, pushed).entries[j % ROOM_POOL_MAX_ENTRIES as int])
                == pushed[j],
    decreases pushed.len(),
{
    if pushed.len() > 0 {
        let d = pushed.drop_last();
        pushes_keep_the_newest_entries(pool, d);
        let q = pool_after_pushes(pool, d);
        let p = pool_after_pushes(pool, pushed);
        let k = pushed.len() as int;
        let n = ROOM_POOL_MAX_ENTRIES as int;
        assert(p == pool_after_push(q, pushed.last()));
        assert(q.write_index == k - 1);
        assert forall|j: int| k - p.entry_count <= j < k implies #[trigger] p.entries[j % n]
            == pushed[j] by {
            if j == k - 1 {
                assert(p.entries[(k - 1) % n] == pushed.last());
            } else {
                assert(0 < (k - 1) - j < n);
                assert(j % n != (k - 1) % n);
                assert(p.entries[j % n] == q.entries[j % n]);
                assert(d[j] == pushed[j]);
            }
        }
    }
}

// ----- Commits -----

/// A state commit carries the lobby and the ranked configuration first, and
/// the accounts that it carries have distinct keys when those two do.
pub proof fn commit_targets_are_distinct(
    lobby_state: Key32,
    ranked_config: Key32,
    rest: Seq<AccountRef>,
    picked: Seq<usize>,
)
    requires
        lobby_state != ranked_config,
        lists_exactly(
            picked,
            rest.len() + 2int,
            |i: int| commits_offered(lobby_state, ranked_config, rest, i),
        ),
    ensures
        picked.len() >= 2,
        picked[0] == 0,
        picked[1] == 1,
        forall|k1: int, k2: int|
            0 <= k1 < k2 < picked.len() ==> #[trigger] guessr_commit_offer(
                lobby_state,
                ranked_config,
                rest,
            )[picked[k1] as int].key != #[trigger] guessr_commit_offer(
                lobby_state,
                ranked_config,
                rest,
            )[picked[k2] as int].key,
{
    let pick = |i: int| commits_offered(lobby_state, ranked_config, rest, i);
    let base = seq![lobby_state, ranked_config];
    let offer = guessr_commit_offer(lobby_state, ranked_config, rest);
    assert(pick(0) && pick(1));
    assert(picked.contains(0usize));
    assert(picked.contains(1usize));
    let k0 = choose|k: int| 0 <= k < picked.len() && picked[k] == 0usize;
    let k1 = choose|k: int| 0 <= k < picked.len() && picked[k] == 1usize;
    if k0 > 0 {
        assert(picked[0] < picked[k0]);
    }
    if k1 > 1 {
        assert(picked[1] < picked[k1]);
        assert(picked[0] < picked[1]);
    }
    assert forall|i: int| 2 <= i < offer.len() implies #[trigger] offer[i] == rest[i - 2] by {}
    assert forall|q1: int, q2: int| 0 <= q1 < q2 < picked.len() implies #[trigger] offer[picked[q1] as int].key
        != #[trigger] offer[picked[q2] as int].key by {
        let i1 = picked[q1] as int;
        let i2 = picked[q2] as int;
        assert(picked[q1] < picked[q2]);
        assert(pick(i1));
        assert(pick(i2));
        if i2 < 2 {
            assert(i1 == 0 && i2 == 1);
        } else {
            assert(joins_commit(base, rest, i2 - 2));
            assert(!seen_before(base, rest, i2 - 2));
            if i1 < 2 {
                assert(base[i1] == offer[i1].key);
                assert(base.contains(offer[i1].key));
            } else {
                assert(joins_commit(base, rest, i1 - 2));
                if rest[i1 - 2].key == rest[i2 - 2].key {
                    assert(0 <= i1 - 2 < i2 - 2 && rest[i1 - 2].is_writable && rest[i1 - 2].key
                        == rest[i2 - 2].key);
                }
            }
        }
    }
}

/// First occurrences have distinct keys.
pub proof fn first_occurrences_are_distinct(keys: Seq<Key32>, picked: Seq<usize>)
    requires
        lists_exactly(picked, keys.len() as int, |i: int| first_occurrence(keys, i)),
    ensures
        forall|k1: int, k2: int|
            0 <= k1 < k2 < picked.len() ==> #[trigger] keys[picked[k1] as int]
                != #[trigger] keys[picked[k2] as int],
{
    let pick = |i: int| first_occurrence(keys, i);
    assert forall|k1: int, k2: int|
        0 <= k1 < k2 < picked.len() implies #[trigger] keys[picked[k1] as int]
        != #[trigger] keys[picked[k2] as int] by {
        assert(picked[k1] < picked[k2]);
        assert(pick(picked[k2] as int));
    }
}

// ----- Experience, rewards and penalties -----

/// Settling a duel grants 15 experience, one more for every 20 points of the
/// seat's score, and 25 for a win or 8 otherwise: a win is worth exactly 17
/// more than a loss or a draw at the same score, whatever the score.
pub proof fn duel_experience_law(score: u64, won: bool)
    ensures
        duel_xp(score, won) == 15 + score / 20 + (if won {
            25int
        } else {
            8int
        }),
        duel_xp(score, true) == duel_xp(score, false) + 17,
        score + 20 <= u64::MAX ==> duel_xp((score + 20) as u64, won) == duel_xp(score, won) + 1,
{
}

/// Settling a ranked room grants 20 experience, one more for every 20 points
/// of the score, without bound, and one more for every two actions.
pub proof fn ranked_experience_law(score: u64, action_count: u32)
    ensures
        ranked_xp(score, action_count) == 20 + score / 20 + action_count / 2,
        score + 20 <= u64::MAX ==> ranked_xp((score + 20) as u64, action_count) == ranked_xp(
            score,
            action_count,
        ) + 1,
        action_count + 2 <= u32::MAX ==> ranked_xp(score, (action_count + 2) as u32) == ranked_xp(
            score,
            action_count,
        ) + 1,
{
}

/// Every hint opened so far takes one penalty unit (the threshold over the
/// divisor, at least one) off the reward of a marker move or of a guess in
/// the right country, down to nothing: a room with one more hint opened
/// earns one unit less for the same action, or nothing.
pub proof fn each_hint_costs_one_unit_of_reward(
    config: RankedConfig,
    room: RankedRoom,
    action_kind: u8,
    accuracy_bps: u16,
)
    requires
        action_kind == ACTION_MARK_MOVE || action_kind == ACTION_GUESS_SUBMIT,
        config.reward_multiplier > 0,
        config.penalty_divisor > 0,
        room.hints_opened < u16::MAX,
    ensures
        ({
            let q = config.penalty_threshold as int / config.penalty_divisor as int;
            let unit: int = if q >= 1 {
                q
            } else {
                1
            };
            let raw = if action_kind == ACTION_MARK_MOVE {
                accuracy_bps as int / config.reward_multiplier as int
            } else {
                (accuracy_bps as int * 2) / config.reward_multiplier as int + unit
            };
            let earned = raw - room.hints_opened * unit;
            let more = RankedRoom { hints_opened: (room.hints_opened + 1) as u16, ..room };
            let less = action_reward(config, room, action_kind, accuracy_bps, true) - unit;
            &&& action_reward(config, room, action_kind, accuracy_bps, true) == if earned > 0 {
                earned
            } else {
                0
            }
            &&& action_reward(config, more, action_kind, accuracy_bps, true) == if less > 0 {
                less
            } else {
                0
            }
        }),
{
    let q = config.penalty_threshold as int / config.penalty_divisor as int;
    let unit: int = if q >= 1 {
        q
    } else {
        1
    };
    let h = room.hints_opened as int;
    assert((h + 1) * unit == h * unit + unit) by (nonlinear_arith);
}

/// A duel penalty takes no more than the negative earning delta owes and no
/// more than the balance holds; when the wallet itself signs it takes the
/// smaller of the two, and otherwise nothing.
pub proof fn a_duel_penalty_takes_what_is_owed(
    earning_delta: i64,
    wallet_address: Key32,
    authority: Key32,
    balance: u64,
)
    ensures
        0 <= duel_penalty_paid(earning_delta, wallet_address, authority, balance) <= balance,
        earning_delta >= 0 ==> duel_penalty_paid(earning_delta, wallet_address, authority, balance)
            == 0,
        earning_delta < 0 ==> duel_penalty_paid(earning_delta, wallet_address, authority, balance)
            <= -earning_delta,
        authority != wallet_address ==> duel_penalty_paid(
            earning_delta,
            wallet_address,
            authority,
            balance,
        ) == 0,
        earning_delta < 0 && authority == wallet_address ==> duel_penalty_paid(
            earning_delta,
            wallet_address,
            authority,
            balance,
        ) == (if -earning_delta <= balance {
            -earning_delta
        } else {
            balance as int
        }),
{
}

/// Lifetime rewards accumulate: a pooled result adds a positive earning delta
/// to the total and leaves it alone otherwise, so two results add up and the
/// total never falls.
pub proof fn lifetime_rewards_accumulate(
    rewards: PlayerRewardStats,
    wallet_address: Key32,
    bump: u8,
    first_delta: i64,
    second_delta: i64,
    first_ts: i64,
    second_ts: i64,
)
    requires
        rewards.total_earned + (if first_delta > 0 {
            first_delta as int
        } else {
            0
        }) + (if second_delta > 0 {
            second_delta as int
        } else {
            0
        }) <= u64::MAX,
    ensures
        rewards_after(rewards, wallet_address, bump, first_delta, first_ts).total_earned
            == rewards.total_earned + (if first_delta > 0 {
            first_delta as int
        } else {
            0
        }),
        rewards_after(
            rewards_after(rewards, wallet_address, bump, first_delta, first_ts),
            wallet_address,
            bump,
            second_delta,
            second_ts,
        ).total_earned == rewards.total_earned + (if first_delta > 0 {
            first_delta as int
        } else {
            0
        }) + (if second_delta > 0 {
            second_delta as int
        } else {
            0
        }),
        rewards_after(rewards, wallet_address, bump, first_delta, first_ts).total_earned
            >= rewards.total_earned,
{
}

} // verus!
