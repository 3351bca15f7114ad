//! The accounts of the game, as plain values.
//!
//! Each struct holds the fields that the game's rules read and write. The
//! on-chain layout (discriminators, padding, reserved bytes) is not part of
//! these values.
use vstd::prelude::*;

use crate::types::{zero_key, Key32};

verus! {

/// Number of entries kept in each leaderboard list.
pub const LEADERBOARD_ENTRIES: usize = 25;

/// Number of slots in the matchmaking ring buffer.
pub const ROOM_POOL_MAX_ENTRIES: usize = 32;

/// Global lobby configuration and presence counter.
#[derive(Clone, Copy, Debug, PartialEq, Eq)]
pub struct LobbyState {
    pub authority: Key32,
    pub heartbeat_ttl_sec: i64,
    pub online_players: u32,
    pub bump: u8,
}

/// Presence of one player in the lobby.
#[derive(Clone, Copy, Debug, PartialEq, Eq)]
pub struct PlayerStatus {
    pub player: Key32,
    pub session_address: Key32,
    pub active_room: Key32,
    pub last_heartbeat_ts: i64,
    pub is_online: bool,
    pub bump: u8,
}

/// The live, per-round state of a player inside a room.
#[derive(Clone, Copy, Debug, PartialEq, Eq)]
pub struct PlayerLiveState {
    pub player: Key32,
    pub wallet_address: Key32,
    pub session_address: Key32,
    pub room_id: Key32,
    pub round_index: u16,
    pub hp: u16,
    pub total_score: u64,
    pub earned_amount: u64,
    pub movement_hash: Key32,
    pub last_update_ts: i64,
    pub bump: u8,
}

/// Long-term statistics of a player.
#[derive(Clone, Copy, Debug, PartialEq, Eq)]
pub struct PlayerProfile {
    pub player: Key32,
    pub total_xp: u64,
    pub duel_wins: u32,
    pub duel_losses: u32,
    pub ranked_wins: u32,
    pub ranked_losses: u32,
    pub net_earnings: i64,
    pub total_matches: u32,
    pub last_match_score: u64,
    pub last_update_ts: i64,
    pub bump: u8,
}

/// Lifetime reward total of a player.
#[derive(Clone, Copy, Debug, PartialEq, Eq)]
pub struct PlayerRewardStats {
    pub player: Key32,
    pub total_earned: u64,
    pub last_update_ts: i64,
    pub bump: u8,
}

impl PlayerRewardStats {
    /// Stamps the owner, the bump and the time; the total is left as it is.
    pub fn touch(&mut self, player: Key32, bump: u8, now_ts: i64)
        ensures
            *final(self) == (PlayerRewardStats {
                player: player,
                bump: bump,
                last_update_ts: now_ts,
                ..*old(self)
            }),
    {
        self.player = player;
        self.bump = bump;
        self.last_update_ts = now_ts;
    }
}

/// A two-player duel room.
#[derive(Clone, Copy, Debug, PartialEq, Eq)]
pub struct DuelRoom {
    pub room_id: Key32,
    pub host: Key32,
    pub challenger: Key32,
    pub player_count: u8,
    pub is_settled: bool,
    pub host_score: u64,
    pub challenger_score: u64,
    pub host_earned: u64,
    pub host_lost: u64,
    pub challenger_earned: u64,
    pub challenger_lost: u64,
    pub winner: Key32,
    pub last_update_ts: i64,
    pub bump: u8,
}

/// Reward and penalty parameters of ranked play.
#[derive(Clone, Copy, Debug, PartialEq, Eq)]
pub struct RankedConfig {
    pub authority: Key32,
    pub reward_mint: Key32,
    pub treasury_token_account: Key32,
    pub reward_multiplier: u64,
    pub penalty_divisor: u64,
    pub penalty_threshold: u64,
    pub mint_authority_bump: u8,
    pub bump: u8,
}

/// A solo ranked match.
#[derive(Clone, Copy, Debug, PartialEq, Eq)]
pub struct RankedRoom {
    pub player: Key32,
    pub challenge_hash: Key32,
    pub score: u64,
    pub total_earned: u64,
    pub total_lost: u64,
    pub action_count: u32,
    pub hints_opened: u16,
    pub last_round_index: u16,
    pub last_hp: u16,
    pub last_accuracy_bps: u16,
    pub last_distance_km: u32,
    pub last_action_kind: u8,
    pub is_settled: bool,
    pub last_movement_hash: Key32,
    pub last_action_ts: i64,
    pub bump: u8,
}

/// A reward owed to a player for one match.
#[derive(Clone, Copy, Debug, PartialEq, Eq)]
pub struct RewardClaim {
    pub player: Key32,
    pub match_id: Key32,
    pub mode: u8,
    pub region: u8,
    pub amount: u64,
    pub claimed: bool,
    pub created_ts: i64,
    pub bump: u8,
}

/// One slot of a leaderboard list; an all-zero player marks an empty slot.
#[derive(Clone, Copy, Debug, PartialEq, Eq)]
pub struct LeaderboardEntry {
    pub player: Key32,
    pub value: u64,
}

/// The empty leaderboard slot.
pub open spec fn empty_entry() -> LeaderboardEntry {
    LeaderboardEntry { player: zero_key(), value: 0 }
}

impl LeaderboardEntry {
    /// The empty slot: no player, value zero.
    pub fn empty() -> (e: LeaderboardEntry)
        ensures
            e == empty_entry(),
    {
        LeaderboardEntry { player: Key32::zero(), value: 0 }
    }
}

/// Four top lists: experience, win rate, net earnings and rewards earned.
#[derive(Clone, Copy, Debug, PartialEq, Eq)]
pub struct LeaderboardState {
    pub last_update_ts: i64,
    pub bump: u8,
    pub xp: [LeaderboardEntry; LEADERBOARD_ENTRIES],
    pub winrate: [LeaderboardEntry; LEADERBOARD_ENTRIES],
    pub net_earnings: [LeaderboardEntry; LEADERBOARD_ENTRIES],
    pub reward_earned: [LeaderboardEntry; LEADERBOARD_ENTRIES],
}

/// Whether every slot of a list is empty.
pub open spec fn all_empty(list: Seq<LeaderboardEntry>) -> bool {
    forall|i: int| 0 <= i < list.len() ==> #[trigger] list[i] == empty_entry()
}

impl LeaderboardState {
    /// Empties the four lists and stamps the bump and the time.
    pub fn reset(&mut self, bump: u8, now_ts: i64)
        ensures
            final(self).last_update_ts == now_ts,
            final(self).bump == bump,
            all_empty(final(self).xp@),
            all_empty(final(self).winrate@),
            all_empty(final(self).net_earnings@),
            all_empty(final(self).reward_earned@),
    {
        self.last_update_ts = now_ts;
        self.bump = bump;
        let e = LeaderboardEntry::empty();
        self.xp = [e; LEADERBOARD_ENTRIES];
        self.winrate = [e; LEADERBOARD_ENTRIES];
        self.net_earnings = [e; LEADERBOARD_ENTRIES];
        self.reward_earned = [e; LEADERBOARD_ENTRIES];
    }
}

/// One matchmaking signal written to the room pool.
#[derive(Clone, Copy, Debug, PartialEq, Eq)]
pub struct RoomPoolEntry {
    pub room_id: Key32,
    pub wallet: Key32,
    pub session: Key32,
    pub status: u8,
    pub slot_filled: u8,
    pub slot_total: u8,
    pub match_mode: u8,
    pub players: [Key32; 2],
    pub last_update_ts: i64,
}

/// The all-zero pool entry.
pub open spec fn empty_pool_entry() -> RoomPoolEntry {
    RoomPoolEntry {
        room_id: zero_key(),
        wallet: zero_key(),
        session: zero_key(),
        status: 0,
        slot_filled: 0,
        slot_total: 0,
        match_mode: 0,
        players: vstd::array::spec_array_fill_for_copy_type::<Key32, 2>(zero_key()),
        last_update_ts: 0,
    }
}

impl RoomPoolEntry {
    /// The all-zero entry.
    pub fn empty() -> (e: RoomPoolEntry)
        ensures
            e == empty_pool_entry(),
    {
        let z = Key32::zero();
        RoomPoolEntry {
            room_id: z,
            wallet: z,
            session: z,
            status: 0,
            slot_filled: 0,
            slot_total: 0,
            match_mode: 0,
            players: [z; 2],
            last_update_ts: 0,
        }
    }
}

/// A fixed-size ring buffer of matchmaking signals.
#[derive(Clone, Copy, Debug, PartialEq, Eq)]
pub struct RoomPool {
    pub write_index: u32,
    pub entry_count: u32,
    pub entries: [RoomPoolEntry; ROOM_POOL_MAX_ENTRIES],
    pub bump: u8,
}

impl RoomPool {
    /// The number of filled slots never exceeds the capacity.
    pub open spec fn well_formed(&self) -> bool {
        self.entry_count <= ROOM_POOL_MAX_ENTRIES
    }

    /// Writes `entry` into the slot selected by the write index, advances the
    /// index (wrapping at `u32::MAX`) and counts the slot as filled until the
    /// buffer is full.
    pub fn push_entry(&mut self, entry: RoomPoolEntry)
        ensures
            final(self).entries@ == old(self).entries@.update(
                old(self).write_index as int % ROOM_POOL_MAX_ENTRIES as int,
                entry,
            ),
            final(self).write_index as int == (old(self).write_index as int + 1) % 0x1_0000_0000,
            final(self).entry_count == (if old(self).entry_count < ROOM_POOL_MAX_ENTRIES {
                old(self).entry_count + 1
            } else {
                old(self).entry_count as int
            }),
            final(self).bump == old(self).bump,
    {
        let idx = (self.write_index as usize) % ROOM_POOL_MAX_ENTRIES;
        self.entries[idx] = entry;
        self.write_index = self.write_index.wrapping_add(1);
        if (self.entry_count as usize) < ROOM_POOL_MAX_ENTRIES {
            self.entry_count = self.entry_count.saturating_add(1);
        }
    }
}

} // verus!
