//! Plain values shared by every module: 32-byte keys and the error type.
use vstd::prelude::*;

verus! {

/// A 32-byte value: an account address, or the hash of a room or match id.
/// The all-zero value stands for "no key" (an empty slot, no room).
#[derive(Clone, Copy, Debug, PartialEq, Eq)]
pub struct Key32 {
    pub bytes: [u8; 32],
}

impl View for Key32 {
    type V = Seq<u8>;

    open spec fn view(&self) -> Seq<u8> {
        self.bytes@
    }
}

/// The all-zero key.
pub open spec fn zero_key() -> Key32 {
    Key32 { bytes: vstd::array::spec_array_fill_for_copy_type::<u8, 32>(0u8) }
}

impl Key32 {
    /// The all-zero key, standing for an unset address or room.
    pub fn zero() -> (k: Key32)
        ensures
            k == zero_key(),
    {
        Key32 { bytes: [0u8; 32] }
    }

    /// Whether two keys hold the same bytes.
    pub fn same_as(&self, other: &Key32) -> (r: bool)
        ensures
            r == (*self == *other),
    {
        let mut i: usize = 0;
        while i < 32
            invariant
                0 <= i <= 32,
                forall|j: int| 0 <= j < i ==> self.bytes[j] == other.bytes[j],
            decreases 32 - i,
        {
            if self.bytes[i] != other.bytes[i] {
                return false;
            }
            i = i + 1;
        }
        assert(self.bytes =~= other.bytes);
        true
    }

    /// Whether this is the all-zero key.
    pub fn is_zero(&self) -> (r: bool)
        ensures
            r == (*self == zero_key()),
    {
        let z = Key32::zero();
        self.same_as(&z)
    }
}

/// Match mode of a duel between two players.
pub const MATCH_MODE_DUEL: u8 = 0;
/// Match mode of a solo ranked match.
pub const MATCH_MODE_RANKED_SOLO: u8 = 1;

/// Ranked action: the player opened a hint.
pub const ACTION_HINT_OPEN: u8 = 0;
/// Ranked action: the player moved the map marker.
pub const ACTION_MARK_MOVE: u8 = 1;
/// Ranked action: the player submitted a guess.
pub const ACTION_GUESS_SUBMIT: u8 = 2;
/// Upper bound of an accuracy in basis points.
pub const MAX_ACCURACY_BPS: u16 = 10_000;

/// Pool entry status: a host waits for a challenger.
pub const ROOM_STATUS_WAITING: u8 = 0;
/// Pool entry status: a challenger asks to join a host.
pub const ROOM_STATUS_JOINING: u8 = 1;
/// Pool entry status: the host confirmed the pair.
pub const ROOM_STATUS_CONFIRMED: u8 = 2;
/// Pool entry status: the player left the room.
pub const ROOM_STATUS_CLEARED: u8 = 3;

/// Everything that the game's rules refuse.
#[derive(Clone, Copy, Debug, PartialEq, Eq, Structural)]
pub enum GuessrError {
    Unauthorized,
    Overflow,
    Underflow,
    PlayerOffline,
    InvalidHeartbeatTtl,
    HeartbeatExpired,
    RoomMismatch,
    InvalidMatchMode,
    RoomAlreadySettled,
    InvalidMultiplier,
    InvalidPenaltyDivisor,
    InvalidTreasuryMint,
    InvalidTokenOwner,
    InvalidTokenMint,
    RoomNotSettled,
    InvalidActionKind,
    InvalidAccuracy,
    RoomFull,
    PlayerNotInRoom,
    DuelAlreadySettled,
    InvalidWinner,
    InvalidRewardMint,
    DuelRoomIncomplete,
    InvalidDelegationTarget,
    InvalidAmount,
    AlreadyClaimed,
    DuelNotSettled,
    AddressNotFound,
}

/// A snapshot of a token account: who owns it, which mint it holds and
/// its balance.
#[derive(Clone, Copy, Debug, PartialEq, Eq)]
pub struct TokenAccountData {
    pub owner: Key32,
    pub mint: Key32,
    pub amount: u64,
}

/// Token movements that an instruction asks for: an amount to mint to the
/// player and an amount to move from the player to the treasury. Zero means
/// no movement.
#[derive(Clone, Copy, Debug, PartialEq, Eq)]
pub struct TokenEffects {
    pub mint_amount: u64,
    pub penalty_transfer: u64,
}

/// `1` for true, `0` for false.
pub open spec fn flag(b: bool) -> int {
    if b { 1 } else { 0 }
}

} // verus!
