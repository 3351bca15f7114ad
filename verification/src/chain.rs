//! Address derivations that the chain libraries compute.
//!
//! Deriving an address hashes its seeds and searches for a bump seed that
//! leaves the curve; that search is the chain library's, and its result is
//! named here rather than restated. The search can fail, so the result is an
//! option.
use vstd::prelude::*;

use crate::types::Key32;

verus! {

/// The address that `Pubkey::try_find_program_address` derives from `seeds`
/// under `program_id`, or `None` when it finds none.
pub uninterp spec fn program_address(seeds: Seq<Seq<u8>>, program_id: Seq<u8>) -> Option<Seq<u8>>;

/// A key as an optional address.
pub open spec fn key_view(k: Option<Key32>) -> Option<Seq<u8>> {
    match k {
        Some(a) => Some(a@),
        None => None,
    }
}

/// The address of the SPL token program.
pub open spec fn token_program_address() -> Seq<u8> {
    seq![
        6u8, 221u8, 246u8, 225u8, 215u8, 101u8, 161u8, 147u8,
        217u8, 203u8, 225u8, 70u8, 206u8, 235u8, 121u8, 172u8,
        28u8, 180u8, 133u8, 237u8, 95u8, 91u8, 55u8, 145u8,
        58u8, 140u8, 245u8, 133u8, 126u8, 255u8, 0u8, 169u8,
    ]
}

/// The address of the associated token account program.
pub open spec fn associated_token_program_address() -> Seq<u8> {
    seq![
        140u8, 151u8, 37u8, 143u8, 78u8, 36u8, 137u8, 241u8,
        187u8, 61u8, 16u8, 41u8, 20u8, 142u8, 13u8, 131u8,
        11u8, 90u8, 19u8, 153u8, 218u8, 255u8, 16u8, 132u8,
        4u8, 142u8, 123u8, 216u8, 219u8, 233u8, 248u8, 89u8,
    ]
}

/// The associated token account of a wallet for a mint: the program address
/// of the associated token account program derived from the wallet, the
/// token program and the mint, if one is found.
pub open spec fn associated_token_address(wallet: Seq<u8>, mint: Seq<u8>) -> Option<Seq<u8>> {
    program_address(seq![wallet, token_program_address(), mint], associated_token_program_address())
}

/// The largest number of seeds that a program address accepts besides its
/// bump seed.
pub const MAX_SEEDS: usize = 16;

/// The largest length of one seed.
pub const MAX_SEED_LEN: usize = 32;

/// Calls `anchor_lang`'s `Pubkey::try_find_program_address(seeds,
/// program_id)` and returns the address, dropping the bump seed. The contract
/// claims that the result is the derivation named `program_address` of the
/// seed bytes and the program id, and, as the outside source shows, that it
/// is `None` when there are `MAX_SEEDS` seeds or more or a seed is longer
/// than `MAX_SEED_LEN`. The call does not panic: where no bump seed gives an
/// address off the curve it returns `None`.
#[verifier::external_body]
pub(crate) fn find_program_address(seeds: &Vec<Vec<u8>>, program_id: Key32) -> (r: Option<Key32>)
    ensures
        key_view(r) == program_address(seeds.deep_view(), program_id@),
        seeds@.len() >= MAX_SEEDS ==> r is None,
        (exists|i: int| 0 <= i < seeds@.len() && #[trigger] seeds@[i]@.len() > MAX_SEED_LEN)
            ==> r is None,
{
    let refs: Vec<&[u8]> = seeds.iter().map(|s| s.as_slice()).collect();
    let id = anchor_lang::prelude::Pubkey::new_from_array(program_id.bytes);
    let found = anchor_lang::prelude::Pubkey::try_find_program_address(&refs, &id);
    found.map(|(address, _bump)| Key32 { bytes: address.to_bytes() })
}

/// The key of the SPL token program.
pub fn token_program_key() -> (k: Key32)
    ensures
        k@ == token_program_address(),
{
    let k = Key32 {
        bytes: [
            6, 221, 246, 225, 215, 101, 161, 147,
            217, 203, 225, 70, 206, 235, 121, 172,
            28, 180, 133, 237, 95, 91, 55, 145,
            58, 140, 245, 133, 126, 255, 0, 169,
        ],
    };
    assert(k@ =~= token_program_address());
    k
}

/// The key of the associated token account program.
pub fn associated_token_program_key() -> (k: Key32)
    ensures
        k@ == associated_token_program_address(),
{
    let k = Key32 {
        bytes: [
            140, 151, 37, 143, 78, 36, 137, 241,
            187, 61, 16, 41, 20, 142, 13, 131,
            11, 90, 19, 153, 218, 255, 16, 132,
            4, 142, 123, 216, 219, 233, 248, 89,
        ],
    };
    assert(k@ =~= associated_token_program_address());
    k
}

} // verus!
