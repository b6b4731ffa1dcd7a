//! Derived addresses: a record of the marketplace sits at an address that the
//! ledger derives from fixed seeds and the record's natural key, so that one
//! key has one place.

use vstd::prelude::*;
use crate::accounts::Address;

verus! {

/// The identity of the marketplace program, under which its addresses are
/// derived.
pub const PROGRAM_ID: [u8; 32] = [
    167, 35, 168, 74, 47, 141, 160, 23, 190, 144, 132, 176, 155, 156, 77, 83,
    217, 147, 28, 184, 194, 126, 175, 72, 135, 34, 52, 46, 132, 53, 255, 236,
];

/// The seed of the configuration's address: the bytes of `marketplace_v2`.
pub const MARKETPLACE_SEED: [u8; 14] = [109, 97, 114, 107, 101, 116, 112, 108, 97, 99, 101, 95, 118, 50];

/// The first seed of a listing's address: the bytes of `listing_v2`.
pub const LISTING_SEED: [u8; 10] = [108, 105, 115, 116, 105, 110, 103, 95, 118, 50];

/// The address and the bump seed that the ledger derives for a program from a
/// list of seeds; `None` where the seeds admit no address.
pub uninterp spec fn program_address(seeds: Seq<Seq<u8>>, program_id: Seq<u8>) -> Option<(Seq<u8>, u8)>;

/// A derived address and its bump seed as plain values.
pub open spec fn derived_view(derived: Option<(Address, u8)>) -> Option<(Seq<u8>, u8)> {
    match derived {
        Some((address, bump)) => Some((address@, bump)),
        None => None,
    }
}

/// Whether an address was derived, and it is `key`.
pub open spec fn derives_to(derived: Option<(Seq<u8>, u8)>, key: Seq<u8>) -> bool {
    match derived {
        Some((address, _)) => address == key,
        None => false,
    }
}

/// The bump seed of a derived address.
pub open spec fn bump_of(derived: Option<(Seq<u8>, u8)>) -> u8 {
    match derived {
        Some((_, bump)) => bump,
        None => 0,
    }
}

/// A list of seeds as plain values.
pub open spec fn seeds_view(seeds: Seq<Vec<u8>>) -> Seq<Seq<u8>> {
    Seq::new(seeds.len(), |i: int| seeds[i]@)
}

/// The seeds of the configuration's address.
pub open spec fn marketplace_seeds() -> Seq<Seq<u8>> {
    seq![MARKETPLACE_SEED@]
}

/// The seeds of the address of the listing of the asset `nft_mint`.
pub open spec fn listing_seeds(nft_mint: Seq<u8>) -> Seq<Seq<u8>> {
    seq![LISTING_SEED@, nft_mint]
}

/// Calls `Pubkey::try_find_program_address`, the ledger's own search for a
/// program-derived address, which `anchor_lang` hands on from
/// `solana_program`. Trusted, not proved: the result is what that search
/// returns for these seeds and this program, the address with its bump seed
/// or `None` where it finds none, and it depends on the seeds and the
/// program's identity alone.
#[verifier::external_body]
fn find_program_address(seeds: &Vec<Vec<u8>>, program_id: &Address) -> (r: Option<(Address, u8)>)
    ensures
        derived_view(r) == program_address(seeds_view(seeds@), program_id@),
{
    let parts: Vec<&[u8]> = seeds.iter().map(|seed| seed.as_slice()).collect();
    let id = anchor_lang::prelude::Pubkey::new_from_array(program_id.bytes);
    match anchor_lang::prelude::Pubkey::try_find_program_address(&parts, &id) {
        Some((key, bump)) => Some((Address { bytes: key.to_bytes() }, bump)),
        None => None,
    }
}

/// The bytes of a fixed-size seed as a vector.
fn seed_bytes<const N: usize>(seed: &[u8; N]) -> (v: Vec<u8>)
    ensures
        v@ == seed@,
{
    let mut v: Vec<u8> = Vec::new();
    let mut i: usize = 0;
    while i < N
        invariant
            i <= N,
            v@ == seed@.take(i as int),
        decreases N - i,
    {
        v.push(seed[i]);
        i += 1;
    }
    v
}

/// The address of the marketplace configuration and its bump seed, where the
/// ledger derives one.
pub fn marketplace_address() -> (r: Option<(Address, u8)>)
    ensures
        derived_view(r) == program_address(marketplace_seeds(), PROGRAM_ID@),
{
    let mut seeds: Vec<Vec<u8>> = Vec::new();
    seeds.push(seed_bytes(&MARKETPLACE_SEED));
    let program_id = Address::new(PROGRAM_ID);
    assert(seeds_view(seeds@) =~= marketplace_seeds());
    find_program_address(&seeds, &program_id)
}

/// The address of the listing of the asset `nft_mint` and its bump seed,
/// where the ledger derives one. One asset has at most one such address.
pub fn listing_address(nft_mint: &Address) -> (r: Option<(Address, u8)>)
    ensures
        derived_view(r) == program_address(listing_seeds(nft_mint@), PROGRAM_ID@),
{
    let mut seeds: Vec<Vec<u8>> = Vec::new();
    seeds.push(seed_bytes(&LISTING_SEED));
    seeds.push(nft_mint.to_vec());
    let program_id = Address::new(PROGRAM_ID);
    assert(seeds_view(seeds@) =~= listing_seeds(nft_mint@));
    find_program_address(&seeds, &program_id)
}

} // verus!
