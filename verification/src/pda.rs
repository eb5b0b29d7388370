//! Deterministic derivation of program-owned addresses from seed parts and
//! the identity of the owning program.

use vstd::prelude::*;
use anchor_lang::prelude::Pubkey;
use crate::address::Address;

verus! {

/// Seed phrase of the sending-authority delegate: the bytes of
/// `sender_authority`.
pub const SENDER_AUTHORITY_SEED: [u8; 16] = [
    115, 101, 110, 100, 101, 114, 95, 97, 117, 116, 104, 111, 114, 105, 116, 121,
];

/// Seed phrase of a deny-list entry: the bytes of `denylist_account`.
pub const DENYLIST_SEED: [u8; 16] = [
    100, 101, 110, 121, 108, 105, 115, 116, 95, 97, 99, 99, 111, 117, 110, 116,
];

/// Seed phrase of a local-asset registry: the bytes of `local_token`.
pub const LOCAL_TOKEN_SEED: [u8; 11] = [108, 111, 99, 97, 108, 95, 116, 111, 107, 101, 110];

/// What `Pubkey::try_find_program_address` returns for the seed parts `seeds`
/// and the program whose address has the bytes `program`: the derived address
/// with its bump seed, or `None` where no bump seed gives an address.
pub uninterp spec fn program_address(seeds: Seq<Seq<u8>>, program: Seq<u8>) -> Option<
    (Seq<u8>, u8),
>;

/// The seed parts as byte sequences, in order.
pub open spec fn seed_views(seeds: Seq<&[u8]>) -> Seq<Seq<u8>> {
    Seq::new(seeds.len(), |i: int| seeds[i]@)
}

/// The address derived from `seeds` under `program`, without its bump seed.
pub open spec fn derived_address(seeds: Seq<Seq<u8>>, program: Seq<u8>) -> Option<Seq<u8>> {
    match program_address(seeds, program) {
        Some((address, _)) => Some(address),
        None => None,
    }
}

/// Seed parts of the sending-authority delegate.
pub open spec fn sender_authority_seeds() -> Seq<Seq<u8>> {
    seq![SENDER_AUTHORITY_SEED@]
}

/// Seed parts of the deny-list entry of the caller at `payer`.
pub open spec fn denylist_seeds(payer: Seq<u8>) -> Seq<Seq<u8>> {
    seq![DENYLIST_SEED@, payer]
}

/// Seed parts of the local-asset registry of the asset at `mint`.
pub open spec fn local_token_seeds(mint: Seq<u8>) -> Seq<Seq<u8>> {
    seq![LOCAL_TOKEN_SEED@, mint]
}

/// Calls `Pubkey::try_find_program_address` of solana-pubkey (re-exported by
/// anchor-lang). Trusted: the result is the named `program_address` of the
/// seed parts and the program's bytes. The call hashes the parts, a bump seed
/// and the program's bytes, and searches the bump seeds downward for a hash
/// that is no curve point; it returns `None`, and does not panic, where the
/// parts are too many or too long or no bump seed is found.
#[verifier::external_body]
fn try_find_program_address(seeds: &[&[u8]], program: &Address) -> (found: Option<(Address, u8)>)
    ensures
        match found {
            Some((address, bump)) => program_address(seed_views(seeds@), program@) == Some(
                (address@, bump),
            ),
            None => program_address(seed_views(seeds@), program@) is None,
        },
{
    let id = Pubkey::new_from_array(program.bytes);
    match Pubkey::try_find_program_address(seeds, &id) {
        Some((key, bump)) => Some((Address { bytes: key.to_bytes() }, bump)),
        None => None,
    }
}

/// Derives the address that `owner_program_id` owns under `seed_parts`.
///
/// `None` where the derivation scheme yields no address for these inputs.
pub fn derive(seed_parts: &[&[u8]], owner_program_id: &Address) -> (derived: Option<Address>)
    ensures
        match derived {
            Some(address) => derived_address(seed_views(seed_parts@), owner_program_id@) == Some(
                address@,
            ),
            None => derived_address(seed_views(seed_parts@), owner_program_id@) is None,
        },
{
    match try_find_program_address(seed_parts, owner_program_id) {
        Some((address, _)) => Some(address),
        None => None,
    }
}

/// The sending-authority delegate of the program at `program`.
pub fn derive_sender_authority(program: &Address) -> (derived: Option<Address>)
    ensures
        match derived {
            Some(address) => derived_address(sender_authority_seeds(), program@) == Some(address@),
            None => derived_address(sender_authority_seeds(), program@) is None,
        },
{
    let seeds: [&[u8]; 1] = [SENDER_AUTHORITY_SEED.as_slice()];
    assert(seed_views(seeds@) =~= sender_authority_seeds());
    derive(seeds.as_slice(), program)
}

/// The deny-list entry that the program at `program` keeps for `payer`.
pub fn derive_denylist_account(payer: &Address, program: &Address) -> (derived: Option<Address>)
    ensures
        match derived {
            Some(address) => derived_address(denylist_seeds(payer@), program@) == Some(address@),
            None => derived_address(denylist_seeds(payer@), program@) is None,
        },
{
    let seeds: [&[u8]; 2] = [DENYLIST_SEED.as_slice(), payer.bytes.as_slice()];
    assert(seed_views(seeds@) =~= denylist_seeds(payer@));
    derive(seeds.as_slice(), program)
}

/// The local-asset registry that the program at `program` keeps for `mint`.
pub fn derive_local_token(mint: &Address, program: &Address) -> (derived: Option<Address>)
    ensures
        match derived {
            Some(address) => derived_address(local_token_seeds(mint@), program@) == Some(address@),
            None => derived_address(local_token_seeds(mint@), program@) is None,
        },
{
    let seeds: [&[u8]; 2] = [LOCAL_TOKEN_SEED.as_slice(), mint.bytes.as_slice()];
    assert(seed_views(seeds@) =~= local_token_seeds(mint@));
    derive(seeds.as_slice(), program)
}

} // verus!
