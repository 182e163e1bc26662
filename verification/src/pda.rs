use crate::address::Address;
use anchor_lang::prelude::Pubkey;
use vstd::prelude::*;

verus! {

/// The address that the program owns under the given seeds, if the seeds
/// have one: what `Pubkey::create_program_address` returns for them, with
/// every error read as "no address".
pub uninterp spec fn program_address(seeds: Seq<Seq<u8>>, program_id: Seq<u8>) -> Option<Seq<u8>>;

/// The byte strings that a list of seeds holds.
pub open spec fn seed_bytes(seeds: Seq<Vec<u8>>) -> Seq<Seq<u8>> {
    Seq::new(seeds.len(), |i: int| seeds[i]@)
}

/// The seeds with a one-byte bump seed behind them.
pub open spec fn with_bump(seeds: Seq<Seq<u8>>, bump: u8) -> Seq<Seq<u8>> {
    seeds.push(seq![bump])
}

/// The bytes of an address, where there is one.
pub open spec fn address_bytes(a: Option<Address>) -> Option<Seq<u8>> {
    match a {
        Some(a) => Some(a@),
        None => None,
    }
}

/// What searching for a bump seed yields: the highest bump from 255 down to
/// 1 under which the seeds have an address, with that address.
pub open spec fn is_canonical(
    seeds: Seq<Seq<u8>>,
    program_id: Seq<u8>,
    found: Option<(Address, u8)>,
) -> bool {
    match found {
        Some((a, b)) => {
            &&& b >= 1
            &&& program_address(with_bump(seeds, b), program_id) == Some(a@)
            &&& forall|c: u8| b < c ==> program_address(with_bump(seeds, c), program_id) is None
        },
        None => forall|c: u8| 1 <= c ==> program_address(with_bump(seeds, c), program_id) is None,
    }
}

/// The address and bump seed that a search under the seeds finds.
pub open spec fn canonical_address(seeds: Seq<Seq<u8>>, program_id: Seq<u8>) -> Option<
    (Address, u8),
> {
    choose|found: Option<(Address, u8)>| is_canonical(seeds, program_id, found)
}

/// A search under given seeds has one result only: whatever meets
/// [`is_canonical`] is the canonical address with its bump seed.
pub proof fn lemma_canonical_unique(
    seeds: Seq<Seq<u8>>,
    program_id: Seq<u8>,
    found: Option<(Address, u8)>,
)
    requires
        is_canonical(seeds, program_id, found),
    ensures
        found == canonical_address(seeds, program_id),
        is_canonical(seeds, program_id, canonical_address(seeds, program_id)),
{
    let other = canonical_address(seeds, program_id);
    assert(is_canonical(seeds, program_id, other));
    match (found, other) {
        (Some((a1, b1)), Some((a2, b2))) => {
            if b1 < b2 {
                assert(program_address(with_bump(seeds, b2), program_id) is None);
            }
            if b2 < b1 {
                assert(program_address(with_bump(seeds, b1), program_id) is None);
            }
            crate::address::lemma_address_by_bytes(a1, a2);
        },
        (Some((a1, b1)), None) => {
            assert(program_address(with_bump(seeds, b1), program_id) is None);
        },
        (None, Some((a2, b2))) => {
            assert(program_address(with_bump(seeds, b2), program_id) is None);
        },
        (None, None) => {},
    }
}

/// Calls `Pubkey::create_program_address` of solana-pubkey, which hashes the
/// seeds, the program id and a fixed marker and refuses a hash that lies on
/// the ed25519 curve, as well as more than 16 seeds or a seed of more than
/// 32 bytes. Trusted: the result is the named address of these seeds, `None`
/// where the call fails.
#[verifier::external_body]
pub(crate) fn create_program_address(seeds: &Vec<Vec<u8>>, program_id: &Address) -> (r: Option<
    Address,
>)
    ensures
        address_bytes(r) == program_address(seed_bytes(seeds@), program_id@),
{
    let parts: Vec<&[u8]> = seeds.iter().map(|s| s.as_slice()).collect();
    match Pubkey::create_program_address(&parts, &Pubkey::new_from_array(program_id.bytes)) {
        Ok(key) => Some(Address { bytes: key.to_bytes() }),
        Err(_) => None,
    }
}

/// Calls `Pubkey::try_find_program_address` of solana-pubkey, which tries
/// `create_program_address` on the seeds followed by the bump seed 255, then
/// 254 and so on down to 1, and returns the first address that it gets with
/// its bump; it returns `None` when no bump gives one. Trusted: the result
/// is that first hit.
#[verifier::external_body]
pub(crate) fn try_find_program_address(seeds: &Vec<Vec<u8>>, program_id: &Address) -> (r: Option<
    (Address, u8),
>)
    ensures
        is_canonical(seed_bytes(seeds@), program_id@, r),
{
    let parts: Vec<&[u8]> = seeds.iter().map(|s| s.as_slice()).collect();
    match Pubkey::try_find_program_address(&parts, &Pubkey::new_from_array(program_id.bytes)) {
        Some((key, bump)) => Some((Address { bytes: key.to_bytes() }, bump)),
        None => None,
    }
}

} // verus!
