use crate::address::Address;
use crate::ledger::SignerSeeds;
use crate::pda::{
    canonical_address, create_program_address, is_canonical, lemma_canonical_unique,
    program_address, seed_bytes, try_find_program_address, with_bump,
};
use vstd::prelude::*;

verus! {

/// The bytes of the address under which the vault program is deployed.
pub open spec fn program_id_bytes() -> Seq<u8> {
    seq![
        207u8, 36, 89, 116, 195, 30, 199, 114, 191, 238, 75, 253, 13, 172, 87, 221,
        165, 39, 214, 181, 157, 38, 3, 86, 3, 185, 63, 193, 1, 62, 240, 148,
    ]
}

/// The tag `vault`, under which a vault record's address is derived.
pub open spec fn vault_tag() -> Seq<u8> {
    seq![118u8, 97, 117, 108, 116]
}

/// The tag `authority`, under which a vault's signing authority is derived.
pub open spec fn authority_tag() -> Seq<u8> {
    seq![97u8, 117, 116, 104, 111, 114, 105, 116, 121]
}

/// The tag `user-stake`, under which a stake record's address is derived.
pub open spec fn stake_tag() -> Seq<u8> {
    seq![117u8, 115, 101, 114, 45, 115, 116, 97, 107, 101]
}

/// The seeds of the vault record that belongs to an owner.
pub open spec fn vault_seeds(owner: Address) -> Seq<Seq<u8>> {
    seq![vault_tag(), owner@]
}

/// The seeds of the signing authority of the vault at an address.
pub open spec fn authority_seeds(vault_key: Address) -> Seq<Seq<u8>> {
    seq![authority_tag(), vault_key@]
}

/// The seeds of the stake record of a staker in the vault at an address.
pub open spec fn stake_seeds(staker: Address, vault_key: Address) -> Seq<Seq<u8>> {
    seq![stake_tag(), staker@, vault_key@]
}

/// The signing authority of the vault at `vault_key`, with its bump seed.
pub open spec fn derived_authority(vault_key: Address) -> Option<(Address, u8)> {
    canonical_address(authority_seeds(vault_key), program_id_bytes())
}

/// The address of the vault record of `owner`, with its bump seed.
pub open spec fn derived_vault_address(owner: Address) -> Option<(Address, u8)> {
    canonical_address(vault_seeds(owner), program_id_bytes())
}

/// The address of the stake record of `staker` in the vault at `vault_key`,
/// with its bump seed.
pub open spec fn derived_stake_address(staker: Address, vault_key: Address) -> Option<
    (Address, u8),
> {
    canonical_address(stake_seeds(staker, vault_key), program_id_bytes())
}

/// Whether `claimed` is the address that the seeds have under `bump`.
pub open spec fn derives_to(seeds: Seq<Seq<u8>>, bump: u8, claimed: Address) -> bool {
    program_address(with_bump(seeds, bump), program_id_bytes()) == Some(claimed@)
}

/// Whether `claimed` with `bump` is the signing authority of the vault at
/// `vault_key`.
pub open spec fn authority_verified(vault_key: Address, claimed: Address, bump: u8) -> bool {
    derives_to(authority_seeds(vault_key), bump, claimed)
}

/// Whether `vault_key` is the address of the owner's vault record under
/// `bump`.
pub open spec fn vault_address_verified(owner: Address, vault_key: Address, bump: u8) -> bool {
    derives_to(vault_seeds(owner), bump, vault_key)
}

/// The address under which the vault program is deployed.
pub fn program_id() -> (r: Address)
    ensures
        r@ == program_id_bytes(),
{
    let r = Address {
        bytes: [
            207u8, 36, 89, 116, 195, 30, 199, 114, 191, 238, 75, 253, 13, 172, 87, 221,
            165, 39, 214, 181, 157, 38, 3, 86, 3, 185, 63, 193, 1, 62, 240, 148,
        ],
    };
    assert(r@ =~= program_id_bytes());
    r
}

fn vault_tag_bytes() -> (r: Vec<u8>)
    ensures
        r@ == vault_tag(),
{
    let r: Vec<u8> = vec![118u8, 97, 117, 108, 116];
    assert(r@ =~= vault_tag());
    r
}

fn authority_tag_bytes() -> (r: Vec<u8>)
    ensures
        r@ == authority_tag(),
{
    let r: Vec<u8> = vec![97u8, 117, 116, 104, 111, 114, 105, 116, 121];
    assert(r@ =~= authority_tag());
    r
}

fn stake_tag_bytes() -> (r: Vec<u8>)
    ensures
        r@ == stake_tag(),
{
    let r: Vec<u8> = vec![117u8, 115, 101, 114, 45, 115, 116, 97, 107, 101];
    assert(r@ =~= stake_tag());
    r
}

fn vault_seed_list(owner: &Address) -> (r: Vec<Vec<u8>>)
    ensures
        seed_bytes(r@) == vault_seeds(*owner),
{
    let mut r: Vec<Vec<u8>> = Vec::new();
    r.push(vault_tag_bytes());
    r.push(owner.to_vec());
    assert(seed_bytes(r@) =~= vault_seeds(*owner));
    r
}

fn authority_seed_list(vault_key: &Address) -> (r: Vec<Vec<u8>>)
    ensures
        seed_bytes(r@) == authority_seeds(*vault_key),
{
    let mut r: Vec<Vec<u8>> = Vec::new();
    r.push(authority_tag_bytes());
    r.push(vault_key.to_vec());
    assert(seed_bytes(r@) =~= authority_seeds(*vault_key));
    r
}

fn stake_seed_list(staker: &Address, vault_key: &Address) -> (r: Vec<Vec<u8>>)
    ensures
        seed_bytes(r@) == stake_seeds(*staker, *vault_key),
{
    let mut r: Vec<Vec<u8>> = Vec::new();
    r.push(stake_tag_bytes());
    r.push(staker.to_vec());
    r.push(vault_key.to_vec());
    assert(seed_bytes(r@) =~= stake_seeds(*staker, *vault_key));
    r
}

/// The seeds under which the program signs for a vault's derived
/// authority: the authority's seeds for the vault, with the bump seed
/// behind them.
pub fn signer_seed_list(signer: &SignerSeeds) -> (r: Vec<Vec<u8>>)
    ensures
        seed_bytes(r@) == with_bump(authority_seeds(signer.vault), signer.bump),
{
    let mut r = authority_seed_list(&signer.vault);
    let ghost before = r@;
    let bump_seed: Vec<u8> = vec![signer.bump];
    assert(bump_seed@ =~= seq![signer.bump]);
    r.push(bump_seed);
    assert(seed_bytes(r@) =~= with_bump(seed_bytes(before), signer.bump));
    r
}

/// Whether a derived address is there and is the claimed one. A derivation
/// that gave no address matches nothing.
pub fn address_matches(derived: Option<Address>, claimed: &Address) -> (r: bool)
    ensures
        r == (derived == Some(*claimed)),
{
    match derived {
        Some(a) => a == *claimed,
        None => false,
    }
}

/// Whether a search for a bump seed found an address, and found `key`.
pub open spec fn found_at(found: Option<(Address, u8)>, key: Address) -> bool {
    found matches Some((a, _)) && a == key
}

/// Whether a search for a bump seed found an address, and found `key`. A
/// search that found nothing matches nothing.
pub fn found_matches(found: &Option<(Address, u8)>, key: &Address) -> (r: bool)
    ensures
        r == found_at(*found, *key),
{
    match found {
        Some((a, _)) => *a == *key,
        None => false,
    }
}

fn verify_address(seeds: Vec<Vec<u8>>, bump: u8, claimed: &Address) -> (r: bool)
    ensures
        r == derives_to(seed_bytes(seeds@), bump, *claimed),
{
    let mut seeds = seeds;
    let ghost before = seeds@;
    let bump_seed: Vec<u8> = vec![bump];
    assert(bump_seed@ =~= seq![bump]);
    seeds.push(bump_seed);
    assert(seed_bytes(seeds@) =~= with_bump(seed_bytes(before), bump));
    let id = program_id();
    let derived = create_program_address(&seeds, &id);
    proof {
        if let Some(a) = derived {
            if a@ == claimed@ {
                crate::address::lemma_address_by_bytes(a, *claimed);
            }
        }
    }
    address_matches(derived, claimed)
}

/// Derives the signing authority of the vault at `vault_key`: its address
/// and the bump seed that goes with it, the highest under which the vault
/// has an authority. `None` where no bump seed gives one.
pub fn derive_authority(vault_key: &Address) -> (r: Option<(Address, u8)>)
    ensures
        r == derived_authority(*vault_key),
        is_canonical(authority_seeds(*vault_key), program_id_bytes(), r),
{
    let seeds = authority_seed_list(vault_key);
    let id = program_id();
    let found = try_find_program_address(&seeds, &id);
    proof {
        lemma_canonical_unique(seed_bytes(seeds@), id@, found);
    }
    found
}

/// Derives the address of the vault record of `owner`, with its bump seed.
pub fn derive_vault_address(owner: &Address) -> (r: Option<(Address, u8)>)
    ensures
        r == derived_vault_address(*owner),
        is_canonical(vault_seeds(*owner), program_id_bytes(), r),
{
    let seeds = vault_seed_list(owner);
    let id = program_id();
    let found = try_find_program_address(&seeds, &id);
    proof {
        lemma_canonical_unique(seed_bytes(seeds@), id@, found);
    }
    found
}

/// Derives the address of the stake record of `staker` in the vault at
/// `vault_key`, with its bump seed.
pub fn derive_stake_address(staker: &Address, vault_key: &Address) -> (r: Option<(Address, u8)>)
    ensures
        r == derived_stake_address(*staker, *vault_key),
        is_canonical(stake_seeds(*staker, *vault_key), program_id_bytes(), r),
{
    let seeds = stake_seed_list(staker, vault_key);
    let id = program_id();
    let found = try_find_program_address(&seeds, &id);
    proof {
        lemma_canonical_unique(seed_bytes(seeds@), id@, found);
    }
    found
}

/// Recomputes the signing authority of the vault at `vault_key` under the
/// claimed bump seed and compares it with the claimed address. Any mismatch,
/// and a bump seed under which there is no authority, give `false`.
pub fn verify_authority(vault_key: &Address, claimed_authority: &Address, claimed_bump: u8) -> (r:
    bool)
    ensures
        r == authority_verified(*vault_key, *claimed_authority, claimed_bump),
{
    verify_address(authority_seed_list(vault_key), claimed_bump, claimed_authority)
}

/// Recomputes the address of the vault record of `owner` under `bump` and
/// compares it with `vault_key`.
pub fn verify_vault_address(owner: &Address, vault_key: &Address, bump: u8) -> (r: bool)
    ensures
        r == vault_address_verified(*owner, *vault_key, bump),
{
    verify_address(vault_seed_list(owner), bump, vault_key)
}

/// An authority that was derived for a vault verifies for that vault, with
/// the bump seed that was derived along with it.
pub proof fn lemma_derived_authority_verifies(vault_key: Address, found: Option<(Address, u8)>)
    requires
        is_canonical(authority_seeds(vault_key), program_id_bytes(), found),
    ensures
        found matches Some((a, b)) ==> authority_verified(vault_key, a, b),
{
}

/// Under one bump seed a vault has at most one signing authority: two
/// addresses that both verify are the same.
pub proof fn lemma_authority_unique(vault_key: Address, a: Address, b: Address, bump: u8)
    requires
        authority_verified(vault_key, a, bump),
        authority_verified(vault_key, b, bump),
    ensures
        a == b,
{
    crate::address::lemma_address_by_bytes(a, b);
}

} // verus!
