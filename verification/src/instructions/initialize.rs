use crate::address::Address;
use crate::authority::{
    authority_seeds, authority_verified, derive_authority, derive_vault_address,
    derived_authority, derived_vault_address, program_id_bytes, vault_address_verified,
    vault_seeds,
};
use crate::error::VaultError;
use crate::pda::is_canonical;
use crate::state::Vault;
use vstd::prelude::*;

verus! {

/// What setting up a vault is asked with: where the vault record is to be
/// kept and what is kept there now, the vault's signing authority as the
/// caller names it, the custody account, and the caller, who becomes the
/// owner.
#[derive(Clone, Copy, Debug)]
pub struct InitializeVault {
    pub vault_key: Address,
    pub vault: Option<Vault>,
    pub vault_authority: Address,
    pub token_account: Address,
    pub payer: Address,
}

/// Whether a search for an address found `key` with `bump`.
pub open spec fn found_with_bump(found: Option<(Address, u8)>, key: Address, bump: u8) -> bool {
    found matches Some((a, b)) && a == key && b == bump
}

/// Whether a search for an address found `key` with `bump`. A search that
/// found nothing matches nothing.
pub fn found_matches_with_bump(found: &Option<(Address, u8)>, key: &Address, bump: u8) -> (r: bool)
    ensures
        r == found_with_bump(*found, *key, bump),
{
    match found {
        Some((a, b)) => *a == *key && *b == bump,
        None => false,
    }
}

/// What setting up a vault comes to, given what the search for the vault
/// record's address under the caller found (`vault_found`) and what the
/// search for the signing authority of the vault at that place found
/// (`authority_found`): the new vault record, or the refusal.
///
/// The guards apply in this order: no vault record is there yet; the place
/// of the record is the address derived for the caller, and `bump` is the
/// bump seed derived with it; the named authority is the authority derived
/// for the vault, and `authority_bump` is the bump seed derived with it.
/// The new vault is unlocked, has no time lock and nothing staked, and
/// keeps both bump seeds.
pub open spec fn initialize_outcome(
    ctx: InitializeVault,
    bump: u8,
    authority_bump: u8,
    vault_found: Option<(Address, u8)>,
    authority_found: Option<(Address, u8)>,
) -> Result<Vault, VaultError> {
    if ctx.vault is Some {
        Err(VaultError::AlreadyExists)
    } else if !found_with_bump(vault_found, ctx.vault_key, bump) {
        Err(VaultError::AuthorizationError)
    } else if !found_with_bump(authority_found, ctx.vault_authority, authority_bump) {
        Err(VaultError::AuthorizationError)
    } else {
        Ok(Vault::fresh(ctx.payer, ctx.token_account, bump, authority_bump))
    }
}

/// Decides the setting up of a vault from the context and the two address
/// searches, and carries it out on the context; see
/// [`initialize_outcome`]. A refusal leaves the context as it was.
pub fn decide_initialize(
    ctx: &mut InitializeVault,
    bump: u8,
    authority_bump: u8,
    vault_found: Option<(Address, u8)>,
    authority_found: Option<(Address, u8)>,
) -> (r: Result<(), VaultError>)
    ensures
        match initialize_outcome(*old(ctx), bump, authority_bump, vault_found, authority_found) {
            Ok(vault) => r is Ok && *final(ctx) == (InitializeVault {
                vault: Some(vault),
                ..*old(ctx)
            }),
            Err(e) => r == Err::<(), VaultError>(e) && *final(ctx) == *old(ctx),
        },
{
    if ctx.vault.is_some() {
        return Err(VaultError::AlreadyExists);
    }
    if !found_matches_with_bump(&vault_found, &ctx.vault_key, bump) {
        return Err(VaultError::AuthorizationError);
    }
    if !found_matches_with_bump(&authority_found, &ctx.vault_authority, authority_bump) {
        return Err(VaultError::AuthorizationError);
    }
    ctx.vault = Some(
        Vault {
            authority: ctx.payer,
            token_account: ctx.token_account,
            bump,
            authority_bump,
            is_locked: false,
            unlock_timestamp: 0,
            total_staked: 0,
        },
    );
    Ok(())
}

/// Sets up the vault of the caller: searches for the address of the
/// caller's vault record and for the signing authority of the vault at the
/// place named, and decides as [`initialize_outcome`] says. On `Ok` the
/// place and the authority are those derived, each with its bump seed. A
/// refusal leaves the context as it was.
pub fn initialize_vault(ctx: &mut InitializeVault, bump: u8, authority_bump: u8) -> (r: Result<
    (),
    VaultError,
>)
    ensures
        match initialize_outcome(
            *old(ctx),
            bump,
            authority_bump,
            derived_vault_address(old(ctx).payer),
            derived_authority(old(ctx).vault_key),
        ) {
            Ok(vault) => r is Ok && *final(ctx) == (InitializeVault {
                vault: Some(vault),
                ..*old(ctx)
            }),
            Err(e) => r == Err::<(), VaultError>(e) && *final(ctx) == *old(ctx),
        },
        r is Ok ==> derived_vault_address(old(ctx).payer) == Some((old(ctx).vault_key, bump))
            && derived_authority(old(ctx).vault_key) == Some(
            (old(ctx).vault_authority, authority_bump),
        ),
{
    let vault_found = derive_vault_address(&ctx.payer);
    let authority_found = derive_authority(&ctx.vault_key);
    decide_initialize(ctx, bump, authority_bump, vault_found, authority_found)
}

/// A vault that was set up is fresh, belongs to the caller, and keeps the
/// pairs that were derived: its place verifies for the owner, and its
/// authority for the vault, each under the bump seed that the record
/// keeps, so that every later operation finds them again.
pub proof fn lemma_fresh_vault_verifies(
    ctx: InitializeVault,
    bump: u8,
    authority_bump: u8,
    vault_found: Option<(Address, u8)>,
    authority_found: Option<(Address, u8)>,
)
    requires
        is_canonical(vault_seeds(ctx.payer), program_id_bytes(), vault_found),
        is_canonical(authority_seeds(ctx.vault_key), program_id_bytes(), authority_found),
        initialize_outcome(ctx, bump, authority_bump, vault_found, authority_found) is Ok,
    ensures
        ({
            let vault = initialize_outcome(
                ctx,
                bump,
                authority_bump,
                vault_found,
                authority_found,
            )->Ok_0;
            &&& vault.authority == ctx.payer
            &&& vault.token_account == ctx.token_account
            &&& !vault.is_locked
            &&& vault.unlock_timestamp == 0
            &&& vault.total_staked == 0
            &&& vault_found == Some((ctx.vault_key, vault.bump))
            &&& authority_found == Some((ctx.vault_authority, vault.authority_bump))
            &&& vault_address_verified(vault.authority, ctx.vault_key, vault.bump)
            &&& authority_verified(ctx.vault_key, ctx.vault_authority, vault.authority_bump)
        }),
{
}

/// Where a vault is set up, its place, its authority and both bump seeds
/// hang on the owner alone: two set-ups by one owner that go through name
/// the same place and the same authority, and keep the same bump seeds.
pub proof fn lemma_set_up_hangs_on_owner(
    first: InitializeVault,
    first_bump: u8,
    first_authority_bump: u8,
    second: InitializeVault,
    second_bump: u8,
    second_authority_bump: u8,
)
    requires
        first.payer == second.payer,
        initialize_outcome(
            first,
            first_bump,
            first_authority_bump,
            derived_vault_address(first.payer),
            derived_authority(first.vault_key),
        ) is Ok,
        initialize_outcome(
            second,
            second_bump,
            second_authority_bump,
            derived_vault_address(second.payer),
            derived_authority(second.vault_key),
        ) is Ok,
    ensures
        first.vault_key == second.vault_key,
        first_bump == second_bump,
        first.vault_authority == second.vault_authority,
        first_authority_bump == second_authority_bump,
{
}

/// Setting up a vault where a vault record is kept already is refused as
/// already there, whatever else is asked.
pub proof fn lemma_vault_is_set_up_once(
    ctx: InitializeVault,
    bump: u8,
    authority_bump: u8,
    vault_found: Option<(Address, u8)>,
    authority_found: Option<(Address, u8)>,
)
    requires
        ctx.vault is Some,
    ensures
        initialize_outcome(ctx, bump, authority_bump, vault_found, authority_found) == Err::<
            Vault,
            VaultError,
        >(VaultError::AlreadyExists),
{
}

} // verus!
