use crate::address::Address;
use crate::authority::{vault_address_verified, verify_vault_address};
use crate::error::VaultError;
use crate::state::Vault;
use vstd::prelude::*;

verus! {

/// What a lock is asked with: the vault record and where it was found, and
/// the caller.
#[derive(Clone, Copy, Debug)]
pub struct LockVault {
    pub vault_key: Address,
    pub vault: Vault,
    pub authority: Address,
}

/// The vault record after a lock until `unlock_timestamp`.
pub open spec fn locked(vault: Vault, unlock_timestamp: i64) -> Vault {
    Vault { is_locked: true, unlock_timestamp, ..vault }
}

/// What a lock until `unlock_timestamp` comes to, given whether the vault
/// record sits at the address derived for its owner: the new vault record,
/// or the refusal.
///
/// The guards apply in this order: the caller is the owner; the record sits
/// at its address. The unlock time is taken as it is: one that has passed
/// already makes a lock that can be lifted at once.
pub open spec fn lock_outcome(ctx: LockVault, unlock_timestamp: i64, vault_ok: bool) -> Result<
    Vault,
    VaultError,
> {
    if ctx.authority != ctx.vault.authority {
        Err(VaultError::UnauthorizedAccess)
    } else if !vault_ok {
        Err(VaultError::AuthorizationError)
    } else {
        Ok(locked(ctx.vault, unlock_timestamp))
    }
}

/// Decides a lock from the context and the address check, and carries it
/// out on the context; see [`lock_outcome`]. A refusal leaves the context
/// as it was.
pub fn decide_lock(ctx: &mut LockVault, unlock_timestamp: i64, vault_ok: bool) -> (r: Result<
    (),
    VaultError,
>)
    ensures
        match lock_outcome(*old(ctx), unlock_timestamp, vault_ok) {
            Ok(vault) => r is Ok && *final(ctx) == (LockVault { vault, ..*old(ctx) }),
            Err(e) => r == Err::<(), VaultError>(e) && *final(ctx) == *old(ctx),
        },
{
    if ctx.authority != ctx.vault.authority {
        return Err(VaultError::UnauthorizedAccess);
    }
    if !vault_ok {
        return Err(VaultError::AuthorizationError);
    }
    ctx.vault.is_locked = true;
    ctx.vault.unlock_timestamp = unlock_timestamp;
    Ok(())
}

/// Locks the vault until `unlock_timestamp`: recomputes the vault's address
/// and decides as [`lock_outcome`] says. A refusal leaves the context as it
/// was.
pub fn lock_vault(ctx: &mut LockVault, unlock_timestamp: i64) -> (r: Result<(), VaultError>)
    ensures
        match lock_outcome(
            *old(ctx),
            unlock_timestamp,
            vault_address_verified(old(ctx).authority, old(ctx).vault_key, old(ctx).vault.bump),
        ) {
            Ok(vault) => r is Ok && *final(ctx) == (LockVault { vault, ..*old(ctx) }),
            Err(e) => r == Err::<(), VaultError>(e) && *final(ctx) == *old(ctx),
        },
{
    let vault_ok = verify_vault_address(&ctx.authority, &ctx.vault_key, ctx.vault.bump);
    decide_lock(ctx, unlock_timestamp, vault_ok)
}

/// A lock by anyone but the owner is refused as unauthorised.
pub proof fn lemma_lock_needs_owner(ctx: LockVault, unlock_timestamp: i64, vault_ok: bool)
    requires
        ctx.authority != ctx.vault.authority,
    ensures
        lock_outcome(ctx, unlock_timestamp, vault_ok) == Err::<Vault, VaultError>(
            VaultError::UnauthorizedAccess,
        ),
{
}

/// A lock by the owner of a vault whose record does not sit at its address
/// is refused as an authorization error.
pub proof fn lemma_lock_fails_closed(ctx: LockVault, unlock_timestamp: i64)
    requires
        ctx.authority == ctx.vault.authority,
    ensures
        lock_outcome(ctx, unlock_timestamp, false) == Err::<Vault, VaultError>(
            VaultError::AuthorizationError,
        ),
{
}

} // verus!
