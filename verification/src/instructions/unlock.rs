use crate::address::Address;
use crate::authority::{vault_address_verified, verify_vault_address};
use crate::error::VaultError;
use crate::state::Vault;
use vstd::prelude::*;

verus! {

/// What an unlock is asked with: the vault record and where it was found,
/// and the caller.
#[derive(Clone, Copy, Debug)]
pub struct UnlockVault {
    pub vault_key: Address,
    pub vault: Vault,
    pub authority: Address,
}

/// The vault record after an unlock: not locked, and no time lock in
/// effect.
pub open spec fn unlocked(vault: Vault) -> Vault {
    Vault { is_locked: false, unlock_timestamp: 0, ..vault }
}

/// What an unlock at time `now` comes to, given whether the vault record
/// sits at the address derived for its owner: the new vault record, or the
/// refusal.
///
/// The guards apply in this order: the caller is the owner; the time lock
/// has run out, that is, `now` is not before the unlock time; the record
/// sits at its address.
pub open spec fn unlock_outcome(ctx: UnlockVault, now: i64, vault_ok: bool) -> Result<
    Vault,
    VaultError,
> {
    if ctx.authority != ctx.vault.authority {
        Err(VaultError::UnauthorizedAccess)
    } else if now < ctx.vault.unlock_timestamp {
        Err(VaultError::VaultStillLocked)
    } else if !vault_ok {
        Err(VaultError::AuthorizationError)
    } else {
        Ok(unlocked(ctx.vault))
    }
}

/// Decides an unlock from the context, the time and the address check, and
/// carries it out on the context; see [`unlock_outcome`]. A refusal leaves
/// the context as it was.
pub fn decide_unlock(ctx: &mut UnlockVault, now: i64, vault_ok: bool) -> (r: Result<(), VaultError>)
    ensures
        match unlock_outcome(*old(ctx), now, vault_ok) {
            Ok(vault) => r is Ok && *final(ctx) == (UnlockVault { vault, ..*old(ctx) }),
            Err(e) => r == Err::<(), VaultError>(e) && *final(ctx) == *old(ctx),
        },
{
    if ctx.authority != ctx.vault.authority {
        return Err(VaultError::UnauthorizedAccess);
    }
    if now < ctx.vault.unlock_timestamp {
        return Err(VaultError::VaultStillLocked);
    }
    if !vault_ok {
        return Err(VaultError::AuthorizationError);
    }
    ctx.vault.is_locked = false;
    ctx.vault.unlock_timestamp = 0;
    Ok(())
}

/// Unlocks the vault at time `now`: recomputes the vault's address and
/// decides as [`unlock_outcome`] says. A refusal leaves the context as it
/// was.
pub fn unlock_vault(ctx: &mut UnlockVault, now: i64) -> (r: Result<(), VaultError>)
    ensures
        match unlock_outcome(
            *old(ctx),
            now,
            vault_address_verified(old(ctx).authority, old(ctx).vault_key, old(ctx).vault.bump),
        ) {
            Ok(vault) => r is Ok && *final(ctx) == (UnlockVault { vault, ..*old(ctx) }),
            Err(e) => r == Err::<(), VaultError>(e) && *final(ctx) == *old(ctx),
        },
{
    let vault_ok = verify_vault_address(&ctx.authority, &ctx.vault_key, ctx.vault.bump);
    decide_unlock(ctx, now, vault_ok)
}

/// An unlock by anyone but the owner is refused as unauthorised, at any
/// time.
pub proof fn lemma_unlock_needs_owner(ctx: UnlockVault, now: i64, vault_ok: bool)
    requires
        ctx.authority != ctx.vault.authority,
    ensures
        unlock_outcome(ctx, now, vault_ok) == Err::<Vault, VaultError>(
            VaultError::UnauthorizedAccess,
        ),
{
}

/// An unlock by the owner before the unlock time is refused as locked. At
/// the unlock time and after it, on a vault record that sits at its
/// address, it goes through: the vault is unlocked and its unlock time is
/// back at 0.
pub proof fn lemma_unlock_waits_for_time(ctx: UnlockVault, now: i64, vault_ok: bool)
    requires
        ctx.authority == ctx.vault.authority,
    ensures
        now < ctx.vault.unlock_timestamp ==> unlock_outcome(ctx, now, vault_ok) == Err::<
            Vault,
            VaultError,
        >(VaultError::VaultStillLocked),
        now >= ctx.vault.unlock_timestamp && vault_ok ==> unlock_outcome(ctx, now, vault_ok)
            == Ok::<Vault, VaultError>(unlocked(ctx.vault)),
        unlocked(ctx.vault).unlock_timestamp == 0 && !unlocked(ctx.vault).is_locked,
{
}

} // verus!
