use crate::address::Address;
use crate::authority::{
    authority_verified, vault_address_verified, verify_authority, verify_vault_address,
};
use crate::error::VaultError;
use crate::ledger::{LedgerTransfer, SignerSeeds, TokenAccount, Transfer};
use crate::state::Vault;
use vstd::prelude::*;

verus! {

/// What a withdrawal is asked with: the vault record and where it was
/// found, the vault's signing authority as the caller names it, the
/// caller's account, the custody account, and the caller.
#[derive(Clone, Copy, Debug)]
pub struct Withdraw {
    pub vault_key: Address,
    pub vault: Vault,
    pub vault_authority: Address,
    pub user_token_account: TokenAccount,
    pub vault_token_account: TokenAccount,
    pub authority: Address,
}

/// What a withdrawal comes to, given whether the vault record sits at the
/// address derived for its owner (`vault_ok`) and whether the named
/// authority is the one derived for the vault (`authority_ok`).
///
/// The guards apply in this order: the caller is the owner; the vault is
/// not locked; the record sits at its address; the authority verifies; the
/// receiving account is the caller's; the paying account is the vault's
/// custody account; the amount is not zero; custody holds the amount. Then
/// custody pays the caller, and the program signs as the derived authority.
pub open spec fn withdraw_outcome(
    ctx: Withdraw,
    amount: u64,
    vault_ok: bool,
    authority_ok: bool,
) -> Result<LedgerTransfer, VaultError> {
    if ctx.authority != ctx.vault.authority {
        Err(VaultError::UnauthorizedAccess)
    } else if ctx.vault.is_locked {
        Err(VaultError::VaultStillLocked)
    } else if !vault_ok {
        Err(VaultError::AuthorizationError)
    } else if !authority_ok {
        Err(VaultError::AuthorizationError)
    } else if ctx.user_token_account.owner != ctx.authority {
        Err(VaultError::UnauthorizedAccess)
    } else if ctx.vault_token_account.key != ctx.vault.token_account {
        Err(VaultError::UnauthorizedAccess)
    } else if amount == 0 {
        Err(VaultError::InvalidAmount)
    } else if ctx.vault_token_account.amount < amount {
        Err(VaultError::InsufficientFunds)
    } else {
        Ok(
            LedgerTransfer::derived(
                ctx.vault_token_account.key,
                ctx.user_token_account.key,
                ctx.vault_authority,
                ctx.vault_key,
                ctx.vault.authority_bump,
                amount,
            ),
        )
    }
}

/// Decides a withdrawal from the context and the two address checks; see
/// [`withdraw_outcome`]. The vault record is not changed by a withdrawal.
pub fn decide_withdraw(ctx: &Withdraw, amount: u64, vault_ok: bool, authority_ok: bool) -> (r:
    Result<LedgerTransfer, VaultError>)
    ensures
        r == withdraw_outcome(*ctx, amount, vault_ok, authority_ok),
{
    if ctx.authority != ctx.vault.authority {
        return Err(VaultError::UnauthorizedAccess);
    }
    if ctx.vault.is_locked {
        return Err(VaultError::VaultStillLocked);
    }
    if !vault_ok {
        return Err(VaultError::AuthorizationError);
    }
    if !authority_ok {
        return Err(VaultError::AuthorizationError);
    }
    if ctx.user_token_account.owner != ctx.authority {
        return Err(VaultError::UnauthorizedAccess);
    }
    if ctx.vault_token_account.key != ctx.vault.token_account {
        return Err(VaultError::UnauthorizedAccess);
    }
    if amount == 0 {
        return Err(VaultError::InvalidAmount);
    }
    if ctx.vault_token_account.amount < amount {
        return Err(VaultError::InsufficientFunds);
    }
    Ok(
        LedgerTransfer {
            accounts: Transfer {
                from: ctx.vault_token_account.key,
                to: ctx.user_token_account.key,
                authority: ctx.vault_authority,
            },
            signer: Some(SignerSeeds { vault: ctx.vault_key, bump: ctx.vault.authority_bump }),
            amount,
        },
    )
}

/// Withdraws `amount` from the vault's custody account to the caller's
/// account: recomputes the vault's address and its signing authority, and
/// decides as [`withdraw_outcome`] says. On `Ok` the ledger is to carry out
/// the returned transfer; on `Err` nothing is to happen.
pub fn withdraw(ctx: &Withdraw, amount: u64) -> (r: Result<LedgerTransfer, VaultError>)
    ensures
        r == withdraw_outcome(
            *ctx,
            amount,
            vault_address_verified(ctx.authority, ctx.vault_key, ctx.vault.bump),
            authority_verified(ctx.vault_key, ctx.vault_authority, ctx.vault.authority_bump),
        ),
{
    let vault_ok = verify_vault_address(&ctx.authority, &ctx.vault_key, ctx.vault.bump);
    let authority_ok = verify_authority(
        &ctx.vault_key,
        &ctx.vault_authority,
        ctx.vault.authority_bump,
    );
    decide_withdraw(ctx, amount, vault_ok, authority_ok)
}

/// A withdrawal by anyone but the owner is refused as unauthorised,
/// whatever the amount and whatever state the vault is in.
pub proof fn lemma_withdraw_needs_owner(
    ctx: Withdraw,
    amount: u64,
    vault_ok: bool,
    authority_ok: bool,
)
    requires
        ctx.authority != ctx.vault.authority,
    ensures
        withdraw_outcome(ctx, amount, vault_ok, authority_ok) == Err::<LedgerTransfer, VaultError>(
            VaultError::UnauthorizedAccess,
        ),
{
}

/// While the vault is locked, a withdrawal by its owner is refused as
/// locked, whatever the amount.
pub proof fn lemma_locked_vault_refuses_withdrawal(
    ctx: Withdraw,
    amount: u64,
    vault_ok: bool,
    authority_ok: bool,
)
    requires
        ctx.authority == ctx.vault.authority,
        ctx.vault.is_locked,
    ensures
        withdraw_outcome(ctx, amount, vault_ok, authority_ok) == Err::<LedgerTransfer, VaultError>(
            VaultError::VaultStillLocked,
        ),
{
}

/// A withdrawal by the owner from an unlocked vault under an authority
/// that does not verify, or on a vault record that does not sit at its
/// address, is refused as an authorization error, whatever the amount,
/// whatever custody holds and whatever accounts are named.
pub proof fn lemma_withdrawal_fails_closed(
    ctx: Withdraw,
    amount: u64,
    vault_ok: bool,
    authority_ok: bool,
)
    requires
        ctx.authority == ctx.vault.authority,
        !ctx.vault.is_locked,
        !vault_ok || !authority_ok,
    ensures
        withdraw_outcome(ctx, amount, vault_ok, authority_ok) == Err::<LedgerTransfer, VaultError>(
            VaultError::AuthorizationError,
        ),
{
}

/// A withdrawal that is decided pays out of the vault's custody account to
/// the caller's account, no more than custody holds, and never in the name
/// of the caller: the derived authority authorises it.
pub proof fn lemma_withdrawal_pays_from_custody(
    ctx: Withdraw,
    amount: u64,
    vault_ok: bool,
    authority_ok: bool,
)
    requires
        withdraw_outcome(ctx, amount, vault_ok, authority_ok) is Ok,
    ensures
        ({
            let t = withdraw_outcome(ctx, amount, vault_ok, authority_ok)->Ok_0;
            &&& t.accounts.from == ctx.vault.token_account
            &&& t.accounts.to == ctx.user_token_account.key
            &&& t.accounts.authority == ctx.vault_authority
            &&& t.signer == Some(SignerSeeds { vault: ctx.vault_key, bump: ctx.vault.authority_bump })
            &&& 0 < t.amount == amount <= ctx.vault_token_account.amount
            &&& !ctx.vault.is_locked
            &&& ctx.authority == ctx.vault.authority
            &&& vault_ok
            &&& authority_ok
        }),
{
}

} // verus!
