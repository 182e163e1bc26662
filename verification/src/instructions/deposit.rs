use crate::address::Address;
use crate::authority::{vault_address_verified, verify_vault_address};
use crate::error::VaultError;
use crate::ledger::{LedgerTransfer, TokenAccount, Transfer};
use crate::state::Vault;
use vstd::prelude::*;

verus! {

/// What a deposit is asked with: the vault record and where it was found,
/// the caller's account, the custody account, and the caller.
#[derive(Clone, Copy, Debug)]
pub struct Deposit {
    pub vault_key: Address,
    pub vault: Vault,
    pub user_token_account: TokenAccount,
    pub vault_token_account: TokenAccount,
    pub authority: Address,
}

/// What a deposit comes to, given whether the vault record sits at the
/// address derived for its owner.
///
/// The guards apply in this order: the caller is the owner; the record sits
/// at its address; the paying account is the caller's; the receiving
/// account is the vault's custody account; the amount is not zero. Then the
/// caller pays custody and authorises the payment.
pub open spec fn deposit_outcome(ctx: Deposit, amount: u64, vault_ok: bool) -> Result<
    LedgerTransfer,
    VaultError,
> {
    if ctx.authority != ctx.vault.authority {
        Err(VaultError::UnauthorizedAccess)
    } else if !vault_ok {
        Err(VaultError::AuthorizationError)
    } else if ctx.user_token_account.owner != ctx.authority {
        Err(VaultError::UnauthorizedAccess)
    } else if ctx.vault_token_account.key != ctx.vault.token_account {
        Err(VaultError::UnauthorizedAccess)
    } else if amount == 0 {
        Err(VaultError::InvalidAmount)
    } else {
        Ok(
            LedgerTransfer::signed(
                ctx.user_token_account.key,
                ctx.vault_token_account.key,
                ctx.authority,
                amount,
            ),
        )
    }
}

/// Decides a deposit from the context and the address check; see
/// [`deposit_outcome`]. The vault record is not changed by a deposit.
pub fn decide_deposit(ctx: &Deposit, amount: u64, vault_ok: bool) -> (r: Result<
    LedgerTransfer,
    VaultError,
>)
    ensures
        r == deposit_outcome(*ctx, amount, vault_ok),
{
    if ctx.authority != ctx.vault.authority {
        return Err(VaultError::UnauthorizedAccess);
    }
    if !vault_ok {
        return Err(VaultError::AuthorizationError);
    }
    if ctx.user_token_account.owner != ctx.authority {
        return Err(VaultError::UnauthorizedAccess);
    }
    if ctx.vault_token_account.key != ctx.vault.token_account {
        return Err(VaultError::UnauthorizedAccess);
    }
    if amount == 0 {
        return Err(VaultError::InvalidAmount);
    }
    Ok(
        LedgerTransfer {
            accounts: Transfer {
                from: ctx.user_token_account.key,
                to: ctx.vault_token_account.key,
                authority: ctx.authority,
            },
            signer: None,
            amount,
        },
    )
}

/// Deposits `amount` from the caller's account into the vault's custody
/// account: recomputes the vault's address and decides as
/// [`deposit_outcome`] says. On `Ok` the ledger is to carry out the
/// returned transfer; on `Err` nothing is to happen.
pub fn deposit(ctx: &Deposit, amount: u64) -> (r: Result<LedgerTransfer, VaultError>)
    ensures
        r == deposit_outcome(
            *ctx,
            amount,
            vault_address_verified(ctx.authority, ctx.vault_key, ctx.vault.bump),
        ),
{
    let vault_ok = verify_vault_address(&ctx.authority, &ctx.vault_key, ctx.vault.bump);
    decide_deposit(ctx, amount, vault_ok)
}

/// A deposit by anyone but the owner is refused as unauthorised, whatever
/// the amount.
pub proof fn lemma_deposit_needs_owner(ctx: Deposit, amount: u64, vault_ok: bool)
    requires
        ctx.authority != ctx.vault.authority,
    ensures
        deposit_outcome(ctx, amount, vault_ok) == Err::<LedgerTransfer, VaultError>(
            VaultError::UnauthorizedAccess,
        ),
{
}

/// A deposit by the owner into a vault whose record does not sit at its
/// address is refused as an authorization error, whatever the amount and
/// whatever accounts are named.
pub proof fn lemma_deposit_fails_closed(ctx: Deposit, amount: u64)
    requires
        ctx.authority == ctx.vault.authority,
    ensures
        deposit_outcome(ctx, amount, false) == Err::<LedgerTransfer, VaultError>(
            VaultError::AuthorizationError,
        ),
{
}

} // verus!
