use crate::address::Address;
use crate::authority::{
    authority_verified, derive_stake_address, derive_vault_address, derived_stake_address,
    derived_vault_address, found_at, found_matches, verify_authority,
};
use crate::error::VaultError;
use crate::instructions::stake::StakeChange;
use crate::ledger::{LedgerTransfer, SignerSeeds, TokenAccount, Transfer};
use crate::state::{UserStake, Vault};
use vstd::prelude::*;

verus! {

/// What an unstake is asked with: the vault record and where it was found,
/// the staker's record in that vault, if there is one, and where it is
/// kept, the staker's account, the custody account, the vault's signing
/// authority as the caller names it, and the staker.
#[derive(Clone, Copy, Debug)]
pub struct Unstake {
    pub vault_key: Address,
    pub vault: Vault,
    pub user_stake_key: Address,
    pub user_stake: Option<UserStake>,
    pub user_token_account: TokenAccount,
    pub vault_token_account: TokenAccount,
    pub vault_authority: Address,
    pub authority: Address,
}

/// What is left of `a` once `b` is taken from it, and nothing where `b` is
/// the larger.
pub open spec fn saturating_rest(a: u64, b: u64) -> u64 {
    if a < b {
        0
    } else {
        (a - b) as u64
    }
}

/// The staker's record after an unstake of no more than it holds: the
/// amount is taken off and the time set; a record that would hold nothing
/// is not kept.
pub open spec fn unstaked_record(record: UserStake, amount: u64, now: i64) -> Option<UserStake> {
    if record.amount == amount {
        None
    } else {
        Some(UserStake { amount: (record.amount - amount) as u64, last_update: now, ..record })
    }
}

/// The vault record after an unstake: the amount is taken off its total,
/// which stops at zero.
pub open spec fn unstaked_vault(vault: Vault, amount: u64) -> Vault {
    Vault { total_staked: saturating_rest(vault.total_staked, amount), ..vault }
}

/// The accounts of an unstake are in order: the vault record and the stake
/// record sit at their addresses, the authority verifies, a record that is
/// there is the staker's own, the receiving account is the staker's, and
/// the paying account is the vault's custody account.
pub open spec fn unstake_accounts_in_order(
    ctx: Unstake,
    vault_found: Option<(Address, u8)>,
    stake_found: Option<(Address, u8)>,
    authority_ok: bool,
) -> bool {
    &&& found_at(vault_found, ctx.vault_key)
    &&& found_at(stake_found, ctx.user_stake_key)
    &&& authority_ok
    &&& (ctx.user_stake matches Some(r) ==> r.staker == ctx.authority)
    &&& ctx.user_token_account.owner == ctx.authority
    &&& ctx.vault_token_account.key == ctx.vault.token_account
}

/// What an unstake comes to, given what the searches for the vault
/// record's address and for the stake record's address found, and whether
/// the named authority is the one derived for the vault.
///
/// The guards apply in this order: the vault record sits at its address;
/// the stake record's place is the address of this staker's record; the
/// authority verifies; a record that is there is the staker's own; the
/// receiving account is the staker's; the paying account is the vault's
/// custody account; the staker has a record, and it holds the amount. Then
/// custody pays the staker, the program signs as the derived authority, and
/// both the record and the vault's total shrink by the amount. Neither the
/// vault's owner nor its lock plays a part.
pub open spec fn unstake_outcome(
    ctx: Unstake,
    amount: u64,
    now: i64,
    vault_found: Option<(Address, u8)>,
    stake_found: Option<(Address, u8)>,
    authority_ok: bool,
) -> Result<StakeChange, VaultError> {
    if !found_at(vault_found, ctx.vault_key) {
        Err(VaultError::AuthorizationError)
    } else if !found_at(stake_found, ctx.user_stake_key) {
        Err(VaultError::AuthorizationError)
    } else if !authority_ok {
        Err(VaultError::AuthorizationError)
    } else if ctx.user_stake matches Some(r) && r.staker != ctx.authority {
        Err(VaultError::UnauthorizedAccess)
    } else if ctx.user_token_account.owner != ctx.authority {
        Err(VaultError::UnauthorizedAccess)
    } else if ctx.vault_token_account.key != ctx.vault.token_account {
        Err(VaultError::UnauthorizedAccess)
    } else {
        match ctx.user_stake {
            None => Err(VaultError::InsufficientStake),
            Some(record) => {
                if record.amount < amount {
                    Err(VaultError::InsufficientStake)
                } else {
                    Ok(
                        StakeChange {
                            transfer: LedgerTransfer::derived(
                                ctx.vault_token_account.key,
                                ctx.user_token_account.key,
                                ctx.vault_authority,
                                ctx.vault_key,
                                ctx.vault.authority_bump,
                                amount,
                            ),
                            vault: unstaked_vault(ctx.vault, amount),
                            user_stake: unstaked_record(record, amount, now),
                        },
                    )
                }
            },
        }
    }
}

impl Unstake {
    /// Takes in the ledger's answer to the transfer of a decided change.
    /// Where the ledger carried it out, the two records become those of the
    /// change; where it failed, they stay as they were. The ledger's answer
    /// is handed on as it came.
    pub fn settle<E>(&mut self, change: &StakeChange, outcome: Result<(), E>) -> (r: Result<(), E>)
        ensures
            r == outcome,
            outcome is Ok ==> *final(self) == (Unstake {
                vault: change.vault,
                user_stake: change.user_stake,
                ..*old(self)
            }),
            outcome is Err ==> *final(self) == *old(self),
    {
        if outcome.is_ok() {
            self.vault = change.vault;
            self.user_stake = change.user_stake;
        }
        outcome
    }
}

/// Decides an unstake from the context, the two address searches and the
/// check of the authority; see [`unstake_outcome`].
pub fn decide_unstake(
    ctx: &Unstake,
    amount: u64,
    now: i64,
    vault_found: Option<(Address, u8)>,
    stake_found: Option<(Address, u8)>,
    authority_ok: bool,
) -> (r: Result<StakeChange, VaultError>)
    ensures
        r == unstake_outcome(*ctx, amount, now, vault_found, stake_found, authority_ok),
{
    if !found_matches(&vault_found, &ctx.vault_key) {
        return Err(VaultError::AuthorizationError);
    }
    if !found_matches(&stake_found, &ctx.user_stake_key) {
        return Err(VaultError::AuthorizationError);
    }
    if !authority_ok {
        return Err(VaultError::AuthorizationError);
    }
    if let Some(r) = ctx.user_stake {
        if r.staker != ctx.authority {
            return Err(VaultError::UnauthorizedAccess);
        }
    }
    if ctx.user_token_account.owner != ctx.authority {
        return Err(VaultError::UnauthorizedAccess);
    }
    if ctx.vault_token_account.key != ctx.vault.token_account {
        return Err(VaultError::UnauthorizedAccess);
    }
    let record = match ctx.user_stake {
        Some(record) => record,
        None => {
            return Err(VaultError::InsufficientStake);
        },
    };
    if record.amount < amount {
        return Err(VaultError::InsufficientStake);
    }
    let rest: u64 = record.amount - amount;
    let user_stake = if rest == 0 {
        None
    } else {
        Some(UserStake { amount: rest, last_update: now, ..record })
    };
    let vault = Vault { total_staked: ctx.vault.total_staked.saturating_sub(amount), ..ctx.vault };
    Ok(
        StakeChange {
            transfer: LedgerTransfer {
                accounts: Transfer {
                    from: ctx.vault_token_account.key,
                    to: ctx.user_token_account.key,
                    authority: ctx.vault_authority,
                },
                signer: Some(SignerSeeds { vault: ctx.vault_key, bump: ctx.vault.authority_bump }),
                amount,
            },
            vault,
            user_stake,
        },
    )
}

/// Unstakes `amount` of the staker's stake in the vault at time `now`:
/// searches for the addresses of the vault record and of the staker's
/// record, recomputes the vault's signing authority, and decides as
/// [`unstake_outcome`] says. On `Ok` the ledger is to carry out the
/// transfer of the change, and [`Unstake::settle`] takes in its answer; on
/// `Err` nothing is to happen. The context is not changed here.
pub fn unstake(ctx: &Unstake, amount: u64, now: i64) -> (r: Result<StakeChange, VaultError>)
    ensures
        r == unstake_outcome(
            *ctx,
            amount,
            now,
            derived_vault_address(ctx.vault.authority),
            derived_stake_address(ctx.authority, ctx.vault_key),
            authority_verified(ctx.vault_key, ctx.vault_authority, ctx.vault.authority_bump),
        ),
{
    let vault_found = derive_vault_address(&ctx.vault.authority);
    let stake_found = derive_stake_address(&ctx.authority, &ctx.vault_key);
    let authority_ok = verify_authority(
        &ctx.vault_key,
        &ctx.vault_authority,
        ctx.vault.authority_bump,
    );
    decide_unstake(ctx, amount, now, vault_found, stake_found, authority_ok)
}

/// An unstake goes through for any staker, whoever owns the vault and
/// whether or not it is locked: on accounts that are in order, every amount
/// up to what the staker's record holds is paid back.
pub proof fn lemma_unstake_open_to_all(
    ctx: Unstake,
    amount: u64,
    now: i64,
    vault_found: Option<(Address, u8)>,
    stake_found: Option<(Address, u8)>,
    authority_ok: bool,
)
    requires
        unstake_accounts_in_order(ctx, vault_found, stake_found, authority_ok),
        ctx.user_stake matches Some(r) && amount <= r.amount,
    ensures
        unstake_outcome(ctx, amount, now, vault_found, stake_found, authority_ok) is Ok,
{
}

/// An unstake under an authority that does not verify, or on records that
/// do not sit at their addresses, is refused as an authorization error,
/// whatever the amount and whatever the staker holds.
pub proof fn lemma_unstake_fails_closed(
    ctx: Unstake,
    amount: u64,
    now: i64,
    vault_found: Option<(Address, u8)>,
    stake_found: Option<(Address, u8)>,
    authority_ok: bool,
)
    requires
        !found_at(vault_found, ctx.vault_key) || !found_at(stake_found, ctx.user_stake_key)
            || !authority_ok,
    ensures
        unstake_outcome(ctx, amount, now, vault_found, stake_found, authority_ok) == Err::<
            StakeChange,
            VaultError,
        >(VaultError::AuthorizationError),
{
}

/// An unstake of more than the staker's record holds never goes through,
/// and on accounts that are in order it is refused as insufficient stake,
/// as is every unstake of a staker who has no record. One that is decided
/// leaves in the record what it held less the amount, and that is never
/// below zero.
pub proof fn lemma_unstake_within_stake(
    ctx: Unstake,
    amount: u64,
    now: i64,
    vault_found: Option<(Address, u8)>,
    stake_found: Option<(Address, u8)>,
    authority_ok: bool,
)
    ensures
        ctx.user_stake matches Some(r) && amount > r.amount ==> unstake_outcome(
            ctx,
            amount,
            now,
            vault_found,
            stake_found,
            authority_ok,
        ) is Err,
        unstake_accounts_in_order(ctx, vault_found, stake_found, authority_ok) && (match ctx.user_stake {
            Some(r) => amount > r.amount,
            None => true,
        }) ==> unstake_outcome(ctx, amount, now, vault_found, stake_found, authority_ok) == Err::<
            StakeChange,
            VaultError,
        >(VaultError::InsufficientStake),
        unstake_outcome(ctx, amount, now, vault_found, stake_found, authority_ok) matches Ok(
            change,
        ) ==> ctx.user_stake is Some && {
            let held = ctx.user_stake->Some_0.amount;
            match change.user_stake {
                Some(r) => r.amount == held - amount && r.amount > 0,
                None => held - amount == 0,
            }
        },
{
}

/// An unstake of all that the staker's record holds removes the record, and
/// the staker's next unstake, whatever it asks for, is refused as
/// insufficient stake, as any unstake is where there is no record.
pub proof fn lemma_full_unstake_removes_record(
    ctx: Unstake,
    amount: u64,
    now: i64,
    vault_found: Option<(Address, u8)>,
    stake_found: Option<(Address, u8)>,
    authority_ok: bool,
    next_amount: u64,
    next_now: i64,
)
    requires
        ctx.user_stake matches Some(r) && r.amount == amount,
        unstake_outcome(ctx, amount, now, vault_found, stake_found, authority_ok) is Ok,
    ensures
        ({
            let change = unstake_outcome(
                ctx,
                amount,
                now,
                vault_found,
                stake_found,
                authority_ok,
            )->Ok_0;
            let next = Unstake { vault: change.vault, user_stake: change.user_stake, ..ctx };
            &&& change.user_stake is None
            &&& unstake_outcome(
                next,
                next_amount,
                next_now,
                vault_found,
                stake_found,
                authority_ok,
            ) == Err::<StakeChange, VaultError>(VaultError::InsufficientStake)
        }),
{
}

/// Given what the address searches and the check of the authority found,
/// whether an unstake is paid does not hang on who owns the vault, nor on
/// whether the vault is locked.
pub proof fn lemma_unstake_ignores_owner_and_lock(
    ctx: Unstake,
    amount: u64,
    now: i64,
    vault_found: Option<(Address, u8)>,
    stake_found: Option<(Address, u8)>,
    authority_ok: bool,
    owner: Address,
    is_locked: bool,
    unlock_timestamp: i64,
)
    ensures
        ({
            let other = Unstake {
                vault: Vault { authority: owner, is_locked, unlock_timestamp, ..ctx.vault },
                ..ctx
            };
            match unstake_outcome(ctx, amount, now, vault_found, stake_found, authority_ok) {
                Ok(change) => unstake_outcome(
                    other,
                    amount,
                    now,
                    vault_found,
                    stake_found,
                    authority_ok,
                ) matches Ok(c) && c.transfer == change.transfer && c.user_stake
                    == change.user_stake && c.vault.total_staked == change.vault.total_staked,
                Err(e) => unstake_outcome(
                    other,
                    amount,
                    now,
                    vault_found,
                    stake_found,
                    authority_ok,
                ) == Err::<StakeChange, VaultError>(e),
            }
        }),
{
}

} // verus!
