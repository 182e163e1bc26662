use crate::address::Address;
use crate::authority::{
    derive_stake_address, derive_vault_address, derived_stake_address, derived_vault_address,
    found_at, found_matches,
};
use crate::error::VaultError;
use crate::ledger::{LedgerTransfer, TokenAccount, Transfer};
use crate::state::{UserStake, Vault};
use vstd::prelude::*;

verus! {

/// What a stake is asked with: the vault record and where it was found, the
/// staker's record in that vault, if there is one, and where it is kept,
/// the staker's account, the custody account, and the staker.
#[derive(Clone, Copy, Debug)]
pub struct Stake {
    pub vault_key: Address,
    pub vault: Vault,
    pub user_stake_key: Address,
    pub user_stake: Option<UserStake>,
    pub user_token_account: TokenAccount,
    pub vault_token_account: TokenAccount,
    pub authority: Address,
}

/// What a stake or an unstake decides: the transfer that the ledger is to
/// carry out, and the two records as they stand once it has. No stake
/// record is left where `user_stake` is `None`.
#[derive(Clone, Copy, Debug)]
pub struct StakeChange {
    pub transfer: LedgerTransfer,
    pub vault: Vault,
    pub user_stake: Option<UserStake>,
}

impl PartialEq for StakeChange {
    fn eq(&self, other: &StakeChange) -> (r: bool) {
        let same_record = match (self.user_stake, other.user_stake) {
            (Some(a), Some(b)) => a == b,
            (None, None) => true,
            _ => false,
        };
        self.transfer == other.transfer && self.vault == other.vault && same_record
    }
}

impl Eq for StakeChange {}

impl vstd::std_specs::cmp::PartialEqSpecImpl for StakeChange {
    open spec fn obeys_eq_spec() -> bool {
        true
    }

    open spec fn eq_spec(&self, other: &StakeChange) -> bool {
        *self == *other
    }
}

/// The sum of two amounts, held at the largest amount where it would pass
/// it.
pub open spec fn saturating_sum(a: u64, b: u64) -> u64 {
    if a + b > u64::MAX {
        u64::MAX
    } else {
        (a + b) as u64
    }
}

/// The staker's record after a stake: a record that was there has the
/// amount added and the time set; one that was not is made for the staker,
/// with the amount, the time and the bump seed of its address.
pub open spec fn staked_record(
    record: Option<UserStake>,
    staker: Address,
    amount: u64,
    now: i64,
    bump: u8,
) -> UserStake {
    match record {
        Some(r) => UserStake { amount: saturating_sum(r.amount, amount), last_update: now, ..r },
        None => UserStake { staker, amount, last_update: now, bump },
    }
}

/// The vault record after a stake: the amount is added to its total.
pub open spec fn staked_vault(vault: Vault, amount: u64) -> Vault {
    Vault { total_staked: saturating_sum(vault.total_staked, amount), ..vault }
}

/// What a stake comes to, given what the searches for the vault record's
/// address (`vault_found`, under the vault owner) and for the stake
/// record's address (`stake_found`, under the staker and the vault) found.
///
/// The guards apply in this order: the vault record sits at its address;
/// the stake record's place is the address of this staker's record; a
/// record that is there is the staker's own; the paying account is the
/// staker's; the receiving account is the vault's custody account; the
/// amount is not zero. Then the staker pays custody, and both the record
/// and the vault's total grow by the amount. Who owns the vault plays no
/// part.
pub open spec fn stake_outcome(
    ctx: Stake,
    amount: u64,
    now: i64,
    vault_found: Option<(Address, u8)>,
    stake_found: Option<(Address, u8)>,
) -> Result<StakeChange, VaultError> {
    if !found_at(vault_found, ctx.vault_key) {
        Err(VaultError::AuthorizationError)
    } else if !found_at(stake_found, ctx.user_stake_key) {
        Err(VaultError::AuthorizationError)
    } else if ctx.user_stake matches Some(r) && r.staker != ctx.authority {
        Err(VaultError::UnauthorizedAccess)
    } else if ctx.user_token_account.owner != ctx.authority {
        Err(VaultError::UnauthorizedAccess)
    } else if ctx.vault_token_account.key != ctx.vault.token_account {
        Err(VaultError::UnauthorizedAccess)
    } else if amount == 0 {
        Err(VaultError::InvalidAmount)
    } else {
        Ok(
            StakeChange {
                transfer: LedgerTransfer::signed(
                    ctx.user_token_account.key,
                    ctx.vault_token_account.key,
                    ctx.authority,
                    amount,
                ),
                vault: staked_vault(ctx.vault, amount),
                user_stake: Some(
                    staked_record(
                        ctx.user_stake,
                        ctx.authority,
                        amount,
                        now,
                        stake_found->Some_0.1,
                    ),
                ),
            },
        )
    }
}

impl Stake {
    /// The accounts of the transfer that a stake asks for: the staker's
    /// account pays the custody account, and the staker authorises it.
    pub fn into_transfer_to_vault_context(&self) -> (r: Transfer)
        ensures
            r == (Transfer {
                from: self.user_token_account.key,
                to: self.vault_token_account.key,
                authority: self.authority,
            }),
    {
        Transfer {
            from: self.user_token_account.key,
            to: self.vault_token_account.key,
            authority: self.authority,
        }
    }

    /// Takes in the ledger's answer to the transfer of a decided change.
    /// Where the ledger carried it out, the two records become those of the
    /// change; where it failed, they stay as they were. The ledger's answer
    /// is handed on as it came.
    pub fn settle<E>(&mut self, change: &StakeChange, outcome: Result<(), E>) -> (r: Result<(), E>)
        ensures
            r == outcome,
            outcome is Ok ==> *final(self) == (Stake {
                vault: change.vault,
                user_stake: change.user_stake,
                ..*old(self)
            }),
            outcome is Err ==> *final(self) == *old(self),
    {
        if outcome.is_ok() {
            self.vault = change.vault;
            self.user_stake = change.user_stake;
        }
        outcome
    }
}

/// Decides a stake from the context and the two address searches; see
/// [`stake_outcome`].
pub fn decide_stake(
    ctx: &Stake,
    amount: u64,
    now: i64,
    vault_found: Option<(Address, u8)>,
    stake_found: Option<(Address, u8)>,
) -> (r: Result<StakeChange, VaultError>)
    ensures
        r == stake_outcome(*ctx, amount, now, vault_found, stake_found),
{
    if !found_matches(&vault_found, &ctx.vault_key) {
        return Err(VaultError::AuthorizationError);
    }
    let bump = match stake_found {
        Some((a, b)) => {
            if a != ctx.user_stake_key {
                return Err(VaultError::AuthorizationError);
            }
            b
        },
        None => {
            return Err(VaultError::AuthorizationError);
        },
    };
    let record = match ctx.user_stake {
        Some(r) => {
            if r.staker != ctx.authority {
                return Err(VaultError::UnauthorizedAccess);
            }
            UserStake { amount: r.amount.saturating_add(amount), last_update: now, ..r }
        },
        None => UserStake { staker: ctx.authority, amount, last_update: now, bump },
    };
    if ctx.user_token_account.owner != ctx.authority {
        return Err(VaultError::UnauthorizedAccess);
    }
    if ctx.vault_token_account.key != ctx.vault.token_account {
        return Err(VaultError::UnauthorizedAccess);
    }
    if amount == 0 {
        return Err(VaultError::InvalidAmount);
    }
    let vault = Vault { total_staked: ctx.vault.total_staked.saturating_add(amount), ..ctx.vault };
    Ok(
        StakeChange {
            transfer: LedgerTransfer {
                accounts: ctx.into_transfer_to_vault_context(),
                signer: None,
                amount,
            },
            vault,
            user_stake: Some(record),
        },
    )
}

/// Stakes `amount` of the staker's tokens in the vault at time `now`:
/// searches for the addresses of the vault record and of the staker's
/// record, and decides as [`stake_outcome`] says. On `Ok` the ledger is to
/// carry out the transfer of the change, and [`Stake::settle`] takes in its
/// answer; on `Err` nothing is to happen. The context is not changed here.
pub fn stake(ctx: &Stake, amount: u64, now: i64) -> (r: Result<StakeChange, VaultError>)
    ensures
        r == stake_outcome(
            *ctx,
            amount,
            now,
            derived_vault_address(ctx.vault.authority),
            derived_stake_address(ctx.authority, ctx.vault_key),
        ),
{
    let vault_found = derive_vault_address(&ctx.vault.authority);
    let stake_found = derive_stake_address(&ctx.authority, &ctx.vault_key);
    decide_stake(ctx, amount, now, vault_found, stake_found)
}

/// A stake on records that do not sit at their addresses is refused as an
/// authorization error, whatever the amount.
pub proof fn lemma_stake_fails_closed(
    ctx: Stake,
    amount: u64,
    now: i64,
    vault_found: Option<(Address, u8)>,
    stake_found: Option<(Address, u8)>,
)
    requires
        !found_at(vault_found, ctx.vault_key) || !found_at(stake_found, ctx.user_stake_key),
    ensures
        stake_outcome(ctx, amount, now, vault_found, stake_found) == Err::<
            StakeChange,
            VaultError,
        >(VaultError::AuthorizationError),
{
}

/// A stake goes through for any staker, whoever owns the vault: on records
/// that sit at their addresses, with a record that is the staker's own or
/// none yet, from the staker's account into the vault's custody account,
/// every amount but zero is taken.
pub proof fn lemma_stake_open_to_all(
    ctx: Stake,
    amount: u64,
    now: i64,
    vault_found: Option<(Address, u8)>,
    stake_found: Option<(Address, u8)>,
)
    requires
        amount > 0,
        found_at(vault_found, ctx.vault_key),
        found_at(stake_found, ctx.user_stake_key),
        ctx.user_stake matches Some(r) ==> r.staker == ctx.authority,
        ctx.user_token_account.owner == ctx.authority,
        ctx.vault_token_account.key == ctx.vault.token_account,
    ensures
        stake_outcome(ctx, amount, now, vault_found, stake_found) is Ok,
{
}

/// Given what the address searches found, whether a stake is taken does
/// not hang on who owns the vault, nor on whether the vault is locked: with
/// another owner and another lock in the vault record, the same stake is
/// taken or refused in the same way.
pub proof fn lemma_stake_ignores_owner_and_lock(
    ctx: Stake,
    amount: u64,
    now: i64,
    vault_found: Option<(Address, u8)>,
    stake_found: Option<(Address, u8)>,
    owner: Address,
    is_locked: bool,
    unlock_timestamp: i64,
)
    ensures
        ({
            let other = Stake {
                vault: Vault { authority: owner, is_locked, unlock_timestamp, ..ctx.vault },
                ..ctx
            };
            match stake_outcome(ctx, amount, now, vault_found, stake_found) {
                Ok(change) => stake_outcome(other, amount, now, vault_found, stake_found)
                    matches Ok(c) && c.transfer == change.transfer && c.user_stake
                    == change.user_stake && c.vault.total_staked == change.vault.total_staked,
                Err(e) => stake_outcome(other, amount, now, vault_found, stake_found) == Err::<
                    StakeChange,
                    VaultError,
                >(e),
            }
        }),
{
}

} // verus!
