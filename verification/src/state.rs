use crate::address::Address;
use vstd::prelude::*;

verus! {

/// The custody record of one owner: who controls the vault, which ledger
/// account it holds, and whether it is locked.
#[derive(Clone, Copy, Debug)]
pub struct Vault {
    /// The owner: the only identity that may deposit, withdraw, lock and
    /// unlock.
    pub authority: Address,
    /// The ledger account that the vault controls.
    pub token_account: Address,
    /// The bump seed of the vault record's own address.
    pub bump: u8,
    /// The bump seed of the vault's signing authority.
    pub authority_bump: u8,
    /// Whether withdrawals are blocked.
    pub is_locked: bool,
    /// When the vault may be unlocked; 0 while no time lock is in effect.
    pub unlock_timestamp: i64,
    /// The sum of what the vault's stake records hold.
    pub total_staked: u64,
}

/// What one staker has staked in one vault.
#[derive(Clone, Copy, Debug)]
pub struct UserStake {
    /// The staker who owns the record.
    pub staker: Address,
    /// The stake held now.
    pub amount: u64,
    /// The time of the latest stake or unstake.
    pub last_update: i64,
    /// The bump seed of the record's own address.
    pub bump: u8,
}

impl PartialEq for Vault {
    fn eq(&self, other: &Vault) -> (r: bool) {
        self.authority == other.authority && self.token_account == other.token_account
            && self.bump == other.bump && self.authority_bump == other.authority_bump
            && self.is_locked == other.is_locked && self.unlock_timestamp
            == other.unlock_timestamp && self.total_staked == other.total_staked
    }
}

impl Eq for Vault {}

impl vstd::std_specs::cmp::PartialEqSpecImpl for Vault {
    open spec fn obeys_eq_spec() -> bool {
        true
    }

    open spec fn eq_spec(&self, other: &Vault) -> bool {
        *self == *other
    }
}

impl PartialEq for UserStake {
    fn eq(&self, other: &UserStake) -> (r: bool) {
        self.staker == other.staker && self.amount == other.amount && self.last_update
            == other.last_update && self.bump == other.bump
    }
}

impl Eq for UserStake {}

impl vstd::std_specs::cmp::PartialEqSpecImpl for UserStake {
    open spec fn obeys_eq_spec() -> bool {
        true
    }

    open spec fn eq_spec(&self, other: &UserStake) -> bool {
        *self == *other
    }
}

impl Vault {
    /// The record of a vault that was just set up: unlocked, with no time
    /// lock and nothing staked.
    pub open spec fn fresh(owner: Address, custody: Address, bump: u8, authority_bump: u8) -> Vault {
        Vault {
            authority: owner,
            token_account: custody,
            bump,
            authority_bump,
            is_locked: false,
            unlock_timestamp: 0,
            total_staked: 0,
        }
    }
}

impl UserStake {
    /// A record that may persist between requests holds some stake.
    pub open spec fn live(&self) -> bool {
        self.amount > 0
    }

    /// What is kept of a record as it is found in storage: a record that
    /// holds nothing is no record.
    pub fn kept(self) -> (r: Option<UserStake>)
        ensures
            r == if self.live() {
                Some(self)
            } else {
                None::<UserStake>
            },
    {
        if self.amount == 0 {
            None
        } else {
            Some(self)
        }
    }
}

} // verus!
