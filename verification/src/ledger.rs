use crate::address::Address;
use vstd::prelude::*;

verus! {

/// What an operation reads of a ledger account: where it is, who owns it and
/// what it holds.
#[derive(Clone, Copy, Debug)]
pub struct TokenAccount {
    pub key: Address,
    pub owner: Address,
    pub amount: u64,
}

/// The accounts of one ledger transfer: the account that pays, the account
/// that receives, and the identity that authorises the payment.
#[derive(Clone, Copy, Debug)]
pub struct Transfer {
    pub from: Address,
    pub to: Address,
    pub authority: Address,
}

/// The seeds under which the program signs for a vault's derived authority:
/// the vault's address and the authority's bump seed.
#[derive(Clone, Copy, Debug)]
pub struct SignerSeeds {
    pub vault: Address,
    pub bump: u8,
}

/// A transfer that the ledger is asked to carry out. Where `signer` is
/// `None` the authority has signed the request itself; where it is there,
/// the authority is a vault's derived authority and the program signs for
/// it under these seeds.
#[derive(Clone, Copy, Debug)]
pub struct LedgerTransfer {
    pub accounts: Transfer,
    pub signer: Option<SignerSeeds>,
    pub amount: u64,
}

impl PartialEq for TokenAccount {
    fn eq(&self, other: &TokenAccount) -> (r: bool) {
        self.key == other.key && self.owner == other.owner && self.amount == other.amount
    }
}

impl Eq for TokenAccount {}

impl vstd::std_specs::cmp::PartialEqSpecImpl for TokenAccount {
    open spec fn obeys_eq_spec() -> bool {
        true
    }

    open spec fn eq_spec(&self, other: &TokenAccount) -> bool {
        *self == *other
    }
}

impl PartialEq for Transfer {
    fn eq(&self, other: &Transfer) -> (r: bool) {
        self.from == other.from && self.to == other.to && self.authority == other.authority
    }
}

impl Eq for Transfer {}

impl vstd::std_specs::cmp::PartialEqSpecImpl for Transfer {
    open spec fn obeys_eq_spec() -> bool {
        true
    }

    open spec fn eq_spec(&self, other: &Transfer) -> bool {
        *self == *other
    }
}

impl PartialEq for SignerSeeds {
    fn eq(&self, other: &SignerSeeds) -> (r: bool) {
        self.vault == other.vault && self.bump == other.bump
    }
}

impl Eq for SignerSeeds {}

impl vstd::std_specs::cmp::PartialEqSpecImpl for SignerSeeds {
    open spec fn obeys_eq_spec() -> bool {
        true
    }

    open spec fn eq_spec(&self, other: &SignerSeeds) -> bool {
        *self == *other
    }
}

impl PartialEq for LedgerTransfer {
    fn eq(&self, other: &LedgerTransfer) -> (r: bool) {
        let same_signer = match (self.signer, other.signer) {
            (Some(a), Some(b)) => a == b,
            (None, None) => true,
            _ => false,
        };
        self.accounts == other.accounts && same_signer && self.amount == other.amount
    }
}

impl Eq for LedgerTransfer {}

impl vstd::std_specs::cmp::PartialEqSpecImpl for LedgerTransfer {
    open spec fn obeys_eq_spec() -> bool {
        true
    }

    open spec fn eq_spec(&self, other: &LedgerTransfer) -> bool {
        *self == *other
    }
}

impl LedgerTransfer {
    /// A transfer that its authority has signed itself.
    pub open spec fn signed(from: Address, to: Address, authority: Address, amount: u64)
        -> LedgerTransfer {
        LedgerTransfer { accounts: Transfer { from, to, authority }, signer: None, amount }
    }

    /// A transfer out of custody, for which the program signs as the
    /// derived authority of the vault at `vault`.
    pub open spec fn derived(
        from: Address,
        to: Address,
        authority: Address,
        vault: Address,
        bump: u8,
        amount: u64,
    ) -> LedgerTransfer {
        LedgerTransfer {
            accounts: Transfer { from, to, authority },
            signer: Some(SignerSeeds { vault, bump }),
            amount,
        }
    }
}

} // verus!
