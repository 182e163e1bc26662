pub mod address;
pub mod authority;
pub mod error;
pub mod instructions;
pub mod ledger;
pub mod pda;
pub mod pool;
pub mod state;

pub use crate::address::Address;
pub use crate::error::VaultError;
pub use crate::instructions::deposit::{deposit, Deposit};
pub use crate::instructions::initialize::{initialize_vault, InitializeVault};
pub use crate::instructions::lock::{lock_vault, LockVault};
pub use crate::instructions::stake::{stake, Stake, StakeChange};
pub use crate::instructions::unlock::{unlock_vault, UnlockVault};
pub use crate::instructions::unstake::{unstake, Unstake};
pub use crate::instructions::withdraw::{withdraw, Withdraw};
pub use crate::ledger::{LedgerTransfer, SignerSeeds, TokenAccount, Transfer};
pub use crate::state::{UserStake, Vault};
