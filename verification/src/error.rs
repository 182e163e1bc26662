use vstd::prelude::*;

verus! {

/// Why an operation on a vault was refused. Every refusal ends the operation
/// and leaves all records as they were.
#[derive(Clone, Copy, Debug, PartialEq, Eq, Structural)]
pub enum VaultError {
    /// The vault is locked, or its lock has not run out yet.
    VaultStillLocked,
    /// The custody account holds less than was asked for.
    InsufficientFunds,
    /// The caller is not the identity that the operation needs, or presented
    /// an account that is not the one the operation needs.
    UnauthorizedAccess,
    /// The staker holds no stake record, or less stake than was asked for.
    InsufficientStake,
    /// A vault record is already there for this owner.
    AlreadyExists,
    /// A derived address or its bump seed does not verify: the record was
    /// corrupted or tampered with.
    AuthorizationError,
    /// The amount is zero.
    InvalidAmount,
}

/// The text that goes with each error.
pub open spec fn message_of(e: VaultError) -> Seq<char> {
    match e {
        VaultError::VaultStillLocked => "Vault is still locked"@,
        VaultError::InsufficientFunds => "Insufficient funds in vault"@,
        VaultError::UnauthorizedAccess => "Unauthorized access"@,
        VaultError::InsufficientStake => "Insufficient stake"@,
        VaultError::AlreadyExists => "Vault already exists"@,
        VaultError::AuthorizationError => "Derived authority mismatch"@,
        VaultError::InvalidAmount => "Invalid amount"@,
    }
}

impl VaultError {
    /// The text that goes with the error.
    pub fn message(&self) -> (r: String)
        ensures
            r@ == message_of(*self),
    {
        match self {
            VaultError::VaultStillLocked => "Vault is still locked".to_owned(),
            VaultError::InsufficientFunds => "Insufficient funds in vault".to_owned(),
            VaultError::UnauthorizedAccess => "Unauthorized access".to_owned(),
            VaultError::InsufficientStake => "Insufficient stake".to_owned(),
            VaultError::AlreadyExists => "Vault already exists".to_owned(),
            VaultError::AuthorizationError => "Derived authority mismatch".to_owned(),
            VaultError::InvalidAmount => "Invalid amount".to_owned(),
        }
    }
}

} // verus!
