use token_vault::VaultError;

#[test]
fn each_error_has_its_message() {
    assert_eq!(VaultError::VaultStillLocked.message(), "Vault is still locked");
    assert_eq!(VaultError::InsufficientFunds.message(), "Insufficient funds in vault");
    assert_eq!(VaultError::UnauthorizedAccess.message(), "Unauthorized access");
    assert_eq!(VaultError::InsufficientStake.message(), "Insufficient stake");
    assert_eq!(VaultError::AlreadyExists.message(), "Vault already exists");
    assert_eq!(VaultError::AuthorizationError.message(), "Derived authority mismatch");
    assert_eq!(VaultError::InvalidAmount.message(), "Invalid amount");
}

#[test]
fn errors_compare_by_variant() {
    assert_eq!(VaultError::VaultStillLocked, VaultError::VaultStillLocked);
    assert_ne!(VaultError::VaultStillLocked, VaultError::UnauthorizedAccess);
}
