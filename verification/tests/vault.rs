use anchor_lang::prelude::Pubkey;
use std::collections::HashMap;
use token_vault::address::Address;
use token_vault::authority::{
    derive_authority, derive_vault_address, program_id, signer_seed_list, verify_authority,
};
use token_vault::instructions::deposit::decide_deposit;
use token_vault::instructions::initialize::decide_initialize;
use token_vault::instructions::lock::decide_lock;
use token_vault::instructions::unlock::decide_unlock;
use token_vault::instructions::withdraw::decide_withdraw;
use token_vault::{
    deposit, initialize_vault, lock_vault, unlock_vault, withdraw, Deposit, InitializeVault,
    LedgerTransfer, LockVault, SignerSeeds, TokenAccount, Transfer, UnlockVault, Vault,
    VaultError, Withdraw,
};

fn key(b: u8) -> Address {
    Address::new([b; 32])
}

fn program_id_key() -> Pubkey {
    Pubkey::new_from_array(program_id().bytes)
}

struct Ledger {
    balances: HashMap<[u8; 32], u64>,
}

impl Ledger {
    fn new() -> Ledger {
        Ledger { balances: HashMap::new() }
    }

    fn balance(&self, account: &Address) -> u64 {
        *self.balances.get(&account.bytes).unwrap_or(&0)
    }

    fn fund(&mut self, account: &Address, amount: u64) {
        self.balances.insert(account.bytes, amount);
    }

    fn transfer(&mut self, t: &LedgerTransfer) -> Result<(), String> {
        let from = self.balance(&t.accounts.from);
        if from < t.amount {
            return Err(format!("insufficient funds: {} < {}", from, t.amount));
        }
        self.balances.insert(t.accounts.from.bytes, from - t.amount);
        let to = self.balance(&t.accounts.to);
        self.balances.insert(t.accounts.to.bytes, to + t.amount);
        Ok(())
    }
}

struct World {
    owner: Address,
    owner_account: Address,
    custody: Address,
    vault_key: Address,
    bump: u8,
    vault_authority: Address,
    authority_bump: u8,
}

fn world() -> World {
    let owner = key(1);
    let (vault_key, bump) = derive_vault_address(&owner).unwrap();
    let (vault_authority, authority_bump) = derive_authority(&vault_key).unwrap();
    World {
        owner,
        owner_account: key(10),
        custody: key(20),
        vault_key,
        bump,
        vault_authority,
        authority_bump,
    }
}

fn fresh_vault(w: &World) -> Vault {
    Vault {
        authority: w.owner,
        token_account: w.custody,
        bump: w.bump,
        authority_bump: w.authority_bump,
        is_locked: false,
        unlock_timestamp: 0,
        total_staked: 0,
    }
}

fn init_ctx(w: &World) -> InitializeVault {
    InitializeVault {
        vault_key: w.vault_key,
        vault: None,
        vault_authority: w.vault_authority,
        token_account: w.custody,
        payer: w.owner,
    }
}

fn deposit_ctx(w: &World, vault: Vault, ledger: &Ledger) -> Deposit {
    Deposit {
        vault_key: w.vault_key,
        vault,
        user_token_account: TokenAccount {
            key: w.owner_account,
            owner: w.owner,
            amount: ledger.balance(&w.owner_account),
        },
        vault_token_account: TokenAccount {
            key: w.custody,
            owner: w.vault_authority,
            amount: ledger.balance(&w.custody),
        },
        authority: w.owner,
    }
}

fn withdraw_ctx(w: &World, vault: Vault, ledger: &Ledger) -> Withdraw {
    Withdraw {
        vault_key: w.vault_key,
        vault,
        vault_authority: w.vault_authority,
        user_token_account: TokenAccount {
            key: w.owner_account,
            owner: w.owner,
            amount: ledger.balance(&w.owner_account),
        },
        vault_token_account: TokenAccount {
            key: w.custody,
            owner: w.vault_authority,
            amount: ledger.balance(&w.custody),
        },
        authority: w.owner,
    }
}

#[test]
fn deposit_lock_unlock_withdraw() {
    let w = world();
    let mut ledger = Ledger::new();
    ledger.fund(&w.owner_account, 100);

    let mut init = init_ctx(&w);
    assert_eq!(initialize_vault(&mut init, w.bump, w.authority_bump), Ok(()));
    let vault = init.vault.unwrap();
    assert_eq!(vault, fresh_vault(&w));

    let t = deposit(&deposit_ctx(&w, vault, &ledger), 100).unwrap();
    assert_eq!(t.accounts.from, w.owner_account);
    assert_eq!(t.accounts.to, w.custody);
    assert_eq!(t.accounts.authority, w.owner);
    assert!(t.signer.is_none());
    assert_eq!(t.amount, 100);
    ledger.transfer(&t).unwrap();
    assert_eq!(ledger.balance(&w.custody), 100);
    assert_eq!(ledger.balance(&w.owner_account), 0);

    let mut lock = LockVault { vault_key: w.vault_key, vault, authority: w.owner };
    assert_eq!(lock_vault(&mut lock, 1000), Ok(()));
    let vault = lock.vault;
    assert!(vault.is_locked);
    assert_eq!(vault.unlock_timestamp, 1000);

    assert_eq!(
        withdraw(&withdraw_ctx(&w, vault, &ledger), 100).err(),
        Some(VaultError::VaultStillLocked)
    );
    assert_eq!(ledger.balance(&w.custody), 100);

    let mut unlock = UnlockVault { vault_key: w.vault_key, vault, authority: w.owner };
    assert_eq!(unlock_vault(&mut unlock, 500), Err(VaultError::VaultStillLocked));
    assert_eq!(unlock.vault, vault);
    assert_eq!(unlock_vault(&mut unlock, 999), Err(VaultError::VaultStillLocked));
    assert_eq!(unlock_vault(&mut unlock, 1000), Ok(()));
    let vault = unlock.vault;
    assert!(!vault.is_locked);
    assert_eq!(vault.unlock_timestamp, 0);
    assert_eq!(vault, fresh_vault(&w));

    let t = withdraw(&withdraw_ctx(&w, vault, &ledger), 100).unwrap();
    assert_eq!(t.accounts.from, w.custody);
    assert_eq!(t.accounts.to, w.owner_account);
    assert_eq!(t.accounts.authority, w.vault_authority);
    let signer = t.signer.unwrap();
    assert_eq!(signer.vault, w.vault_key);
    assert_eq!(signer.bump, w.authority_bump);
    assert_eq!(t.amount, 100);
    ledger.transfer(&t).unwrap();
    assert_eq!(ledger.balance(&w.custody), 0);
    assert_eq!(ledger.balance(&w.owner_account), 100);
}

#[test]
fn vault_is_set_up_once() {
    let w = world();
    let mut init = init_ctx(&w);
    assert_eq!(initialize_vault(&mut init, w.bump, w.authority_bump), Ok(()));
    let first = init.vault;
    assert_eq!(
        initialize_vault(&mut init, w.bump, w.authority_bump),
        Err(VaultError::AlreadyExists)
    );
    assert_eq!(init.vault, first);
}

#[test]
fn set_up_checks_addresses_and_bumps() {
    let w = world();
    let mut init = init_ctx(&w);
    assert_eq!(
        initialize_vault(&mut init, w.bump.wrapping_sub(1), w.authority_bump),
        Err(VaultError::AuthorizationError)
    );
    assert_eq!(
        initialize_vault(&mut init, w.bump, w.authority_bump.wrapping_add(1)),
        Err(VaultError::AuthorizationError)
    );
    assert!(init.vault.is_none());
    let mut elsewhere = InitializeVault { vault_key: key(77), ..init_ctx(&w) };
    assert_eq!(
        initialize_vault(&mut elsewhere, w.bump, w.authority_bump),
        Err(VaultError::AuthorizationError)
    );
    let mut other_authority = InitializeVault { vault_authority: key(78), ..init_ctx(&w) };
    assert_eq!(
        initialize_vault(&mut other_authority, w.bump, w.authority_bump),
        Err(VaultError::AuthorizationError)
    );
    let mut other_payer = InitializeVault { payer: key(2), ..init_ctx(&w) };
    assert_eq!(
        initialize_vault(&mut other_payer, w.bump, w.authority_bump),
        Err(VaultError::AuthorizationError)
    );
    assert!(other_payer.vault.is_none());
}

#[test]
fn set_up_decides_in_order() {
    let w = world();
    let found = Some((w.vault_key, w.bump));
    let authority_found = Some((w.vault_authority, w.authority_bump));
    let mut taken = InitializeVault { vault: Some(fresh_vault(&w)), ..init_ctx(&w) };
    assert_eq!(decide_initialize(&mut taken, 1, 2, None, None), Err(VaultError::AlreadyExists));
    let mut ctx = init_ctx(&w);
    assert_eq!(
        decide_initialize(&mut ctx, w.bump, w.authority_bump, None, authority_found),
        Err(VaultError::AuthorizationError)
    );
    assert_eq!(
        decide_initialize(&mut ctx, w.bump, w.authority_bump, found, None),
        Err(VaultError::AuthorizationError)
    );
    assert_eq!(
        decide_initialize(&mut ctx, w.bump, 9, found, Some((w.vault_authority, 8))),
        Err(VaultError::AuthorizationError)
    );
    assert_eq!(
        decide_initialize(&mut ctx, w.bump, 9, found, Some((key(50), 9))),
        Err(VaultError::AuthorizationError)
    );
    assert_eq!(
        decide_initialize(&mut ctx, 7, 9, Some((w.vault_key, 8)), Some((w.vault_authority, 9))),
        Err(VaultError::AuthorizationError)
    );
    assert!(ctx.vault.is_none());
    assert_eq!(
        decide_initialize(&mut ctx, w.bump, 9, found, Some((w.vault_authority, 9))),
        Ok(())
    );
    assert_eq!(ctx.vault, Some(Vault { authority_bump: 9, ..fresh_vault(&w) }));
}

#[test]
fn set_up_keeps_the_derived_authority_pair() {
    let w = world();
    let mut lower = w.authority_bump - 1;
    let other = loop {
        let seeds: [&[u8]; 3] = [b"authority", w.vault_key.bytes.as_ref(), &[lower]];
        if let Ok(p) = Pubkey::create_program_address(&seeds, &program_id_key()) {
            break Address::new(p.to_bytes());
        }
        lower -= 1;
    };
    assert!(verify_authority(&w.vault_key, &other, lower));
    let mut ctx = InitializeVault { vault_authority: other, ..init_ctx(&w) };
    assert_eq!(
        initialize_vault(&mut ctx, w.bump, lower),
        Err(VaultError::AuthorizationError)
    );
    assert!(ctx.vault.is_none());

    let mut ctx = init_ctx(&w);
    assert_eq!(initialize_vault(&mut ctx, w.bump, w.authority_bump), Ok(()));
    let vault = ctx.vault.unwrap();
    assert_eq!(derive_vault_address(&vault.authority), Some((ctx.vault_key, vault.bump)));
    assert_eq!(
        derive_authority(&ctx.vault_key),
        Some((ctx.vault_authority, vault.authority_bump))
    );
    assert!(verify_authority(&ctx.vault_key, &ctx.vault_authority, vault.authority_bump));

    let mut again = init_ctx(&world());
    assert_eq!(initialize_vault(&mut again, w.bump, w.authority_bump), Ok(()));
    assert_eq!(again.vault_key, ctx.vault_key);
    assert_eq!(again.vault_authority, ctx.vault_authority);
    assert_eq!(again.vault, ctx.vault);
}

#[test]
fn only_the_owner_moves_the_vault() {
    let w = world();
    let ledger = Ledger::new();
    let vault = fresh_vault(&w);
    let stranger = key(9);

    let d = Deposit { authority: stranger, ..deposit_ctx(&w, vault, &ledger) };
    assert_eq!(deposit(&d, 10).err(), Some(VaultError::UnauthorizedAccess));
    assert_eq!(decide_deposit(&d, 0, true).err(), Some(VaultError::UnauthorizedAccess));

    let wd = Withdraw { authority: stranger, ..withdraw_ctx(&w, vault, &ledger) };
    assert_eq!(withdraw(&wd, 10).err(), Some(VaultError::UnauthorizedAccess));
    let locked = Vault { is_locked: true, ..vault };
    let wd = Withdraw { authority: stranger, ..withdraw_ctx(&w, locked, &ledger) };
    assert_eq!(withdraw(&wd, 10).err(), Some(VaultError::UnauthorizedAccess));
    assert_eq!(decide_withdraw(&wd, 0, true, true).err(), Some(VaultError::UnauthorizedAccess));

    let mut l = LockVault { vault_key: w.vault_key, vault, authority: stranger };
    assert_eq!(lock_vault(&mut l, 5), Err(VaultError::UnauthorizedAccess));
    assert_eq!(decide_lock(&mut l, 5, true), Err(VaultError::UnauthorizedAccess));
    assert_eq!(l.vault, vault);

    let mut u = UnlockVault { vault_key: w.vault_key, vault: locked, authority: stranger };
    assert_eq!(unlock_vault(&mut u, 5), Err(VaultError::UnauthorizedAccess));
    assert_eq!(decide_unlock(&mut u, 5, true), Err(VaultError::UnauthorizedAccess));
    assert_eq!(u.vault, locked);
}

#[test]
fn locked_vault_refuses_every_withdrawal() {
    let w = world();
    let mut ledger = Ledger::new();
    ledger.fund(&w.custody, 50);
    let locked = Vault { is_locked: true, unlock_timestamp: 0, ..fresh_vault(&w) };
    let ctx = withdraw_ctx(&w, locked, &ledger);
    for amount in [0u64, 1, 50, 51, u64::MAX] {
        assert_eq!(withdraw(&ctx, amount).err(), Some(VaultError::VaultStillLocked));
        assert_eq!(
            decide_withdraw(&ctx, amount, false, false).err(),
            Some(VaultError::VaultStillLocked)
        );
    }
}

#[test]
fn withdraw_guards() {
    let w = world();
    let mut ledger = Ledger::new();
    ledger.fund(&w.custody, 50);
    let vault = fresh_vault(&w);
    let ctx = withdraw_ctx(&w, vault, &ledger);
    assert_eq!(withdraw(&ctx, 0).err(), Some(VaultError::InvalidAmount));
    assert_eq!(withdraw(&ctx, 51).err(), Some(VaultError::InsufficientFunds));
    assert_eq!(withdraw(&ctx, u64::MAX).err(), Some(VaultError::InsufficientFunds));
    assert_eq!(withdraw(&ctx, 50).unwrap().amount, 50);
    assert_eq!(withdraw(&ctx, 1).unwrap().amount, 1);

    let wrong_authority = Withdraw { vault_authority: key(66), ..ctx };
    assert_eq!(withdraw(&wrong_authority, 10).err(), Some(VaultError::AuthorizationError));
    let wrong_bump = Withdraw {
        vault: Vault { authority_bump: w.authority_bump.wrapping_sub(1), ..vault },
        ..ctx
    };
    assert_eq!(withdraw(&wrong_bump, 10).err(), Some(VaultError::AuthorizationError));
    let wrong_place = Withdraw { vault_key: key(67), ..ctx };
    assert_eq!(withdraw(&wrong_place, 10).err(), Some(VaultError::AuthorizationError));
    let wrong_vault_bump = Withdraw { vault: Vault { bump: w.bump.wrapping_sub(1), ..vault }, ..ctx };
    assert_eq!(withdraw(&wrong_vault_bump, 10).err(), Some(VaultError::AuthorizationError));
    let not_mine = Withdraw {
        user_token_account: TokenAccount { owner: key(9), ..ctx.user_token_account },
        ..ctx
    };
    assert_eq!(withdraw(&not_mine, 10).err(), Some(VaultError::UnauthorizedAccess));
    let not_custody = Withdraw {
        vault_token_account: TokenAccount { key: key(21), ..ctx.vault_token_account },
        ..ctx
    };
    assert_eq!(withdraw(&not_custody, 10).err(), Some(VaultError::UnauthorizedAccess));
}

#[test]
fn withdraw_decides_in_order() {
    let w = world();
    let mut ledger = Ledger::new();
    ledger.fund(&w.custody, 50);
    let ctx = withdraw_ctx(&w, fresh_vault(&w), &ledger);
    for amount in [0u64, 1, 50, 51, u64::MAX] {
        assert_eq!(
            decide_withdraw(&ctx, amount, false, false).err(),
            Some(VaultError::AuthorizationError)
        );
        assert_eq!(
            decide_withdraw(&ctx, amount, false, true).err(),
            Some(VaultError::AuthorizationError)
        );
        assert_eq!(
            decide_withdraw(&ctx, amount, true, false).err(),
            Some(VaultError::AuthorizationError)
        );
    }
    let not_mine = Withdraw {
        user_token_account: TokenAccount { owner: key(9), ..ctx.user_token_account },
        ..ctx
    };
    assert_eq!(decide_withdraw(&not_mine, 0, true, false).err(), Some(VaultError::AuthorizationError));
    assert_eq!(decide_withdraw(&not_mine, 0, true, true).err(), Some(VaultError::UnauthorizedAccess));
    assert_eq!(decide_withdraw(&ctx, 0, true, true).err(), Some(VaultError::InvalidAmount));
    assert_eq!(decide_withdraw(&ctx, 51, true, true).err(), Some(VaultError::InsufficientFunds));
    let t = decide_withdraw(&ctx, 50, true, true).unwrap();
    assert_eq!(t.accounts.from, w.custody);
    assert_eq!(t.accounts.to, w.owner_account);
    assert_eq!(t.amount, 50);
}

#[test]
fn withdraw_under_a_wrong_authority_fails_closed() {
    let w = world();
    let mut ledger = Ledger::new();
    ledger.fund(&w.custody, 50);
    let vault = fresh_vault(&w);
    let ctx = withdraw_ctx(&w, vault, &ledger);
    let wrong_authority = Withdraw { vault_authority: key(66), ..ctx };
    let wrong_bump = Withdraw {
        vault: Vault { authority_bump: w.authority_bump.wrapping_sub(1), ..vault },
        ..ctx
    };
    for amount in [0u64, 1, 50, 51, u64::MAX] {
        assert_eq!(
            withdraw(&wrong_authority, amount).err(),
            Some(VaultError::AuthorizationError)
        );
        assert_eq!(withdraw(&wrong_bump, amount).err(), Some(VaultError::AuthorizationError));
    }
    assert_eq!(ledger.balance(&w.custody), 50);
}

#[test]
fn deposit_guards() {
    let w = world();
    let mut ledger = Ledger::new();
    ledger.fund(&w.owner_account, 5);
    let vault = fresh_vault(&w);
    let ctx = deposit_ctx(&w, vault, &ledger);
    assert_eq!(deposit(&ctx, 0).err(), Some(VaultError::InvalidAmount));
    assert_eq!(deposit(&ctx, u64::MAX).unwrap().amount, u64::MAX);
    let locked = Deposit { vault: Vault { is_locked: true, ..vault }, ..ctx };
    assert_eq!(deposit(&locked, 5).unwrap().amount, 5);
    let wrong_place = Deposit { vault_key: key(67), ..ctx };
    assert_eq!(deposit(&wrong_place, 5).err(), Some(VaultError::AuthorizationError));
    let not_mine = Deposit {
        user_token_account: TokenAccount { owner: key(9), ..ctx.user_token_account },
        ..ctx
    };
    assert_eq!(deposit(&not_mine, 5).err(), Some(VaultError::UnauthorizedAccess));
    let not_custody = Deposit {
        vault_token_account: TokenAccount { key: key(21), ..ctx.vault_token_account },
        ..ctx
    };
    assert_eq!(deposit(&not_custody, 5).err(), Some(VaultError::UnauthorizedAccess));
    assert_eq!(decide_deposit(&ctx, 5, false).err(), Some(VaultError::AuthorizationError));
}

#[test]
fn lock_takes_any_time() {
    let w = world();
    let vault = fresh_vault(&w);
    let mut l = LockVault { vault_key: w.vault_key, vault, authority: w.owner };
    assert_eq!(lock_vault(&mut l, -5), Ok(()));
    assert!(l.vault.is_locked);
    assert_eq!(l.vault.unlock_timestamp, -5);
    assert_eq!(l.vault, Vault { is_locked: true, unlock_timestamp: -5, ..vault });
    let mut u = UnlockVault { vault_key: w.vault_key, vault: l.vault, authority: w.owner };
    assert_eq!(unlock_vault(&mut u, 0), Ok(()));
    assert_eq!(u.vault, vault);

    assert_eq!(lock_vault(&mut l, i64::MAX), Ok(()));
    let mut u = UnlockVault { vault_key: w.vault_key, vault: l.vault, authority: w.owner };
    assert_eq!(unlock_vault(&mut u, i64::MAX - 1), Err(VaultError::VaultStillLocked));
    assert_eq!(unlock_vault(&mut u, i64::MAX), Ok(()));

    let mut elsewhere = LockVault { vault_key: key(67), vault, authority: w.owner };
    assert_eq!(lock_vault(&mut elsewhere, 7), Err(VaultError::AuthorizationError));
    assert_eq!(elsewhere.vault, vault);
}

#[test]
fn unlock_of_an_unlocked_vault() {
    let w = world();
    let vault = fresh_vault(&w);
    let mut u = UnlockVault { vault_key: w.vault_key, vault, authority: w.owner };
    assert_eq!(unlock_vault(&mut u, -1), Err(VaultError::VaultStillLocked));
    assert_eq!(unlock_vault(&mut u, 0), Ok(()));
    assert_eq!(u.vault, vault);
    let mut elsewhere = UnlockVault { vault_key: key(67), vault, authority: w.owner };
    assert_eq!(unlock_vault(&mut elsewhere, 0), Err(VaultError::AuthorizationError));
    assert_eq!(decide_unlock(&mut u, -1, false), Err(VaultError::VaultStillLocked));
    assert_eq!(decide_unlock(&mut u, 0, false), Err(VaultError::AuthorizationError));
}

#[test]
fn transfers_compare_by_value() {
    let a = Transfer { from: key(1), to: key(2), authority: key(3) };
    let t = LedgerTransfer {
        accounts: a,
        signer: Some(SignerSeeds { vault: key(4), bump: 5 }),
        amount: 6,
    };
    assert_eq!(t, t);
    assert_ne!(t, LedgerTransfer { signer: None, ..t });
    assert_ne!(t, LedgerTransfer { amount: 7, ..t });
}

#[test]
fn signer_seeds_give_the_authority() {
    let w = world();
    let seeds = signer_seed_list(&SignerSeeds { vault: w.vault_key, bump: w.authority_bump });
    assert_eq!(
        seeds,
        vec![b"authority".to_vec(), w.vault_key.bytes.to_vec(), vec![w.authority_bump]]
    );
    let parts: Vec<&[u8]> = seeds.iter().map(|s| s.as_slice()).collect();
    let signed_for = Pubkey::create_program_address(&parts, &program_id_key()).unwrap();
    assert_eq!(signed_for.to_bytes(), w.vault_authority.bytes);
}
