use anchor_lang::prelude::Pubkey;
use std::str::FromStr;
use token_vault::address::Address;
use token_vault::authority::{
    address_matches, derive_authority, derive_stake_address, derive_vault_address, found_matches,
    program_id, verify_authority, verify_vault_address,
};

fn key(b: u8) -> Address {
    Address::new([b; 32])
}

fn program() -> Pubkey {
    Pubkey::from_str("EwbYP92VR6QeHSUpSrV7mGQhhqWNr8fE3z4uP8u4uvGj").unwrap()
}

#[test]
fn program_id_is_the_deployed_address() {
    assert_eq!(program_id().bytes, program().to_bytes());
}

#[test]
fn address_equality_is_by_bytes() {
    assert_eq!(key(1), key(1));
    assert_ne!(key(1), key(2));
    let mut bytes = [7u8; 32];
    bytes[31] = 8;
    assert_ne!(Address::new(bytes), key(7));
    assert_eq!(key(9).to_vec(), vec![9u8; 32]);
}

#[test]
fn derived_authority_is_the_program_address() {
    let vault = key(3);
    let (expected, bump) =
        Pubkey::find_program_address(&[b"authority", vault.bytes.as_ref()], &program());
    let (got, got_bump) = derive_authority(&vault).unwrap();
    assert_eq!(got.bytes, expected.to_bytes());
    assert_eq!(got_bump, bump);
    assert_ne!(got, vault);
}

#[test]
fn derived_vault_address_is_the_program_address() {
    let owner = key(1);
    let (expected, bump) =
        Pubkey::find_program_address(&[b"vault", owner.bytes.as_ref()], &program());
    let (got, got_bump) = derive_vault_address(&owner).unwrap();
    assert_eq!(got.bytes, expected.to_bytes());
    assert_eq!(got_bump, bump);
}

#[test]
fn derived_stake_address_is_the_program_address() {
    let staker = key(5);
    let vault = key(3);
    let (expected, bump) = Pubkey::find_program_address(
        &[b"user-stake", staker.bytes.as_ref(), vault.bytes.as_ref()],
        &program(),
    );
    let (got, got_bump) = derive_stake_address(&staker, &vault).unwrap();
    assert_eq!(got.bytes, expected.to_bytes());
    assert_eq!(got_bump, bump);
    let (swapped, _) = derive_stake_address(&vault, &staker).unwrap();
    assert_ne!(swapped, got);
}

#[test]
fn derivation_is_stable() {
    let vault = key(42);
    assert_eq!(derive_authority(&vault), derive_authority(&vault));
    assert_ne!(derive_authority(&vault), derive_authority(&key(43)));
    assert_ne!(derive_authority(&vault), derive_vault_address(&vault));
}

#[test]
fn derived_authority_verifies() {
    for b in 0..40u8 {
        let vault = key(b);
        let (authority, bump) = derive_authority(&vault).unwrap();
        assert!(verify_authority(&vault, &authority, bump));
    }
}

#[test]
fn verification_fails_closed() {
    let vault = key(3);
    let (authority, bump) = derive_authority(&vault).unwrap();
    assert!(!verify_authority(&vault, &authority, bump.wrapping_sub(1)));
    assert!(!verify_authority(&vault, &authority, bump.wrapping_add(1)));
    assert!(!verify_authority(&vault, &key(9), bump));
    assert!(!verify_authority(&vault, &vault, bump));
    assert!(!verify_authority(&key(4), &authority, bump));
}

#[test]
fn verification_recomputes_under_the_claimed_bump() {
    let vault = key(3);
    let (_, canonical) = derive_authority(&vault).unwrap();
    let mut lower = canonical - 1;
    let other = loop {
        let seeds: [&[u8]; 3] = [b"authority", vault.bytes.as_ref(), &[lower]];
        if let Ok(p) = Pubkey::create_program_address(&seeds, &program()) {
            break Address::new(p.to_bytes());
        }
        lower -= 1;
    };
    assert!(verify_authority(&vault, &other, lower));
    assert!(!verify_authority(&vault, &other, canonical));
}

#[test]
fn vault_address_verifies() {
    let owner = key(1);
    let (vault, bump) = derive_vault_address(&owner).unwrap();
    assert!(verify_vault_address(&owner, &vault, bump));
    assert!(!verify_vault_address(&key(2), &vault, bump));
    assert!(!verify_vault_address(&owner, &key(2), bump));
}

#[test]
fn a_bump_without_an_address_verifies_nothing() {
    let vault = key(3);
    let mut bump = 255u8;
    let found = loop {
        let seeds: [&[u8]; 3] = [b"authority", vault.bytes.as_ref(), &[bump]];
        if Pubkey::create_program_address(&seeds, &program()).is_err() {
            break Some(bump);
        }
        if bump == 0 {
            break None;
        }
        bump -= 1;
    };
    if let Some(bump) = found {
        let (authority, _) = derive_authority(&vault).unwrap();
        assert!(!verify_authority(&vault, &authority, bump));
        assert!(!verify_authority(&vault, &key(0), bump));
    }
}

#[test]
fn matching_of_derived_addresses() {
    assert!(address_matches(Some(key(1)), &key(1)));
    assert!(!address_matches(Some(key(1)), &key(2)));
    assert!(!address_matches(None, &key(1)));
    assert!(found_matches(&Some((key(1), 7)), &key(1)));
    assert!(!found_matches(&Some((key(1), 7)), &key(2)));
    assert!(!found_matches(&None, &key(1)));
}
