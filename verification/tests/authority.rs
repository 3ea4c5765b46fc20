use std::str::FromStr;

use anchor_lang::solana_program::pubkey::Pubkey;
use wolf_stake::address::Address;
use wolf_stake::authority::{
    id, user_address, user_seeds, vault_address, vault_authority, vault_seeds, vault_signer_seeds,
};

fn program() -> Pubkey {
    Pubkey::from_str("6PXA5EtWqQ7r9agVNYm5sPPXCao2DxRwuE5HkTQ4d6uZ").unwrap()
}

fn mint() -> Address {
    let mut bytes = [0u8; 32];
    for i in 0..32 {
        bytes[i] = (3 * i + 1) as u8;
    }
    Address::new(bytes)
}

#[test]
fn program_address_is_the_declared_one() {
    assert_eq!(id().bytes, program().to_bytes());
}

#[test]
fn vault_seeds_are_the_tag_and_the_token_type() {
    let mint = mint();
    assert_eq!(vault_seeds(&mint), vec![b"vault".to_vec(), mint.bytes.to_vec()]);
}

#[test]
fn user_seeds_are_the_tag_and_the_participant() {
    let participant = Address::new([9; 32]);
    assert_eq!(user_seeds(&participant), vec![b"user".to_vec(), vec![9u8; 32]]);
}

#[test]
fn signer_seeds_end_with_the_nonce() {
    let mint = mint();
    assert_eq!(
        vault_signer_seeds(&mint, 254),
        vec![b"vault".to_vec(), mint.bytes.to_vec(), vec![254u8]]
    );
}

#[test]
fn vault_address_is_the_program_derived_address() {
    let mint = mint();
    let (expected, bump) = Pubkey::find_program_address(&[b"vault", &mint.bytes], &program());
    let (address, nonce) = vault_address(&mint).unwrap();
    assert_eq!(address.bytes, expected.to_bytes());
    assert_eq!(nonce, bump);
}

#[test]
fn user_address_is_the_program_derived_address() {
    let participant = Address::new([9; 32]);
    let (expected, bump) =
        Pubkey::find_program_address(&[b"user", &participant.bytes], &program());
    let (address, nonce) = user_address(&participant).unwrap();
    assert_eq!(address.bytes, expected.to_bytes());
    assert_eq!(nonce, bump);
}

#[test]
fn derived_address_is_neither_seed_nor_program() {
    let mint = mint();
    let (address, nonce) = vault_address(&mint).unwrap();
    assert!(nonce >= 1);
    assert_ne!(address, mint);
    assert_ne!(address, id());
    assert_ne!(vault_authority(&mint, nonce), Some(mint));
}

#[test]
fn vault_and_user_addresses_of_one_key_differ() {
    let key = Address::new([9; 32]);
    assert_ne!(vault_address(&key).unwrap().0, user_address(&key).unwrap().0);
}

#[test]
fn different_token_types_have_different_vaults() {
    let a = vault_address(&Address::new([1; 32])).unwrap().0;
    let b = vault_address(&Address::new([2; 32])).unwrap().0;
    assert_ne!(a, b);
}

#[test]
fn derivation_is_repeatable() {
    let mint = mint();
    assert_eq!(vault_address(&mint), vault_address(&mint));
    assert_eq!(vault_authority(&mint, 255), vault_authority(&mint, 255));
}

#[test]
fn derived_nonce_reconstructs_the_derived_address() {
    for seed in 0..20u8 {
        let mint = Address::new([seed; 32]);
        let (address, nonce) = vault_address(&mint).unwrap();
        assert_eq!(vault_authority(&mint, nonce), Some(address));
    }
}

#[test]
fn no_higher_nonce_reconstructs_an_address() {
    for seed in 0..20u8 {
        let mint = Address::new([seed; 32]);
        let (_, nonce) = vault_address(&mint).unwrap();
        for higher in (nonce as u16 + 1)..=255 {
            assert_eq!(vault_authority(&mint, higher as u8), None);
        }
    }
}

#[test]
fn another_nonce_never_reconstructs_the_derived_address() {
    let mint = mint();
    let (address, nonce) = vault_address(&mint).unwrap();
    for other in 0..=255u8 {
        if other != nonce {
            assert_ne!(vault_authority(&mint, other), Some(address));
        }
    }
}

#[test]
fn reconstruction_agrees_with_the_address_library() {
    let mint = mint();
    for nonce in 0..=255u8 {
        let expected = Pubkey::create_program_address(&[b"vault", &mint.bytes, &[nonce]], &program())
            .ok()
            .map(|key| Address::new(key.to_bytes()));
        assert_eq!(vault_authority(&mint, nonce), expected);
    }
}
