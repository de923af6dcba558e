//! Derived addresses, held against the host's own derivation.

use askbid::address::{
    find, rent_sysvar_id, system_program_id, token_program_id, validate, Address, Label, Seeds,
};
use solana_program::pubkey::Pubkey;
use std::str::FromStr;

fn address(key: &Pubkey) -> Address {
    Address::new(key.to_bytes())
}

fn host_derives(parts: &[&[u8]], program_id: &Pubkey) -> Option<Address> {
    Pubkey::create_program_address(parts, program_id).ok().map(|key| address(&key))
}

#[test]
fn labels_are_their_names_in_ascii() {
    assert_eq!(Label::MintAuthority.bytes(), b"mint_authority".to_vec());
    assert_eq!(Label::SolEscrow.bytes(), b"sol_escrow".to_vec());
    assert_eq!(Label::TokenEscrow.bytes(), b"token_escrow".to_vec());
}

#[test]
fn well_known_addresses_are_the_hosts() {
    assert_eq!(system_program_id(), address(&solana_program::system_program::id()));
    assert_eq!(token_program_id(), address(&spl_token::id()));
    assert_eq!(rent_sysvar_id(), address(&solana_program::sysvar::rent::id()));
    assert_eq!(
        askbid::id(),
        address(&Pubkey::from_str("CtRJbPMscDFRJptvh6snF5GJXDNCJHMFsfYoczds37AV").unwrap())
    );
    assert_eq!(system_program_id().bytes, [0u8; 32]);
    assert_eq!(token_program_id().bytes[0], 6);
    assert_eq!(token_program_id().bytes[31], 169);
}

#[test]
fn addresses_compare_by_their_bytes() {
    let mut bytes = [7u8; 32];
    let a = Address::new(bytes);
    assert_eq!(a, Address::new([7u8; 32]));
    bytes[31] = 8;
    assert!(a != Address::new(bytes));
    assert_eq!(a.to_vec(), vec![7u8; 32]);
}

#[test]
fn mint_authority_is_derived_from_label_and_nonce() {
    let program = Pubkey::new_unique();
    let program_id = address(&program);
    let mut some = 0;
    let mut none = 0;
    for nonce in 0..=255u8 {
        let seeds = Seeds { label: Label::MintAuthority, owner: None, nonce };
        let derived = askbid::address::derive(&seeds, &program_id);
        assert_eq!(derived, host_derives(&[b"mint_authority", &[nonce]], &program));
        match derived {
            Some(a) => {
                some += 1;
                assert!(validate(&a, &seeds, &program_id));
                assert!(!validate(&program_id, &seeds, &program_id));
            }
            None => {
                none += 1;
                assert!(!validate(&program_id, &seeds, &program_id));
            }
        }
    }
    // About half of all hashes name a point on the curve and derive nothing.
    assert!(some > 0 && none > 0);
}

#[test]
fn escrows_are_derived_from_label_order_and_nonce() {
    let program = Pubkey::new_unique();
    let program_id = address(&program);
    let order = Pubkey::new_unique();
    for nonce in [0u8, 1, 2, 100, 254, 255] {
        let sol = Seeds { label: Label::SolEscrow, owner: Some(address(&order)), nonce };
        assert_eq!(
            askbid::address::derive(&sol, &program_id),
            host_derives(&[b"sol_escrow", &order.to_bytes(), &[nonce]], &program)
        );
        let token = Seeds { label: Label::TokenEscrow, owner: Some(address(&order)), nonce };
        assert_eq!(
            askbid::address::derive(&token, &program_id),
            host_derives(&[b"token_escrow", &order.to_bytes(), &[nonce]], &program)
        );
    }
}

#[test]
fn an_escrow_of_one_side_does_not_pass_for_the_other() {
    let program_id = askbid::id();
    let order = address(&Pubkey::new_unique());
    let (sol_escrow, sol_nonce) = find(Label::SolEscrow, Some(order), &program_id).unwrap();
    let as_sol = Seeds { label: Label::SolEscrow, owner: Some(order), nonce: sol_nonce };
    let as_token = Seeds { label: Label::TokenEscrow, owner: Some(order), nonce: sol_nonce };
    assert!(validate(&sol_escrow, &as_sol, &program_id));
    assert!(!validate(&sol_escrow, &as_token, &program_id));
    let other_order = address(&Pubkey::new_unique());
    let of_other = Seeds { label: Label::SolEscrow, owner: Some(other_order), nonce: sol_nonce };
    assert!(!validate(&sol_escrow, &of_other, &program_id));
}

#[test]
fn nothing_is_derived_for_a_native_program() {
    let native = system_program_id();
    for nonce in 0..=255u8 {
        let seeds = Seeds { label: Label::MintAuthority, owner: None, nonce };
        assert_eq!(askbid::address::derive(&seeds, &native), None);
    }
    assert_eq!(find(Label::MintAuthority, None, &native), None);
}

#[test]
fn find_returns_the_greatest_nonce_that_derives() {
    for _ in 0..20 {
        let program = Pubkey::new_unique();
        let program_id = address(&program);
        let order = Pubkey::new_unique();

        let (key, nonce) = Pubkey::find_program_address(&[b"mint_authority"], &program);
        assert_eq!(find(Label::MintAuthority, None, &program_id), Some((address(&key), nonce)));

        let (found, nonce) = find(Label::TokenEscrow, Some(address(&order)), &program_id).unwrap();
        let (key, host_nonce) =
            Pubkey::find_program_address(&[b"token_escrow", &order.to_bytes()], &program);
        assert_eq!((found, nonce), (address(&key), host_nonce));
        assert!(nonce >= 1);
        let seeds = Seeds { label: Label::TokenEscrow, owner: Some(address(&order)), nonce };
        assert_eq!(askbid::address::derive(&seeds, &program_id), Some(found));
        for greater in (nonce as u16 + 1)..=255 {
            let seeds = Seeds {
                label: Label::TokenEscrow,
                owner: Some(address(&order)),
                nonce: greater as u8,
            };
            assert_eq!(askbid::address::derive(&seeds, &program_id), None);
        }
    }
}
