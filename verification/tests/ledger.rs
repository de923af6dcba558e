//! The ledger in memory.

use askbid::address::{find, Address, Label, Seeds};
use askbid::{Effect, Invocation, Ledger, Mint, TokenAccount};

fn key(n: u8) -> Address {
    Address::new([n; 32])
}

fn plain(effect: Effect) -> Invocation {
    Invocation { effect, signer: None }
}

const PROGRAM: u8 = 200;

/// A mint at 10 under the authority 11, with the accounts 20 and 21 of the
/// owners 30 and 31.
fn with_mint() -> Ledger {
    let mut ledger = Ledger::new();
    let program = key(PROGRAM);
    assert!(ledger.invoke(
        &plain(Effect::InitializeMint { mint: key(10), authority: key(11), decimals: 9 }),
        &program,
        &[]
    ));
    assert!(ledger.invoke(
        &plain(Effect::InitializeAccount { account: key(20), mint: key(10), owner: key(30) }),
        &program,
        &[]
    ));
    assert!(ledger.invoke(
        &plain(Effect::InitializeAccount { account: key(21), mint: key(10), owner: key(31) }),
        &program,
        &[]
    ));
    ledger
}

#[test]
fn a_new_ledger_is_empty() {
    let ledger = Ledger::new();
    assert_eq!(ledger.balance(&key(1)), 0);
    assert_eq!(ledger.mint(&key(1)), None);
    assert_eq!(ledger.token_account(&key(1)), None);
}

#[test]
fn balances_are_set_and_replaced() {
    let mut ledger = Ledger::new();
    ledger.set_balance(key(1), 5);
    ledger.set_balance(key(2), 7);
    ledger.set_balance(key(1), 6);
    assert_eq!(ledger.balance(&key(1)), 6);
    assert_eq!(ledger.balance(&key(2)), 7);
}

#[test]
fn transfer_needs_the_payer_to_sign_and_to_have_the_amount() {
    let mut ledger = Ledger::new();
    let program = key(PROGRAM);
    ledger.set_balance(key(1), 10);
    let pay = plain(Effect::Transfer { from: key(1), to: key(2), lamports: 4 });
    assert!(!ledger.invoke(&pay, &program, &[]));
    assert!(!ledger.invoke(&pay, &program, &[key(2)]));
    assert_eq!(ledger.balance(&key(1)), 10);
    assert!(ledger.invoke(&pay, &program, &[key(1)]));
    assert_eq!(ledger.balance(&key(1)), 6);
    assert_eq!(ledger.balance(&key(2)), 4);
    let too_much = plain(Effect::Transfer { from: key(1), to: key(2), lamports: 7 });
    assert!(!ledger.invoke(&too_much, &program, &[key(1)]));
    assert_eq!(ledger.balance(&key(1)), 6);
    assert_eq!(ledger.balance(&key(2)), 4);
}

#[test]
fn transfer_does_not_overflow_the_recipient() {
    let mut ledger = Ledger::new();
    let program = key(PROGRAM);
    ledger.set_balance(key(1), 10);
    ledger.set_balance(key(2), u64::MAX - 3);
    let pay = plain(Effect::Transfer { from: key(1), to: key(2), lamports: 4 });
    assert!(!ledger.invoke(&pay, &program, &[key(1)]));
    let pay = plain(Effect::Transfer { from: key(1), to: key(2), lamports: 3 });
    assert!(ledger.invoke(&pay, &program, &[key(1)]));
    assert_eq!(ledger.balance(&key(2)), u64::MAX);
}

#[test]
fn transfer_to_oneself_changes_nothing() {
    let mut ledger = Ledger::new();
    let program = key(PROGRAM);
    ledger.set_balance(key(1), 10);
    let pay = plain(Effect::Transfer { from: key(1), to: key(1), lamports: 10 });
    assert!(ledger.invoke(&pay, &program, &[key(1)]));
    assert_eq!(ledger.balance(&key(1)), 10);
}

#[test]
fn the_program_signs_for_its_derived_addresses() {
    let mut ledger = Ledger::new();
    let program = askbid::id();
    let (authority, nonce) = find(Label::MintAuthority, None, &program).unwrap();
    ledger.set_balance(authority, 10);
    let effect = Effect::Transfer { from: authority, to: key(2), lamports: 4 };
    let seeds = Seeds { label: Label::MintAuthority, owner: None, nonce };
    assert!(!ledger.invoke(&plain(effect), &program, &[]));
    let wrong = Seeds { label: Label::SolEscrow, owner: None, nonce };
    assert!(!ledger.invoke(&Invocation { effect, signer: Some(wrong) }, &program, &[]));
    // The seeds derive the address under this program only.
    assert!(!ledger.invoke(&Invocation { effect, signer: Some(seeds) }, &key(PROGRAM), &[]));
    assert!(ledger.invoke(&Invocation { effect, signer: Some(seeds) }, &program, &[]));
    assert_eq!(ledger.balance(&authority), 6);
    assert_eq!(ledger.balance(&key(2)), 4);
}

#[test]
fn mints_and_accounts_are_opened_once() {
    let mut ledger = with_mint();
    let program = key(PROGRAM);
    assert_eq!(ledger.mint(&key(10)), Some(Mint { authority: key(11), decimals: 9, supply: 0 }));
    assert_eq!(
        ledger.token_account(&key(20)),
        Some(TokenAccount { mint: key(10), owner: key(30), amount: 0 })
    );
    assert!(!ledger.invoke(
        &plain(Effect::InitializeMint { mint: key(10), authority: key(12), decimals: 9 }),
        &program,
        &[]
    ));
    assert!(!ledger.invoke(
        &plain(Effect::InitializeMint { mint: key(20), authority: key(12), decimals: 9 }),
        &program,
        &[]
    ));
    assert!(!ledger.invoke(
        &plain(Effect::InitializeAccount { account: key(20), mint: key(10), owner: key(32) }),
        &program,
        &[]
    ));
    assert!(!ledger.invoke(
        &plain(Effect::InitializeAccount { account: key(22), mint: key(99), owner: key(32) }),
        &program,
        &[]
    ));
    assert_eq!(ledger.mint(&key(10)).unwrap().authority, key(11));
    assert_eq!(ledger.token_account(&key(20)).unwrap().owner, key(30));
    assert_eq!(ledger.token_account(&key(22)), None);
}

#[test]
fn minting_is_for_the_mint_authority() {
    let mut ledger = with_mint();
    let program = key(PROGRAM);
    let mint = |authority: u8, amount: u64| {
        plain(Effect::MintTo { mint: key(10), account: key(20), authority: key(authority), amount })
    };
    assert!(!ledger.invoke(&mint(11, 5), &program, &[]));
    assert!(!ledger.invoke(&mint(30, 5), &program, &[key(30)]));
    assert!(ledger.invoke(&mint(11, 5), &program, &[key(11)]));
    assert!(ledger.invoke(&mint(11, 7), &program, &[key(11)]));
    assert_eq!(ledger.mint(&key(10)).unwrap().supply, 12);
    assert_eq!(ledger.token_account(&key(20)).unwrap().amount, 12);
    assert!(!ledger.invoke(&mint(11, u64::MAX), &program, &[key(11)]));
    assert_eq!(ledger.mint(&key(10)).unwrap().supply, 12);
}

#[test]
fn burning_is_for_the_owner_and_within_the_holding() {
    let mut ledger = with_mint();
    let program = key(PROGRAM);
    assert!(ledger.invoke(
        &plain(Effect::MintTo { mint: key(10), account: key(20), authority: key(11), amount: 12 }),
        &program,
        &[key(11)]
    ));
    let burn = |authority: u8, amount: u64| {
        plain(Effect::Burn { account: key(20), mint: key(10), authority: key(authority), amount })
    };
    assert!(!ledger.invoke(&burn(30, 5), &program, &[]));
    assert!(!ledger.invoke(&burn(11, 5), &program, &[key(11)]));
    assert!(!ledger.invoke(&burn(30, 13), &program, &[key(30)]));
    assert!(ledger.invoke(&burn(30, 5), &program, &[key(30)]));
    assert_eq!(ledger.mint(&key(10)).unwrap().supply, 7);
    assert_eq!(ledger.token_account(&key(20)).unwrap().amount, 7);
}

#[test]
fn claims_move_between_accounts_of_one_mint() {
    let mut ledger = with_mint();
    let program = key(PROGRAM);
    assert!(ledger.invoke(
        &plain(Effect::MintTo { mint: key(10), account: key(20), authority: key(11), amount: 12 }),
        &program,
        &[key(11)]
    ));
    let transfer = |authority: u8, amount: u64| {
        plain(Effect::TokenTransfer {
            source: key(20),
            destination: key(21),
            authority: key(authority),
            amount,
        })
    };
    assert!(!ledger.invoke(&transfer(30, 5), &program, &[]));
    assert!(!ledger.invoke(&transfer(31, 5), &program, &[key(31)]));
    assert!(!ledger.invoke(&transfer(30, 13), &program, &[key(30)]));
    assert!(ledger.invoke(&transfer(30, 5), &program, &[key(30)]));
    assert_eq!(ledger.token_account(&key(20)).unwrap().amount, 7);
    assert_eq!(ledger.token_account(&key(21)).unwrap().amount, 5);
    assert_eq!(ledger.mint(&key(10)).unwrap().supply, 12);

    // An account of another mint does not take them.
    assert!(ledger.invoke(
        &plain(Effect::InitializeMint { mint: key(40), authority: key(11), decimals: 9 }),
        &program,
        &[]
    ));
    assert!(ledger.invoke(
        &plain(Effect::InitializeAccount { account: key(41), mint: key(40), owner: key(31) }),
        &program,
        &[]
    ));
    let across = plain(Effect::TokenTransfer {
        source: key(20),
        destination: key(41),
        authority: key(30),
        amount: 1,
    });
    assert!(!ledger.invoke(&across, &program, &[key(30)]));
}

#[test]
fn a_run_is_carried_out_in_full_or_not_at_all() {
    let mut ledger = with_mint();
    let program = key(PROGRAM);
    ledger.set_balance(key(1), 10);
    let run = vec![
        plain(Effect::Transfer { from: key(1), to: key(2), lamports: 4 }),
        plain(Effect::MintTo { mint: key(10), account: key(20), authority: key(11), amount: 12 }),
        plain(Effect::Burn { account: key(20), mint: key(10), authority: key(30), amount: 13 }),
    ];
    assert!(!ledger.invoke_all(&run, &program, &[key(1), key(11), key(30)]));
    assert_eq!(ledger.balance(&key(1)), 10);
    assert_eq!(ledger.balance(&key(2)), 0);
    assert_eq!(ledger.mint(&key(10)).unwrap().supply, 0);
    assert_eq!(ledger.token_account(&key(20)).unwrap().amount, 0);

    assert!(ledger.invoke_all(&run[..2], &program, &[key(1), key(11)]));
    assert_eq!(ledger.balance(&key(1)), 6);
    assert_eq!(ledger.balance(&key(2)), 4);
    assert_eq!(ledger.mint(&key(10)).unwrap().supply, 12);
    assert!(ledger.invoke_all(&[], &program, &[]));
}
