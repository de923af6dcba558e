//! The instructions as a client builds them: which accounts, in which
//! order, and who signs.

use askbid::address::{find, Address, Label};
use askbid::{
    cancel_order_instruction, create_market_instruction, create_order_instruction,
    create_result_instruction, decide_instruction, deposit_instruction, fill_order_instruction,
    withdraw_instruction, AccountMeta, OrderSide, SearchMarketInstruction,
};

fn key(n: u8) -> Address {
    Address::new([n; 32])
}

fn program() -> Address {
    askbid::id()
}

fn rw(n: u8) -> AccountMeta {
    AccountMeta::new(key(n), false)
}

fn rw_signer(n: u8) -> AccountMeta {
    AccountMeta::new(key(n), true)
}

fn ro(n: u8) -> AccountMeta {
    AccountMeta::new_readonly(key(n), false)
}

fn ro_signer(n: u8) -> AccountMeta {
    AccountMeta::new_readonly(key(n), true)
}

fn system() -> AccountMeta {
    AccountMeta::new_readonly(askbid::address::system_program_id(), false)
}

fn token() -> AccountMeta {
    AccountMeta::new_readonly(askbid::address::token_program_id(), false)
}

fn rent() -> AccountMeta {
    AccountMeta::new_readonly(askbid::address::rent_sysvar_id(), false)
}

fn mint_authority() -> (Address, u8) {
    find(Label::MintAuthority, None, &program()).unwrap()
}

#[test]
fn create_market_request() {
    let built =
        create_market_instruction(&program(), &key(1), &key(2), 7, String::from("cyberpunk"));
    assert_eq!(built.program_id, program());
    assert_eq!(built.accounts, vec![rw(1), ro_signer(2)]);
    assert_eq!(
        built.data,
        SearchMarketInstruction::CreateMarket {
            expires_slot: 7,
            search_string: String::from("cyberpunk")
        }
    );
}

#[test]
fn create_result_request() {
    let built = create_result_instruction(
        &program(),
        &key(1),
        &key(2),
        &key(3),
        &key(4),
        String::from("http://cyberpunk.net"),
        String::from("Cyberpunk website"),
        String::from("A game fated to be legend"),
    )
    .unwrap();
    let (authority, bump_seed) = mint_authority();
    assert_eq!(built.program_id, program());
    assert_eq!(
        built.accounts,
        vec![
            rw(1),
            ro(2),
            rw(3),
            rw(4),
            AccountMeta::new_readonly(authority, false),
            rent(),
            token()
        ]
    );
    assert_eq!(
        built.data,
        SearchMarketInstruction::CreateResult {
            url: String::from("http://cyberpunk.net"),
            name: String::from("Cyberpunk website"),
            snippet: String::from("A game fated to be legend"),
            bump_seed,
        }
    );
}

#[test]
fn deposit_request() {
    let built = deposit_instruction(
        &program(),
        &key(1),
        &key(2),
        &key(3),
        &key(4),
        &key(5),
        &key(6),
        &key(7),
        100,
    )
    .unwrap();
    let (authority, _) = mint_authority();
    assert_eq!(
        built.accounts,
        vec![
            ro(1),
            ro(2),
            rw_signer(3),
            system(),
            token(),
            AccountMeta::new(authority, false),
            rw(4),
            rw(5),
            rw(6),
            rw(7)
        ]
    );
    assert_eq!(built.data, SearchMarketInstruction::Deposit { amount: 100 });
}

#[test]
fn withdraw_request() {
    let built = withdraw_instruction(
        &program(),
        &key(1),
        &key(2),
        &key(3),
        &key(8),
        &key(4),
        &key(5),
        &key(6),
        &key(7),
        99,
    )
    .unwrap();
    let (authority, _) = mint_authority();
    assert_eq!(
        built.accounts,
        vec![
            ro(1),
            ro(2),
            rw_signer(3),
            system(),
            token(),
            AccountMeta::new(authority, false),
            ro_signer(8),
            rw(4),
            rw(5),
            rw(6),
            rw(7)
        ]
    );
    assert_eq!(built.data, SearchMarketInstruction::Withdraw { amount: 99 });
}

#[test]
fn decide_request() {
    let built = decide_instruction(&program(), &key(1), &key(2), &key(3));
    assert_eq!(built.program_id, program());
    assert_eq!(built.accounts, vec![rw(1), ro_signer(2), ro(3)]);
    assert_eq!(built.data, SearchMarketInstruction::Decide);
}

fn create_order(side: OrderSide) -> askbid::ProgramInstruction {
    create_order_instruction(
        &program(),
        &key(1),
        &key(2),
        &key(3),
        &key(4),
        &key(5),
        &key(6),
        &key(7),
        &key(8),
        side,
        500,
        100,
    )
    .unwrap()
}

#[test]
fn create_buy_order_request() {
    let built = create_order(OrderSide::Buy);
    let (escrow, escrow_bump_seed) = find(Label::SolEscrow, Some(key(1)), &program()).unwrap();
    assert_eq!(
        built.accounts,
        vec![
            rw(1),
            ro(2),
            ro(3),
            rw_signer(4),
            rw(5),
            ro(6),
            ro(7),
            AccountMeta::new(escrow, false),
            ro_signer(8),
            token(),
            rent(),
            system()
        ]
    );
    assert_eq!(
        built.data,
        SearchMarketInstruction::CreateOrder {
            side: OrderSide::Buy,
            price: 500,
            quantity: 100,
            escrow_bump_seed
        }
    );
}

#[test]
fn create_sell_order_request() {
    let built = create_order(OrderSide::Sell);
    let (escrow, escrow_bump_seed) = find(Label::TokenEscrow, Some(key(1)), &program()).unwrap();
    assert_eq!(
        built.accounts,
        vec![
            rw(1),
            ro(2),
            ro(3),
            rw(4),
            rw(5),
            ro(6),
            ro_signer(7),
            AccountMeta::new(escrow, false),
            ro_signer(8),
            token(),
            rent(),
            system()
        ]
    );
    assert_eq!(
        built.data,
        SearchMarketInstruction::CreateOrder {
            side: OrderSide::Sell,
            price: 500,
            quantity: 100,
            escrow_bump_seed
        }
    );
}

#[test]
fn fill_order_request() {
    let built =
        fill_order_instruction(&program(), &key(1), &key(2), &key(3), &key(4), &key(5)).unwrap();
    let (sol_escrow, sol_escrow_bump_seed) =
        find(Label::SolEscrow, Some(key(1)), &program()).unwrap();
    let (token_escrow, token_escrow_bump_seed) =
        find(Label::TokenEscrow, Some(key(3)), &program()).unwrap();
    assert_eq!(
        built.accounts,
        vec![
            rw(1),
            rw(2),
            rw(3),
            rw(4),
            AccountMeta::new(sol_escrow, false),
            AccountMeta::new(token_escrow, false),
            ro_signer(5),
            token(),
            system()
        ]
    );
    assert_eq!(
        built.data,
        SearchMarketInstruction::FillOrder { sol_escrow_bump_seed, token_escrow_bump_seed }
    );
}

#[test]
fn cancel_order_request() {
    let built =
        cancel_order_instruction(&program(), &key(1), OrderSide::Sell, &key(2), &key(3), &key(4))
            .unwrap();
    let (escrow, _) = find(Label::TokenEscrow, Some(key(1)), &program()).unwrap();
    assert_eq!(
        built.accounts,
        vec![rw(1), rw(2), rw(3), AccountMeta::new(escrow, false), ro_signer(4), token(), system()]
    );
    assert_eq!(built.data, SearchMarketInstruction::CancelOrder);
    let buy =
        cancel_order_instruction(&program(), &key(1), OrderSide::Buy, &key(2), &key(3), &key(4))
            .unwrap();
    let (escrow, _) = find(Label::SolEscrow, Some(key(1)), &program()).unwrap();
    assert_eq!(buy.accounts[3], AccountMeta::new(escrow, false));
}

#[test]
fn no_request_without_a_derived_address() {
    // Nothing is derived for a native program, so nothing can be built for one.
    let native = askbid::address::system_program_id();
    assert_eq!(
        deposit_instruction(
            &native,
            &key(1),
            &key(2),
            &key(3),
            &key(4),
            &key(5),
            &key(6),
            &key(7),
            1
        ),
        None
    );
    assert_eq!(
        fill_order_instruction(&native, &key(1), &key(2), &key(3), &key(4), &key(5)),
        None
    );
    assert_eq!(
        cancel_order_instruction(&native, &key(1), OrderSide::Buy, &key(2), &key(3), &key(4)),
        None
    );
}
