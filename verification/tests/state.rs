//! Records and their framing.

use askbid::address::{to_parts, Address, Label, Seeds};
use askbid::{framing, reads_clock, AccountType, Framing, OrderSide, SearchMarketInstruction};

#[test]
fn kinds_have_their_tags() {
    assert_eq!(AccountType::SearchMarket.tag(), 0);
    assert_eq!(AccountType::Result.tag(), 1);
    assert_eq!(AccountType::Order.tag(), 2);
}

#[test]
fn data_without_a_set_bit_is_blank() {
    assert_eq!(framing(&[]), Framing::Blank);
    assert_eq!(framing(&[0]), Framing::Blank);
    assert_eq!(framing(&[0; 200]), Framing::Blank);
}

#[test]
fn the_first_byte_tells_the_kind() {
    assert_eq!(framing(&[0, 0, 7]), Framing::Tagged(AccountType::SearchMarket));
    assert_eq!(framing(&[0, 1]), Framing::Tagged(AccountType::SearchMarket));
    assert_eq!(framing(&[1]), Framing::Tagged(AccountType::Result));
    assert_eq!(framing(&[1, 0, 0]), Framing::Tagged(AccountType::Result));
    assert_eq!(framing(&[2, 0, 9, 9]), Framing::Tagged(AccountType::Order));
    assert_eq!(framing(&[3]), Framing::Foreign);
    assert_eq!(framing(&[255, 0, 0]), Framing::Foreign);
}

#[test]
fn four_instructions_read_the_clock() {
    let text = || String::from("x");
    assert!(!reads_clock(&SearchMarketInstruction::CreateMarket {
        expires_slot: 1,
        search_string: text()
    }));
    assert!(reads_clock(&SearchMarketInstruction::CreateResult {
        url: text(),
        name: text(),
        snippet: text(),
        bump_seed: 0
    }));
    assert!(reads_clock(&SearchMarketInstruction::Deposit { amount: 1 }));
    assert!(!reads_clock(&SearchMarketInstruction::Withdraw { amount: 1 }));
    assert!(reads_clock(&SearchMarketInstruction::Decide));
    assert!(reads_clock(&SearchMarketInstruction::CreateOrder {
        side: OrderSide::Buy,
        price: 1,
        quantity: 1,
        escrow_bump_seed: 0
    }));
    assert!(!reads_clock(&SearchMarketInstruction::FillOrder {
        sol_escrow_bump_seed: 0,
        token_escrow_bump_seed: 0
    }));
    assert!(!reads_clock(&SearchMarketInstruction::CancelOrder));
}

#[test]
fn seeds_are_label_owner_and_nonce() {
    let authority = Seeds { label: Label::MintAuthority, owner: None, nonce: 254 };
    assert_eq!(to_parts(&authority), vec![b"mint_authority".to_vec(), vec![254]]);
    let order = Address::new([5; 32]);
    let escrow = Seeds { label: Label::SolEscrow, owner: Some(order), nonce: 7 };
    assert_eq!(to_parts(&escrow), vec![b"sol_escrow".to_vec(), vec![5; 32], vec![7]]);
    let escrow = Seeds { label: Label::TokenEscrow, owner: Some(order), nonce: 0 };
    assert_eq!(to_parts(&escrow), vec![b"token_escrow".to_vec(), vec![5; 32], vec![0]]);
}
