//! A binary-outcome prediction market over search results: the settlement
//! and order-matching rules, stated and proved over plain values.
//!
//! A handler takes the accounts of an instruction as plain values and
//! answers with an [`Outcome`]: operations for the system program and the
//! token program, and records to store. It touches nothing itself; the host
//! carries the outcome out, all of it or none.

pub mod address;
pub mod error;
pub mod instructions;
pub mod invoke;
pub mod laws;
pub mod ledger;
pub mod processor;
pub mod state;

pub use address::{Address, Label, Seeds};
pub use error::SearchMarketError;
pub use instructions::{
    cancel_order, cancel_order_instruction, create_market, create_market_instruction,
    create_order, create_order_instruction, create_result, create_result_instruction, decide,
    decide_instruction, deposit, deposit_instruction, fill_order, fill_order_instruction,
    withdraw, withdraw_instruction, Outcome, ProgramInstruction, SearchMarketInstruction, Write,
    LAMPORTS_PER_TOKEN,
};
pub use invoke::{AccountMeta, Effect, Instruction, Invocation};
pub use ledger::{Ledger, Mint, TokenAccount};
pub use processor::{id, process_instruction, reads_clock};
pub use state::{
    framing, Account, AccountType, Framing, OrderAccount, OrderSide, Record, ResultAccount,
    SearchMarketAccount,
};
