//! The entry of the program: one instruction, one handler.

use crate::address::Address;
use crate::error::SearchMarketError;
use crate::instructions::{answer, Outcome, OutcomeView, SearchMarketInstruction};
use crate::instructions::cancel_order::{cancel_order, cancel_order_answer};
use crate::instructions::create_market::{create_market, create_market_answer};
use crate::instructions::create_order::{create_order, create_order_answer};
use crate::instructions::create_result::{create_result, create_result_answer};
use crate::instructions::decide::{decide, decide_answer};
use crate::instructions::deposit::{deposit, deposit_answer};
use crate::instructions::fill_order::{fill_order, fill_order_answer};
use crate::instructions::withdraw::{withdraw, withdraw_answer};
use crate::state::Account;
use vstd::prelude::*;

verus! {

/// The address under which the program is deployed.
pub const ID: [u8; 32] = [
    176, 156, 168, 69, 119, 46, 118, 139, 225, 79, 225, 66, 251, 195, 223, 159,
    1, 86, 53, 154, 165, 173, 71, 197, 195, 103, 214, 68, 28, 88, 44, 174,
];

/// The address under which the program is deployed.
pub fn id() -> (a: Address)
    ensures
        a.bytes == ID,
{
    Address { bytes: ID }
}

/// The answer to an instruction: that of its handler, with the
/// instruction's own arguments, the current slot where the handler reads
/// the clock, and `decide_once` where it decides.
pub open spec fn instruction_answer(
    program_id: Address,
    accounts: Seq<Account>,
    instruction: SearchMarketInstruction,
    slot: u64,
    decide_once: bool,
) -> Result<OutcomeView, SearchMarketError> {
    match instruction {
        SearchMarketInstruction::CreateMarket { expires_slot, search_string } => {
            create_market_answer(accounts, expires_slot, search_string)
        },
        SearchMarketInstruction::CreateResult { url, name, snippet, bump_seed } => {
            create_result_answer(program_id, accounts, url, name, snippet, bump_seed, slot)
        },
        SearchMarketInstruction::Deposit { amount } => deposit_answer(
            program_id,
            accounts,
            amount,
            slot,
        ),
        SearchMarketInstruction::Withdraw { amount } => {
            withdraw_answer(program_id, accounts, amount)
        },
        SearchMarketInstruction::Decide => decide_answer(program_id, accounts, slot, decide_once),
        SearchMarketInstruction::CreateOrder { side, price, quantity, escrow_bump_seed } => {
            create_order_answer(program_id, accounts, side, price, quantity, escrow_bump_seed, slot)
        },
        SearchMarketInstruction::FillOrder { sol_escrow_bump_seed, token_escrow_bump_seed } => {
            fill_order_answer(program_id, accounts, sol_escrow_bump_seed, token_escrow_bump_seed)
        },
        SearchMarketInstruction::CancelOrder => cancel_order_answer(program_id, accounts),
    }
}

/// Whether the answer to an instruction depends on the current slot.
pub open spec fn spec_reads_clock(instruction: SearchMarketInstruction) -> bool {
    instruction is CreateResult || instruction is Deposit || instruction is Decide
        || instruction is CreateOrder
}

/// Whether the answer to an instruction depends on the current slot, so
/// that the clock has to be read for it.
pub fn reads_clock(instruction: &SearchMarketInstruction) -> (reads: bool)
    ensures
        reads == spec_reads_clock(*instruction),
{
    match instruction {
        SearchMarketInstruction::CreateResult { .. } => true,
        SearchMarketInstruction::Deposit { .. } => true,
        SearchMarketInstruction::Decide => true,
        SearchMarketInstruction::CreateOrder { .. } => true,
        _ => false,
    }
}

/// Hands an instruction to its handler. `slot` is the current slot, and
/// `decide_once` says whether a decided market keeps its decision.
pub fn process_instruction(
    program_id: &Address,
    accounts: &[Account],
    instruction: SearchMarketInstruction,
    slot: u64,
    decide_once: bool,
) -> (r: Result<Outcome, SearchMarketError>)
    ensures
        answer(r) == instruction_answer(*program_id, accounts@, instruction, slot, decide_once),
{
    match instruction {
        SearchMarketInstruction::CreateMarket { expires_slot, search_string } => create_market(
            program_id,
            accounts,
            expires_slot,
            search_string,
        ),
        SearchMarketInstruction::CreateResult { url, name, snippet, bump_seed } => create_result(
            program_id,
            accounts,
            url,
            name,
            snippet,
            bump_seed,
            slot,
        ),
        SearchMarketInstruction::Deposit { amount } => deposit(program_id, accounts, amount, slot),
        SearchMarketInstruction::Withdraw { amount } => withdraw(program_id, accounts, amount),
        SearchMarketInstruction::Decide => decide(program_id, accounts, slot, decide_once),
        SearchMarketInstruction::CreateOrder { side, price, quantity, escrow_bump_seed } => {
            create_order(program_id, accounts, side, price, quantity, escrow_bump_seed, slot)
        },
        SearchMarketInstruction::FillOrder { sol_escrow_bump_seed, token_escrow_bump_seed } => {
            fill_order(program_id, accounts, sol_escrow_bump_seed, token_escrow_bump_seed)
        },
        SearchMarketInstruction::CancelOrder => cancel_order(program_id, accounts),
    }
}

} // verus!
