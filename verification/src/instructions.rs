//! The instructions of the program, one handler for each. A handler reads
//! the accounts it is given by position, decides whether the instruction
//! stands, and answers with what is to be carried out and written.

use crate::address::{bytes_of, mint_authority_seeds, Address};
use crate::error::SearchMarketError;
use crate::invoke::{AccountMeta, Invocation};
use crate::state::{Account, OrderAccount, OrderSide, Record, ResultAccount, SearchMarketAccount};
use vstd::prelude::*;

pub mod cancel_order;
pub mod create_market;
pub mod create_order;
pub mod create_result;
pub mod decide;
pub mod deposit;
pub mod fill_order;
pub mod withdraw;

pub use cancel_order::{cancel_order, cancel_order_instruction, plan_cancel_order};
pub use create_market::{create_market, create_market_instruction};
pub use create_order::{create_order, create_order_instruction, plan_create_order};
pub use create_result::{create_result, create_result_instruction, plan_create_result};
pub use decide::{decide, decide_instruction};
pub use deposit::{deposit, deposit_instruction, plan_deposit};
pub use fill_order::{fill_order, fill_order_instruction, plan_fill_order};
pub use withdraw::{plan_withdraw, withdraw, withdraw_instruction};

verus! {

/// The native collateral, in lamports, behind one claim token.
pub const LAMPORTS_PER_TOKEN: u64 = 1000;

/// An instruction and its arguments.
#[derive(Clone, Debug, PartialEq, Eq)]
pub enum SearchMarketInstruction {
    CreateMarket { expires_slot: u64, search_string: String },
    CreateResult { url: String, name: String, snippet: String, bump_seed: u8 },
    Deposit { amount: u64 },
    Withdraw { amount: u64 },
    Decide,
    CreateOrder { side: OrderSide, price: u64, quantity: u64, escrow_bump_seed: u8 },
    FillOrder { sol_escrow_bump_seed: u8, token_escrow_bump_seed: u8 },
    CancelOrder,
}

/// An instruction as a client submits it: the program, the accounts in the
/// order of the instruction's layout, and the instruction itself.
#[derive(Clone, Debug, PartialEq, Eq)]
pub struct ProgramInstruction {
    pub program_id: Address,
    pub accounts: Vec<AccountMeta>,
    pub data: SearchMarketInstruction,
}

/// A client's instruction with its accounts as a sequence.
pub struct ProgramInstructionView {
    pub program_id: Address,
    pub accounts: Seq<AccountMeta>,
    pub data: SearchMarketInstruction,
}

impl View for ProgramInstruction {
    type V = ProgramInstructionView;

    open spec fn view(&self) -> ProgramInstructionView {
        ProgramInstructionView {
            program_id: self.program_id,
            accounts: self.accounts@,
            data: self.data,
        }
    }
}

/// An instruction that was built, if it was, taken by its view.
pub open spec fn submitted(built: Option<ProgramInstruction>) -> Option<ProgramInstructionView> {
    match built {
        Some(i) => Some(i@),
        None => None,
    }
}

/// A record to store in the account at a position of the account list.
#[derive(Clone, Debug, PartialEq, Eq)]
pub struct Write {
    pub index: usize,
    pub record: Record,
}

/// What an accepted instruction comes to: the operations to carry out, in
/// order, and then the records to store. The host applies all of it or
/// nothing.
#[derive(Clone, Debug, PartialEq, Eq)]
pub struct Outcome {
    pub invocations: Vec<Invocation>,
    pub writes: Vec<Write>,
}

/// An outcome with its operations and records as sequences.
pub struct OutcomeView {
    pub invocations: Seq<Invocation>,
    pub writes: Seq<Write>,
}

impl View for Outcome {
    type V = OutcomeView;

    open spec fn view(&self) -> OutcomeView {
        OutcomeView { invocations: self.invocations@, writes: self.writes@ }
    }
}

/// A handler's answer, with the outcome taken by its view.
pub open spec fn answer(r: Result<Outcome, SearchMarketError>) -> Result<
    OutcomeView,
    SearchMarketError,
> {
    match r {
        Ok(outcome) => Ok(outcome@),
        Err(e) => Err(e),
    }
}

/// The answer that refuses with `refusal` if there is one, and else accepts
/// with `plan`.
pub open spec fn refuse_or(refusal: Option<SearchMarketError>, plan: OutcomeView) -> Result<
    OutcomeView,
    SearchMarketError,
> {
    match refusal {
        Some(e) => Err(e),
        None => Ok(plan),
    }
}

/// The market that an account holds, if it holds one.
pub open spec fn held_market(account: Account) -> Option<SearchMarketAccount> {
    match account.record {
        Record::Market(m) => Some(m),
        _ => None,
    }
}

/// The result that an account holds, if it holds one.
pub open spec fn held_result(account: Account) -> Option<ResultAccount> {
    match account.record {
        Record::Result(r) => Some(r),
        _ => None,
    }
}

/// The order that an account holds, if it holds one.
pub open spec fn held_order(account: Account) -> Option<OrderAccount> {
    match account.record {
        Record::Order(o) => Some(o),
        _ => None,
    }
}

/// Why an account does not pass for a record of this program, if it does
/// not: another program owns it, or it holds no record of the kind asked
/// for (`held` says whether it does).
pub open spec fn record_refusal(account: Account, program_id: Address, held: bool) -> Option<
    SearchMarketError,
> {
    if account.owner != program_id {
        Some(SearchMarketError::IllegalOwner)
    } else if !held {
        Some(SearchMarketError::InvalidAccountData)
    } else {
        None
    }
}

/// Reads the market out of an account that this program has to own.
pub fn owned_market<'a>(account: &'a Account, program_id: &Address) -> (r: Result<
    &'a SearchMarketAccount,
    SearchMarketError,
>)
    ensures
        match r {
            Ok(m) => held_market(*account) == Some(*m) && account.owner == *program_id,
            Err(e) => record_refusal(*account, *program_id, held_market(*account) is Some) == Some(
                e,
            ),
        },
{
    if account.owner != *program_id {
        return Err(SearchMarketError::IllegalOwner);
    }
    match &account.record {
        Record::Market(m) => Ok(m),
        _ => Err(SearchMarketError::InvalidAccountData),
    }
}

/// Reads the result out of an account that this program has to own.
pub fn owned_result<'a>(account: &'a Account, program_id: &Address) -> (r: Result<
    &'a ResultAccount,
    SearchMarketError,
>)
    ensures
        match r {
            Ok(res) => held_result(*account) == Some(*res) && account.owner == *program_id,
            Err(e) => record_refusal(*account, *program_id, held_result(*account) is Some) == Some(
                e,
            ),
        },
{
    if account.owner != *program_id {
        return Err(SearchMarketError::IllegalOwner);
    }
    match &account.record {
        Record::Result(r) => Ok(r),
        _ => Err(SearchMarketError::InvalidAccountData),
    }
}

/// Whether `account` speaks for `authority`: its key signed the
/// transaction, and it is the authority's key.
pub open spec fn signed_by(account: Account, authority: Address) -> bool {
    account.is_signer && account.key == authority
}

/// Decides whether `account` speaks for `authority`.
pub fn is_signed_by(account: &Account, authority: &Address) -> (ok: bool)
    ensures
        ok == signed_by(*account, *authority),
{
    account.is_signer && account.key == *authority
}

/// The collateral behind `amount` claim tokens, where it fits in 64 bits.
pub open spec fn spec_collateral(amount: u64) -> Option<u64> {
    if amount * LAMPORTS_PER_TOKEN <= u64::MAX {
        Some((amount * LAMPORTS_PER_TOKEN) as u64)
    } else {
        None
    }
}

/// The collateral behind `amount` claim tokens, where it fits in 64 bits.
#[verifier::when_used_as_spec(spec_collateral)]
pub fn collateral(amount: u64) -> (lamports: Option<u64>)
    ensures
        lamports == spec_collateral(amount),
{
    amount.checked_mul(LAMPORTS_PER_TOKEN)
}

/// The address that the seeds of the mint authority derive under
/// `program_id`, with the nonce of the result at position 1, if there is
/// such a result and address.
pub open spec fn recorded_mint_authority(program_id: Address, accounts: Seq<Account>) -> Option<
    Seq<u8>,
> {
    if accounts.len() > 1 && held_result(accounts[1]) is Some {
        mint_authority_seeds(held_result(accounts[1])->0.bump_seed).address(program_id)
    } else {
        None
    }
}

/// Derives the mint authority with the nonce of the result at position 1.
pub fn derive_recorded_mint_authority(program_id: &Address, accounts: &[Account]) -> (derived:
    Option<Address>)
    ensures
        bytes_of(derived) == recorded_mint_authority(*program_id, accounts@),
{
    if accounts.len() > 1 {
        match &accounts[1].record {
            Record::Result(result) => crate::address::derive(
                &mint_authority_seeds(result.bump_seed),
                program_id,
            ),
            _ => None,
        }
    } else {
        None
    }
}

} // verus!
