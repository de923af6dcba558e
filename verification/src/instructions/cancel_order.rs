//! Cancelling an order: what is left in its escrow goes back.

use crate::address::{
    bytes_of, escrow_seeds, find, is_derived, matches_derived, spec_find, system_program_id,
    token_program_id, Address,
};
use crate::error::SearchMarketError;
use crate::instructions::{
    answer, held_order, refuse_or, submitted, Outcome, OutcomeView, ProgramInstruction,
    ProgramInstructionView, SearchMarketInstruction,
};
use crate::instructions::create_order::escrow_label;
use crate::invoke::{AccountMeta, Effect, Invocation};
use crate::state::{Account, OrderSide, Record};
use vstd::prelude::*;

verus! {

/// Why an order is not cancelled, if it is not. `escrow` is the address
/// that the seeds of the order's escrow derive. The accounts are, by
/// position: the order, the collateral account, the claim account, the
/// escrow, the execution authority, the token program, the system program.
/// Who the caller is plays no part.
pub open spec fn cancel_order_refusal(accounts: Seq<Account>, escrow: Option<Seq<u8>>) -> Option<
    SearchMarketError,
> {
    if accounts.len() < 7 {
        Some(SearchMarketError::NotEnoughAccountKeys)
    } else if held_order(accounts[0]) is None {
        Some(SearchMarketError::InvalidAccountData)
    } else {
        let order = held_order(accounts[0])->0;
        if !matches_derived(accounts[3].key, escrow) {
            Some(SearchMarketError::InvalidDerivedAddress)
        } else if order.side == OrderSide::Buy && order.quantity * order.price > u64::MAX {
            Some(SearchMarketError::Overflow)
        } else {
            None
        }
    }
}

/// What cancelling an order comes to: the escrow of a buy order pays the
/// open quantity at the limit price to the collateral account; the escrow
/// of a sell order hands the open quantity of claims to the claim account.
/// The program signs for the escrow. The order's record stays as it is.
pub open spec fn cancel_order_plan(accounts: Seq<Account>) -> OutcomeView {
    let order = held_order(accounts[0])->0;
    let seeds = escrow_seeds(escrow_label(order.side), accounts[0].key, order.escrow_bump_seed);
    OutcomeView {
        invocations: match order.side {
            OrderSide::Buy => seq![
                Invocation::signed(
                    Effect::Transfer {
                        from: accounts[3].key,
                        to: accounts[1].key,
                        lamports: (order.quantity * order.price) as u64,
                    },
                    seeds,
                ),
            ],
            OrderSide::Sell => seq![
                Invocation::signed(
                    Effect::TokenTransfer {
                        source: accounts[3].key,
                        destination: accounts[2].key,
                        authority: accounts[3].key,
                        amount: order.quantity,
                    },
                    seeds,
                ),
            ],
        },
        writes: seq![],
    }
}

/// Decides on a cancellation, given the address `escrow` that the seeds of
/// the order's escrow derive.
pub fn plan_cancel_order(accounts: &[Account], escrow: Option<Address>) -> (r: Result<
    Outcome,
    SearchMarketError,
>)
    ensures
        answer(r) == refuse_or(
            cancel_order_refusal(accounts@, bytes_of(escrow)),
            cancel_order_plan(accounts@),
        ),
{
    if accounts.len() < 7 {
        return Err(SearchMarketError::NotEnoughAccountKeys);
    }
    let order = match &accounts[0].record {
        Record::Order(order) => *order,
        _ => {
            return Err(SearchMarketError::InvalidAccountData);
        },
    };
    if !is_derived(&accounts[3].key, escrow) {
        return Err(SearchMarketError::InvalidDerivedAddress);
    }
    let seeds = escrow_seeds(
        escrow_label(order.side),
        accounts[0].key,
        order.escrow_bump_seed,
    );
    let mut invocations: Vec<Invocation> = Vec::new();
    match order.side {
        OrderSide::Buy => {
            let lamports = match order.quantity.checked_mul(order.price) {
                Some(lamports) => lamports,
                None => {
                    return Err(SearchMarketError::Overflow);
                },
            };
            invocations.push(
                Invocation {
                    effect: Effect::Transfer {
                        from: accounts[3].key,
                        to: accounts[1].key,
                        lamports,
                    },
                    signer: Some(seeds),
                },
            );
        },
        OrderSide::Sell => {
            invocations.push(
                Invocation {
                    effect: Effect::TokenTransfer {
                        source: accounts[3].key,
                        destination: accounts[2].key,
                        authority: accounts[3].key,
                        amount: order.quantity,
                    },
                    signer: Some(seeds),
                },
            );
        },
    }
    let outcome = Outcome { invocations, writes: Vec::new() };
    proof {
        let plan = cancel_order_plan(accounts@);
        assert(outcome@.invocations =~= plan.invocations);
        assert(outcome@.writes =~= plan.writes);
    }
    Ok(outcome)
}

/// The address that the escrow of the order at the head of `accounts`
/// derives under `program_id`, with the side and the nonce that the order
/// records, if there is such an order and address.
pub open spec fn recorded_escrow(program_id: Address, accounts: Seq<Account>) -> Option<Seq<u8>> {
    if accounts.len() > 0 && held_order(accounts[0]) is Some {
        let order = held_order(accounts[0])->0;
        escrow_seeds(escrow_label(order.side), accounts[0].key, order.escrow_bump_seed).address(
            program_id,
        )
    } else {
        None
    }
}

/// The answer to a cancellation.
pub open spec fn cancel_order_answer(program_id: Address, accounts: Seq<Account>) -> Result<
    OutcomeView,
    SearchMarketError,
> {
    refuse_or(
        cancel_order_refusal(accounts, recorded_escrow(program_id, accounts)),
        cancel_order_plan(accounts),
    )
}

/// Closes an order: checks the escrow against the address derived from the
/// order's own, and answers with the payment that empties it. Any caller
/// may ask for this; the execution authority is not consulted.
pub fn cancel_order(program_id: &Address, accounts: &[Account]) -> (r: Result<
    Outcome,
    SearchMarketError,
>)
    ensures
        answer(r) == cancel_order_answer(*program_id, accounts@),
{
    let escrow = if accounts.len() > 0 {
        match &accounts[0].record {
            Record::Order(order) => crate::address::derive(
                &escrow_seeds(
                    escrow_label(order.side),
                    accounts[0].key,
                    order.escrow_bump_seed,
                ),
                program_id,
            ),
            _ => None,
        }
    } else {
        None
    };
    plan_cancel_order(accounts, escrow)
}

/// The instruction that cancels an order, with the escrow as it was found:
/// the execution authority signs; the order, the two accounts that may
/// receive and the escrow are written to.
pub open spec fn cancel_order_request(
    program_id: Address,
    order: Address,
    sol_account: Address,
    token_account: Address,
    execution_authority: Address,
    escrow: Address,
) -> ProgramInstructionView {
    ProgramInstructionView {
        program_id,
        accounts: seq![
            AccountMeta::new(order, false),
            AccountMeta::new(sol_account, false),
            AccountMeta::new(token_account, false),
            AccountMeta::new(escrow, false),
            AccountMeta::new_readonly(execution_authority, true),
            AccountMeta::new_readonly(token_program_id(), false),
            AccountMeta::new_readonly(system_program_id(), false),
        ],
        data: SearchMarketInstruction::CancelOrder,
    }
}

/// Builds the instruction that cancels an order of the given side; `None`
/// where no nonce derives an escrow for the order.
pub fn cancel_order_instruction(
    program_id: &Address,
    order: &Address,
    side: OrderSide,
    sol_account: &Address,
    token_account: &Address,
    execution_authority: &Address,
) -> (built: Option<ProgramInstruction>)
    ensures
        submitted(built) == (match spec_find(escrow_label(side), Some(*order), *program_id) {
            Some(escrow) => Some(
                cancel_order_request(
                    *program_id,
                    *order,
                    *sol_account,
                    *token_account,
                    *execution_authority,
                    escrow.0,
                ),
            ),
            None => None,
        }),
{
    let (escrow_key, _bump_seed) = match find(escrow_label(side), Some(*order), program_id) {
        Some(found) => found,
        None => {
            return None;
        },
    };
    let mut accounts: Vec<AccountMeta> = Vec::new();
    accounts.push(AccountMeta::new(*order, false));
    accounts.push(AccountMeta::new(*sol_account, false));
    accounts.push(AccountMeta::new(*token_account, false));
    accounts.push(AccountMeta::new(escrow_key, false));
    accounts.push(AccountMeta::new_readonly(*execution_authority, true));
    accounts.push(AccountMeta::new_readonly(token_program_id(), false));
    accounts.push(AccountMeta::new_readonly(system_program_id(), false));
    let built = ProgramInstruction {
        program_id: *program_id,
        accounts,
        data: SearchMarketInstruction::CancelOrder,
    };
    assert(built@.accounts =~= cancel_order_request(
        *program_id,
        *order,
        *sol_account,
        *token_account,
        *execution_authority,
        escrow_key,
    ).accounts);
    Some(built)
}

} // verus!
