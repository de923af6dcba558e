//! Filling orders: a buy order and a sell order that cross are settled
//! against each other out of their escrows.

use crate::address::{
    bytes_of, escrow_seeds, find, is_derived, matches_derived, spec_find, system_program_id,
    token_program_id, Address, Label,
};
use crate::error::SearchMarketError;
use crate::instructions::{
    answer, held_order, is_signed_by, refuse_or, signed_by, submitted, Outcome, OutcomeView,
    ProgramInstruction, ProgramInstructionView, SearchMarketInstruction, Write,
};
use crate::invoke::{AccountMeta, Effect, Invocation};
use crate::state::{Account, OrderAccount, Record};
use vstd::prelude::*;

verus! {

/// The price at which two orders execute: the limit of the order that was
/// created first, and of the buy order when both were created in one slot.
pub open spec fn execution_price(buy: OrderAccount, sell: OrderAccount) -> u64 {
    if buy.creation_slot <= sell.creation_slot {
        buy.price
    } else {
        sell.price
    }
}

/// The quantity that two orders execute: the smaller of their open quantities.
pub open spec fn executed_quantity(buy: OrderAccount, sell: OrderAccount) -> u64 {
    if buy.quantity <= sell.quantity {
        buy.quantity
    } else {
        sell.quantity
    }
}

/// Why two orders are not filled, if they are not. `sol_escrow` and
/// `token_escrow` are the addresses that the seeds of the two escrows
/// derive. The accounts are, by position: the buy order, the buyer's claim
/// account, the sell order, the seller's collateral account, the escrow of
/// the buy order, the escrow of the sell order, the execution authority,
/// the token program, the system program.
pub open spec fn fill_order_refusal(
    accounts: Seq<Account>,
    sol_escrow: Option<Seq<u8>>,
    token_escrow: Option<Seq<u8>>,
) -> Option<SearchMarketError> {
    if accounts.len() < 9 {
        Some(SearchMarketError::NotEnoughAccountKeys)
    } else if held_order(accounts[0]) is None || held_order(accounts[2]) is None {
        Some(SearchMarketError::InvalidAccountData)
    } else {
        let buy = held_order(accounts[0])->0;
        let sell = held_order(accounts[2])->0;
        if !matches_derived(accounts[4].key, sol_escrow) || !matches_derived(
            accounts[5].key,
            token_escrow,
        ) {
            Some(SearchMarketError::InvalidDerivedAddress)
        } else if buy.price < sell.price {
            Some(SearchMarketError::PriceMismatch)
        } else if !signed_by(accounts[6], buy.execution_authority) && !signed_by(
            accounts[6],
            sell.execution_authority,
        ) {
            Some(SearchMarketError::Unauthorized)
        } else if execution_price(buy, sell) * executed_quantity(buy, sell) > u64::MAX {
            Some(SearchMarketError::Overflow)
        } else {
            None
        }
    }
}

/// What filling two orders comes to: the escrow of the buy order pays the
/// executed quantity at the execution price to the seller, the escrow of
/// the sell order hands the executed quantity of claims to the buyer, the
/// program signing for each escrow, and both orders are recorded with
/// their open quantity less the executed one.
pub open spec fn fill_order_plan(
    accounts: Seq<Account>,
    sol_escrow_nonce: u8,
    token_escrow_nonce: u8,
) -> OutcomeView {
    let buy = held_order(accounts[0])->0;
    let sell = held_order(accounts[2])->0;
    let price = execution_price(buy, sell);
    let quantity = executed_quantity(buy, sell);
    OutcomeView {
        invocations: seq![
            Invocation::signed(
                Effect::Transfer {
                    from: accounts[4].key,
                    to: accounts[3].key,
                    lamports: (price * quantity) as u64,
                },
                escrow_seeds(Label::SolEscrow, accounts[0].key, sol_escrow_nonce),
            ),
            Invocation::signed(
                Effect::TokenTransfer {
                    source: accounts[5].key,
                    destination: accounts[1].key,
                    authority: accounts[5].key,
                    amount: quantity,
                },
                escrow_seeds(Label::TokenEscrow, accounts[2].key, token_escrow_nonce),
            ),
        ],
        writes: seq![
            Write {
                index: 0,
                record: Record::Order(buy.with_quantity((buy.quantity - quantity) as u64)),
            },
            Write {
                index: 2,
                record: Record::Order(sell.with_quantity((sell.quantity - quantity) as u64)),
            },
        ],
    }
}

/// Decides on a fill, given the addresses that the seeds of the two escrows
/// derive.
pub fn plan_fill_order(
    accounts: &[Account],
    sol_escrow_bump_seed: u8,
    token_escrow_bump_seed: u8,
    sol_escrow: Option<Address>,
    token_escrow: Option<Address>,
) -> (r: Result<Outcome, SearchMarketError>)
    ensures
        answer(r) == refuse_or(
            fill_order_refusal(accounts@, bytes_of(sol_escrow), bytes_of(token_escrow)),
            fill_order_plan(accounts@, sol_escrow_bump_seed, token_escrow_bump_seed),
        ),
{
    if accounts.len() < 9 {
        return Err(SearchMarketError::NotEnoughAccountKeys);
    }
    let buy = match &accounts[0].record {
        Record::Order(order) => *order,
        _ => {
            return Err(SearchMarketError::InvalidAccountData);
        },
    };
    let sell = match &accounts[2].record {
        Record::Order(order) => *order,
        _ => {
            return Err(SearchMarketError::InvalidAccountData);
        },
    };
    if !is_derived(&accounts[4].key, sol_escrow) || !is_derived(&accounts[5].key, token_escrow) {
        return Err(SearchMarketError::InvalidDerivedAddress);
    }
    if buy.price < sell.price {
        return Err(SearchMarketError::PriceMismatch);
    }
    if !is_signed_by(&accounts[6], &buy.execution_authority) && !is_signed_by(
        &accounts[6],
        &sell.execution_authority,
    ) {
        return Err(SearchMarketError::Unauthorized);
    }
    let price = if buy.creation_slot <= sell.creation_slot {
        buy.price
    } else {
        sell.price
    };
    let quantity = if buy.quantity <= sell.quantity {
        buy.quantity
    } else {
        sell.quantity
    };
    let lamports = match price.checked_mul(quantity) {
        Some(lamports) => lamports,
        None => {
            return Err(SearchMarketError::Overflow);
        },
    };
    let mut invocations: Vec<Invocation> = Vec::new();
    invocations.push(
        Invocation {
            effect: Effect::Transfer { from: accounts[4].key, to: accounts[3].key, lamports },
            signer: Some(escrow_seeds(Label::SolEscrow, accounts[0].key, sol_escrow_bump_seed)),
        },
    );
    invocations.push(
        Invocation {
            effect: Effect::TokenTransfer {
                source: accounts[5].key,
                destination: accounts[1].key,
                authority: accounts[5].key,
                amount: quantity,
            },
            signer: Some(
                escrow_seeds(Label::TokenEscrow, accounts[2].key, token_escrow_bump_seed),
            ),
        },
    );
    let mut writes: Vec<Write> = Vec::new();
    writes.push(
        Write {
            index: 0,
            record: Record::Order(OrderAccount { quantity: buy.quantity - quantity, ..buy }),
        },
    );
    writes.push(
        Write {
            index: 2,
            record: Record::Order(OrderAccount { quantity: sell.quantity - quantity, ..sell }),
        },
    );
    let outcome = Outcome { invocations, writes };
    proof {
        let plan = fill_order_plan(accounts@, sol_escrow_bump_seed, token_escrow_bump_seed);
        assert(outcome@.invocations =~= plan.invocations);
        assert(outcome@.writes =~= plan.writes);
    }
    Ok(outcome)
}

/// The address that the escrow with `label` of the order at `position`
/// derives under `program_id`, if there is such a position and address.
pub open spec fn escrow_at(
    program_id: Address,
    accounts: Seq<Account>,
    label: Label,
    position: int,
    nonce: u8,
) -> Option<Seq<u8>> {
    if 0 <= position < accounts.len() {
        escrow_seeds(label, accounts[position].key, nonce).address(program_id)
    } else {
        None
    }
}

/// Derives the escrow with `label` of the order at `position`.
pub fn derive_escrow_at(
    program_id: &Address,
    accounts: &[Account],
    label: Label,
    position: usize,
    nonce: u8,
) -> (derived: Option<Address>)
    ensures
        bytes_of(derived) == escrow_at(*program_id, accounts@, label, position as int, nonce),
{
    if position < accounts.len() {
        crate::address::derive(&escrow_seeds(label, accounts[position].key, nonce), program_id)
    } else {
        None
    }
}

/// The answer to a fill.
pub open spec fn fill_order_answer(
    program_id: Address,
    accounts: Seq<Account>,
    sol_escrow_nonce: u8,
    token_escrow_nonce: u8,
) -> Result<OutcomeView, SearchMarketError> {
    refuse_or(
        fill_order_refusal(
            accounts,
            escrow_at(program_id, accounts, Label::SolEscrow, 0, sol_escrow_nonce),
            escrow_at(program_id, accounts, Label::TokenEscrow, 2, token_escrow_nonce),
        ),
        fill_order_plan(accounts, sol_escrow_nonce, token_escrow_nonce),
    )
}

/// Crosses a buy order with a sell order: checks both escrows against the
/// addresses derived from the orders' own, the limits and the caller, and
/// answers with the two payments and the orders' new quantities.
pub fn fill_order(
    program_id: &Address,
    accounts: &[Account],
    sol_escrow_bump_seed: u8,
    token_escrow_bump_seed: u8,
) -> (r: Result<Outcome, SearchMarketError>)
    ensures
        answer(r) == fill_order_answer(
            *program_id,
            accounts@,
            sol_escrow_bump_seed,
            token_escrow_bump_seed,
        ),
{
    let sol_escrow = derive_escrow_at(
        program_id,
        accounts,
        Label::SolEscrow,
        0,
        sol_escrow_bump_seed,
    );
    let token_escrow = derive_escrow_at(
        program_id,
        accounts,
        Label::TokenEscrow,
        2,
        token_escrow_bump_seed,
    );
    plan_fill_order(
        accounts,
        sol_escrow_bump_seed,
        token_escrow_bump_seed,
        sol_escrow,
        token_escrow,
    )
}

/// The instruction that fills two orders, with the escrows and their
/// nonces as they were found: the execution authority signs; the orders,
/// the two accounts that receive and the two escrows are written to.
pub open spec fn fill_order_request(
    program_id: Address,
    buy_order: Address,
    buyer_token_account: Address,
    sell_order: Address,
    seller_sol_account: Address,
    execution_authority: Address,
    sol_escrow: (Address, u8),
    token_escrow: (Address, u8),
) -> ProgramInstructionView {
    ProgramInstructionView {
        program_id,
        accounts: seq![
            AccountMeta::new(buy_order, false),
            AccountMeta::new(buyer_token_account, false),
            AccountMeta::new(sell_order, false),
            AccountMeta::new(seller_sol_account, false),
            AccountMeta::new(sol_escrow.0, false),
            AccountMeta::new(token_escrow.0, false),
            AccountMeta::new_readonly(execution_authority, true),
            AccountMeta::new_readonly(token_program_id(), false),
            AccountMeta::new_readonly(system_program_id(), false),
        ],
        data: SearchMarketInstruction::FillOrder {
            sol_escrow_bump_seed: sol_escrow.1,
            token_escrow_bump_seed: token_escrow.1,
        },
    }
}

/// Builds the instruction that fills two orders; `None` where no nonce
/// derives an escrow for one of them.
pub fn fill_order_instruction(
    program_id: &Address,
    buy_order: &Address,
    buyer_token_account: &Address,
    sell_order: &Address,
    seller_sol_account: &Address,
    execution_authority: &Address,
) -> (built: Option<ProgramInstruction>)
    ensures
        submitted(built) == (match (
            spec_find(Label::SolEscrow, Some(*buy_order), *program_id),
            spec_find(Label::TokenEscrow, Some(*sell_order), *program_id),
        ) {
            (Some(sol_escrow), Some(token_escrow)) => Some(
                fill_order_request(
                    *program_id,
                    *buy_order,
                    *buyer_token_account,
                    *sell_order,
                    *seller_sol_account,
                    *execution_authority,
                    sol_escrow,
                    token_escrow,
                ),
            ),
            _ => None,
        }),
{
    let (sol_escrow, sol_escrow_bump_seed) = match find(
        Label::SolEscrow,
        Some(*buy_order),
        program_id,
    ) {
        Some(found) => found,
        None => {
            return None;
        },
    };
    let (token_escrow, token_escrow_bump_seed) = match find(
        Label::TokenEscrow,
        Some(*sell_order),
        program_id,
    ) {
        Some(found) => found,
        None => {
            return None;
        },
    };
    let mut accounts: Vec<AccountMeta> = Vec::new();
    accounts.push(AccountMeta::new(*buy_order, false));
    accounts.push(AccountMeta::new(*buyer_token_account, false));
    accounts.push(AccountMeta::new(*sell_order, false));
    accounts.push(AccountMeta::new(*seller_sol_account, false));
    accounts.push(AccountMeta::new(sol_escrow, false));
    accounts.push(AccountMeta::new(token_escrow, false));
    accounts.push(AccountMeta::new_readonly(*execution_authority, true));
    accounts.push(AccountMeta::new_readonly(token_program_id(), false));
    accounts.push(AccountMeta::new_readonly(system_program_id(), false));
    let built = ProgramInstruction {
        program_id: *program_id,
        accounts,
        data: SearchMarketInstruction::FillOrder { sol_escrow_bump_seed, token_escrow_bump_seed },
    };
    assert(built@.accounts =~= fill_order_request(
        *program_id,
        *buy_order,
        *buyer_token_account,
        *sell_order,
        *seller_sol_account,
        *execution_authority,
        (sol_escrow, sol_escrow_bump_seed),
        (token_escrow, token_escrow_bump_seed),
    ).accounts);
    Some(built)
}

} // verus!
