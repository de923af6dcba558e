//! Creating an order: its stake is locked in an escrow derived from the
//! order's own address.

use crate::address::{
    bytes_of, escrow_seeds, find, is_derived, matches_derived, rent_sysvar_id, spec_find,
    system_program_id, token_program_id, Address, Label,
};
use crate::error::SearchMarketError;
use crate::instructions::{
    answer, refuse_or, submitted, Outcome, OutcomeView, ProgramInstruction, ProgramInstructionView,
    SearchMarketInstruction, Write,
};
use crate::invoke::{AccountMeta, Effect, Invocation};
use crate::state::{Account, OrderAccount, OrderSide, Record};
use vstd::prelude::*;

verus! {

/// The label of the escrow of an order of the given side.
pub open spec fn spec_escrow_label(side: OrderSide) -> Label {
    match side {
        OrderSide::Buy => Label::SolEscrow,
        OrderSide::Sell => Label::TokenEscrow,
    }
}

/// The label of the escrow of an order of the given side.
#[verifier::when_used_as_spec(spec_escrow_label)]
pub fn escrow_label(side: OrderSide) -> (label: Label)
    ensures
        label == spec_escrow_label(side),
{
    match side {
        OrderSide::Buy => Label::SolEscrow,
        OrderSide::Sell => Label::TokenEscrow,
    }
}

/// The program that has to own the escrow before the order is created:
/// the system program for collateral, the token program for claims.
pub open spec fn escrow_owner(side: OrderSide) -> Address {
    match side {
        OrderSide::Buy => system_program_id(),
        OrderSide::Sell => token_program_id(),
    }
}

/// Why an order is not created, if it is not. `escrow` is the address that
/// the escrow's seeds derive. The accounts are, by position: the order, the
/// market, the result, the collateral account, the claim account, the claim
/// mint, the claim authority, the escrow, the execution authority, the
/// token program, the rent sysvar, the system program.
pub open spec fn create_order_refusal(
    accounts: Seq<Account>,
    side: OrderSide,
    price: u64,
    quantity: u64,
    escrow: Option<Seq<u8>>,
) -> Option<SearchMarketError> {
    if accounts.len() < 12 {
        Some(SearchMarketError::NotEnoughAccountKeys)
    } else if accounts[9].key != token_program_id() || accounts[10].key != rent_sysvar_id() {
        Some(SearchMarketError::IncorrectProgramId)
    } else if accounts[7].owner != escrow_owner(side) {
        Some(SearchMarketError::IllegalOwner)
    } else if !matches_derived(accounts[7].key, escrow) {
        Some(SearchMarketError::InvalidDerivedAddress)
    } else if side == OrderSide::Buy && price * quantity > u64::MAX {
        Some(SearchMarketError::Overflow)
    } else {
        None
    }
}

/// What creating an order comes to. A buy order moves `price * quantity`
/// of collateral into the escrow; a sell order makes the escrow a token
/// account that owns itself and moves `quantity` claims into it. The order
/// is recorded with the full quantity open, as created in `slot`.
pub open spec fn create_order_plan(
    accounts: Seq<Account>,
    side: OrderSide,
    price: u64,
    quantity: u64,
    nonce: u8,
    slot: u64,
) -> OutcomeView {
    OutcomeView {
        invocations: match side {
            OrderSide::Buy => seq![
                Invocation::plain(
                    Effect::Transfer {
                        from: accounts[3].key,
                        to: accounts[7].key,
                        lamports: (price * quantity) as u64,
                    },
                ),
            ],
            OrderSide::Sell => seq![
                Invocation::plain(
                    Effect::InitializeAccount {
                        account: accounts[7].key,
                        mint: accounts[5].key,
                        owner: accounts[7].key,
                    },
                ),
                Invocation::plain(
                    Effect::TokenTransfer {
                        source: accounts[4].key,
                        destination: accounts[7].key,
                        authority: accounts[6].key,
                        amount: quantity,
                    },
                ),
            ],
        },
        writes: seq![
            Write {
                index: 0,
                record: Record::Order(
                    OrderAccount::new(
                        accounts[1].key,
                        accounts[2].key,
                        accounts[3].key,
                        accounts[4].key,
                        side,
                        price,
                        quantity,
                        nonce,
                        slot,
                        accounts[8].key,
                    ),
                ),
            },
        ],
    }
}

/// Decides on the creation of an order, given the address `escrow` that the
/// escrow's seeds derive.
pub fn plan_create_order(
    accounts: &[Account],
    side: OrderSide,
    price: u64,
    quantity: u64,
    escrow_bump_seed: u8,
    slot: u64,
    escrow: Option<Address>,
) -> (r: Result<Outcome, SearchMarketError>)
    ensures
        answer(r) == refuse_or(
            create_order_refusal(accounts@, side, price, quantity, bytes_of(escrow)),
            create_order_plan(accounts@, side, price, quantity, escrow_bump_seed, slot),
        ),
{
    if accounts.len() < 12 {
        return Err(SearchMarketError::NotEnoughAccountKeys);
    }
    let token = token_program_id();
    let rent = rent_sysvar_id();
    let system = system_program_id();
    if accounts[9].key != token || accounts[10].key != rent {
        return Err(SearchMarketError::IncorrectProgramId);
    }
    let escrow_key = accounts[7].key;
    let owner = match side {
        OrderSide::Buy => system,
        OrderSide::Sell => token,
    };
    if accounts[7].owner != owner {
        return Err(SearchMarketError::IllegalOwner);
    }
    if !is_derived(&escrow_key, escrow) {
        return Err(SearchMarketError::InvalidDerivedAddress);
    }
    let mut invocations: Vec<Invocation> = Vec::new();
    match side {
        OrderSide::Buy => {
            let lamports = match price.checked_mul(quantity) {
                Some(lamports) => lamports,
                None => {
                    return Err(SearchMarketError::Overflow);
                },
            };
            invocations.push(
                Invocation {
                    effect: Effect::Transfer { from: accounts[3].key, to: escrow_key, lamports },
                    signer: None,
                },
            );
        },
        OrderSide::Sell => {
            invocations.push(
                Invocation {
                    effect: Effect::InitializeAccount {
                        account: escrow_key,
                        mint: accounts[5].key,
                        owner: escrow_key,
                    },
                    signer: None,
                },
            );
            invocations.push(
                Invocation {
                    effect: Effect::TokenTransfer {
                        source: accounts[4].key,
                        destination: escrow_key,
                        authority: accounts[6].key,
                        amount: quantity,
                    },
                    signer: None,
                },
            );
        },
    }
    let order = OrderAccount::new(
        accounts[1].key,
        accounts[2].key,
        accounts[3].key,
        accounts[4].key,
        side,
        price,
        quantity,
        escrow_bump_seed,
        slot,
        accounts[8].key,
    );
    let mut writes: Vec<Write> = Vec::new();
    writes.push(Write { index: 0, record: Record::Order(order) });
    let outcome = Outcome { invocations, writes };
    proof {
        let plan = create_order_plan(accounts@, side, price, quantity, escrow_bump_seed, slot);
        assert(outcome@.invocations =~= plan.invocations);
        assert(outcome@.writes =~= plan.writes);
    }
    Ok(outcome)
}

/// The address that the escrow of the order at the head of `accounts`
/// derives under `program_id`, if there is such an order and address.
pub open spec fn create_order_escrow(
    program_id: Address,
    accounts: Seq<Account>,
    side: OrderSide,
    nonce: u8,
) -> Option<Seq<u8>> {
    if accounts.len() > 0 {
        escrow_seeds(escrow_label(side), accounts[0].key, nonce).address(program_id)
    } else {
        None
    }
}

/// The answer to the creation of an order.
pub open spec fn create_order_answer(
    program_id: Address,
    accounts: Seq<Account>,
    side: OrderSide,
    price: u64,
    quantity: u64,
    nonce: u8,
    slot: u64,
) -> Result<OutcomeView, SearchMarketError> {
    refuse_or(
        create_order_refusal(
            accounts,
            side,
            price,
            quantity,
            create_order_escrow(program_id, accounts, side, nonce),
        ),
        create_order_plan(accounts, side, price, quantity, nonce, slot),
    )
}

/// Creates an order of `quantity` at the limit `price`: checks the escrow
/// that the caller supplied against the address derived from the order's
/// own, locks the order's stake in it and records the order as created in
/// `slot`.
pub fn create_order(
    program_id: &Address,
    accounts: &[Account],
    side: OrderSide,
    price: u64,
    quantity: u64,
    escrow_bump_seed: u8,
    slot: u64,
) -> (r: Result<Outcome, SearchMarketError>)
    ensures
        answer(r) == create_order_answer(
            *program_id,
            accounts@,
            side,
            price,
            quantity,
            escrow_bump_seed,
            slot,
        ),
{
    let escrow = if accounts.len() > 0 {
        crate::address::derive(
            &escrow_seeds(escrow_label(side), accounts[0].key, escrow_bump_seed),
            program_id,
        )
    } else {
        None
    };
    plan_create_order(accounts, side, price, quantity, escrow_bump_seed, slot, escrow)
}

/// The instruction that creates an order, with the escrow and its nonce as
/// they were found: whoever stakes signs (the collateral account of a buy
/// order, the claim authority of a sell order), and so does the execution
/// authority; the order, the two stake accounts and the escrow are written
/// to.
pub open spec fn create_order_request(
    program_id: Address,
    order: Address,
    search_market: Address,
    result: Address,
    sol_account: Address,
    token_account: Address,
    token_mint_account: Address,
    token_authority_account: Address,
    execution_authority: Address,
    side: OrderSide,
    price: u64,
    quantity: u64,
    escrow: (Address, u8),
) -> ProgramInstructionView {
    ProgramInstructionView {
        program_id,
        accounts: seq![
            AccountMeta::new(order, false),
            AccountMeta::new_readonly(search_market, false),
            AccountMeta::new_readonly(result, false),
            AccountMeta::new(sol_account, side == OrderSide::Buy),
            AccountMeta::new(token_account, false),
            AccountMeta::new_readonly(token_mint_account, false),
            AccountMeta::new_readonly(token_authority_account, side != OrderSide::Buy),
            AccountMeta::new(escrow.0, false),
            AccountMeta::new_readonly(execution_authority, true),
            AccountMeta::new_readonly(token_program_id(), false),
            AccountMeta::new_readonly(rent_sysvar_id(), false),
            AccountMeta::new_readonly(system_program_id(), false),
        ],
        data: SearchMarketInstruction::CreateOrder {
            side,
            price,
            quantity,
            escrow_bump_seed: escrow.1,
        },
    }
}

/// Builds the instruction that creates an order; `None` where no nonce
/// derives an escrow for the order.
pub fn create_order_instruction(
    program_id: &Address,
    order: &Address,
    search_market: &Address,
    result: &Address,
    sol_account: &Address,
    token_account: &Address,
    token_mint_account: &Address,
    token_authority_account: &Address,
    execution_authority: &Address,
    side: OrderSide,
    price: u64,
    quantity: u64,
) -> (built: Option<ProgramInstruction>)
    ensures
        submitted(built) == (match spec_find(escrow_label(side), Some(*order), *program_id) {
            Some(escrow) => Some(
                create_order_request(
                    *program_id,
                    *order,
                    *search_market,
                    *result,
                    *sol_account,
                    *token_account,
                    *token_mint_account,
                    *token_authority_account,
                    *execution_authority,
                    side,
                    price,
                    quantity,
                    escrow,
                ),
            ),
            None => None,
        }),
{
    let (escrow_key, bump_seed) = match find(escrow_label(side), Some(*order), program_id) {
        Some(found) => found,
        None => {
            return None;
        },
    };
    let is_buy_side = match side {
        OrderSide::Buy => true,
        OrderSide::Sell => false,
    };
    let mut accounts: Vec<AccountMeta> = Vec::new();
    accounts.push(AccountMeta::new(*order, false));
    accounts.push(AccountMeta::new_readonly(*search_market, false));
    accounts.push(AccountMeta::new_readonly(*result, false));
    accounts.push(AccountMeta::new(*sol_account, is_buy_side));
    accounts.push(AccountMeta::new(*token_account, false));
    accounts.push(AccountMeta::new_readonly(*token_mint_account, false));
    accounts.push(AccountMeta::new_readonly(*token_authority_account, !is_buy_side));
    accounts.push(AccountMeta::new(escrow_key, false));
    accounts.push(AccountMeta::new_readonly(*execution_authority, true));
    accounts.push(AccountMeta::new_readonly(token_program_id(), false));
    accounts.push(AccountMeta::new_readonly(rent_sysvar_id(), false));
    accounts.push(AccountMeta::new_readonly(system_program_id(), false));
    let built = ProgramInstruction {
        program_id: *program_id,
        accounts,
        data: SearchMarketInstruction::CreateOrder {
            side,
            price,
            quantity,
            escrow_bump_seed: bump_seed,
        },
    };
    assert(built@.accounts =~= create_order_request(
        *program_id,
        *order,
        *search_market,
        *result,
        *sol_account,
        *token_account,
        *token_mint_account,
        *token_authority_account,
        *execution_authority,
        side,
        price,
        quantity,
        (escrow_key, bump_seed),
    ).accounts);
    Some(built)
}

} // verus!
