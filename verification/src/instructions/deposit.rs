//! Depositing collateral: the mint authority takes it in and mints a Yes
//! and a No claim for every unit.

use crate::address::{
    bytes_of, find, is_derived, matches_derived, mint_authority_seeds, spec_find, system_program_id,
    token_program_id, Address, Label,
};
use crate::error::SearchMarketError;
use crate::instructions::{
    answer, collateral, derive_recorded_mint_authority, held_market, held_result, owned_market,
    owned_result, record_refusal, recorded_mint_authority, refuse_or, submitted, Outcome,
    OutcomeView, ProgramInstruction, ProgramInstructionView, SearchMarketInstruction,
};
use crate::invoke::{AccountMeta, Effect, Invocation};
use crate::state::Account;
use vstd::prelude::*;

verus! {

/// Why a deposit is refused, if it is. `mint_authority` is the address that
/// the seeds of the mint authority derive. The accounts are, by position:
/// the market, the result, the depositor, the system program, the token
/// program, the mint authority, the Yes mint, the account for the Yes
/// claims, the No mint, the account for the No claims.
pub open spec fn deposit_refusal(
    program_id: Address,
    accounts: Seq<Account>,
    amount: u64,
    slot: u64,
    mint_authority: Option<Seq<u8>>,
) -> Option<SearchMarketError> {
    if accounts.len() < 10 {
        Some(SearchMarketError::NotEnoughAccountKeys)
    } else if record_refusal(accounts[0], program_id, held_market(accounts[0]) is Some) is Some {
        record_refusal(accounts[0], program_id, held_market(accounts[0]) is Some)
    } else if record_refusal(accounts[1], program_id, held_result(accounts[1]) is Some) is Some {
        record_refusal(accounts[1], program_id, held_result(accounts[1]) is Some)
    } else if held_result(accounts[1])->0.search_market != accounts[0].key {
        Some(SearchMarketError::CrossReference)
    } else if amount == 0 {
        Some(SearchMarketError::MalformedInput)
    } else if slot > held_market(accounts[0])->0.expires_slot {
        Some(SearchMarketError::Expired)
    } else if accounts[3].key != system_program_id() || accounts[4].key != token_program_id() {
        Some(SearchMarketError::IncorrectProgramId)
    } else if !matches_derived(accounts[5].key, mint_authority) {
        Some(SearchMarketError::InvalidDerivedAddress)
    } else if accounts[6].key != held_result(accounts[1])->0.yes_mint || accounts[8].key
        != held_result(accounts[1])->0.no_mint {
        Some(SearchMarketError::CrossReference)
    } else if collateral(amount) is None {
        Some(SearchMarketError::Overflow)
    } else {
        None
    }
}

/// What a deposit comes to: the depositor pays the collateral of `amount`
/// claims to the mint authority, which then mints `amount` Yes claims and
/// `amount` No claims to the accounts supplied. The program signs all three
/// for the mint authority.
pub open spec fn deposit_plan(accounts: Seq<Account>, amount: u64) -> OutcomeView {
    let seeds = mint_authority_seeds(held_result(accounts[1])->0.bump_seed);
    OutcomeView {
        invocations: seq![
            Invocation::signed(
                Effect::Transfer {
                    from: accounts[2].key,
                    to: accounts[5].key,
                    lamports: collateral(amount)->0,
                },
                seeds,
            ),
            Invocation::signed(
                Effect::MintTo {
                    mint: accounts[6].key,
                    account: accounts[7].key,
                    authority: accounts[5].key,
                    amount,
                },
                seeds,
            ),
            Invocation::signed(
                Effect::MintTo {
                    mint: accounts[8].key,
                    account: accounts[9].key,
                    authority: accounts[5].key,
                    amount,
                },
                seeds,
            ),
        ],
        writes: seq![],
    }
}

/// Decides on a deposit, given the address `mint_authority` that the seeds
/// of the mint authority derive.
pub fn plan_deposit(
    program_id: &Address,
    accounts: &[Account],
    amount: u64,
    slot: u64,
    mint_authority: Option<Address>,
) -> (r: Result<Outcome, SearchMarketError>)
    ensures
        answer(r) == refuse_or(
            deposit_refusal(*program_id, accounts@, amount, slot, bytes_of(mint_authority)),
            deposit_plan(accounts@, amount),
        ),
{
    if accounts.len() < 10 {
        return Err(SearchMarketError::NotEnoughAccountKeys);
    }
    let market = match owned_market(&accounts[0], program_id) {
        Ok(market) => market,
        Err(e) => {
            return Err(e);
        },
    };
    let result = match owned_result(&accounts[1], program_id) {
        Ok(result) => result,
        Err(e) => {
            return Err(e);
        },
    };
    if result.search_market != accounts[0].key {
        return Err(SearchMarketError::CrossReference);
    }
    if amount == 0 {
        return Err(SearchMarketError::MalformedInput);
    }
    if slot > market.expires_slot {
        return Err(SearchMarketError::Expired);
    }
    let system = system_program_id();
    let token = token_program_id();
    if accounts[3].key != system || accounts[4].key != token {
        return Err(SearchMarketError::IncorrectProgramId);
    }
    if !is_derived(&accounts[5].key, mint_authority) {
        return Err(SearchMarketError::InvalidDerivedAddress);
    }
    if accounts[6].key != result.yes_mint || accounts[8].key != result.no_mint {
        return Err(SearchMarketError::CrossReference);
    }
    let lamports = match collateral(amount) {
        Some(lamports) => lamports,
        None => {
            return Err(SearchMarketError::Overflow);
        },
    };
    let seeds = mint_authority_seeds(result.bump_seed);
    let mut invocations: Vec<Invocation> = Vec::new();
    invocations.push(
        Invocation {
            effect: Effect::Transfer { from: accounts[2].key, to: accounts[5].key, lamports },
            signer: Some(seeds),
        },
    );
    invocations.push(
        Invocation {
            effect: Effect::MintTo {
                mint: accounts[6].key,
                account: accounts[7].key,
                authority: accounts[5].key,
                amount,
            },
            signer: Some(seeds),
        },
    );
    invocations.push(
        Invocation {
            effect: Effect::MintTo {
                mint: accounts[8].key,
                account: accounts[9].key,
                authority: accounts[5].key,
                amount,
            },
            signer: Some(seeds),
        },
    );
    let outcome = Outcome { invocations, writes: Vec::new() };
    proof {
        let plan = deposit_plan(accounts@, amount);
        assert(outcome@.invocations =~= plan.invocations);
        assert(outcome@.writes =~= plan.writes);
    }
    Ok(outcome)
}

/// The answer to a deposit.
pub open spec fn deposit_answer(
    program_id: Address,
    accounts: Seq<Account>,
    amount: u64,
    slot: u64,
) -> Result<OutcomeView, SearchMarketError> {
    refuse_or(
        deposit_refusal(
            program_id,
            accounts,
            amount,
            slot,
            recorded_mint_authority(program_id, accounts),
        ),
        deposit_plan(accounts, amount),
    )
}

/// Deposits the collateral of `amount` claims on the result: checks the
/// records, the amount, the deadline and the mint authority, and answers
/// with the payment and the two mintings.
pub fn deposit(program_id: &Address, accounts: &[Account], amount: u64, slot: u64) -> (r: Result<
    Outcome,
    SearchMarketError,
>)
    ensures
        answer(r) == deposit_answer(*program_id, accounts@, amount, slot),
{
    let mint_authority = derive_recorded_mint_authority(program_id, accounts);
    plan_deposit(program_id, accounts, amount, slot, mint_authority)
}

/// The instruction that deposits, with the mint authority as it was found:
/// the depositor signs and pays; the mint authority, the mints and the two
/// claim accounts are written to.
pub open spec fn deposit_request(
    program_id: Address,
    market: Address,
    result: Address,
    depositor: Address,
    yes_mint: Address,
    yes_token: Address,
    no_mint: Address,
    no_token: Address,
    amount: u64,
    mint_authority: Address,
) -> ProgramInstructionView {
    ProgramInstructionView {
        program_id,
        accounts: seq![
            AccountMeta::new_readonly(market, false),
            AccountMeta::new_readonly(result, false),
            AccountMeta::new(depositor, true),
            AccountMeta::new_readonly(system_program_id(), false),
            AccountMeta::new_readonly(token_program_id(), false),
            AccountMeta::new(mint_authority, false),
            AccountMeta::new(yes_mint, false),
            AccountMeta::new(yes_token, false),
            AccountMeta::new(no_mint, false),
            AccountMeta::new(no_token, false),
        ],
        data: SearchMarketInstruction::Deposit { amount },
    }
}

/// Builds the instruction that deposits; `None` where no nonce derives a
/// mint authority for the program.
pub fn deposit_instruction(
    program_id: &Address,
    market_pubkey: &Address,
    result_pubkey: &Address,
    deposit_pubkey: &Address,
    yes_mint_pubkey: &Address,
    yes_token_pubkey: &Address,
    no_mint_pubkey: &Address,
    no_token_pubkey: &Address,
    amount: u64,
) -> (built: Option<ProgramInstruction>)
    ensures
        submitted(built) == (match spec_find(Label::MintAuthority, None, *program_id) {
            Some(mint_authority) => Some(
                deposit_request(
                    *program_id,
                    *market_pubkey,
                    *result_pubkey,
                    *deposit_pubkey,
                    *yes_mint_pubkey,
                    *yes_token_pubkey,
                    *no_mint_pubkey,
                    *no_token_pubkey,
                    amount,
                    mint_authority.0,
                ),
            ),
            None => None,
        }),
{
    let (mint_authority, _bump_seed) = match find(Label::MintAuthority, None, program_id) {
        Some(found) => found,
        None => {
            return None;
        },
    };
    let mut accounts: Vec<AccountMeta> = Vec::new();
    accounts.push(AccountMeta::new_readonly(*market_pubkey, false));
    accounts.push(AccountMeta::new_readonly(*result_pubkey, false));
    accounts.push(AccountMeta::new(*deposit_pubkey, true));
    accounts.push(AccountMeta::new_readonly(system_program_id(), false));
    accounts.push(AccountMeta::new_readonly(token_program_id(), false));
    accounts.push(AccountMeta::new(mint_authority, false));
    accounts.push(AccountMeta::new(*yes_mint_pubkey, false));
    accounts.push(AccountMeta::new(*yes_token_pubkey, false));
    accounts.push(AccountMeta::new(*no_mint_pubkey, false));
    accounts.push(AccountMeta::new(*no_token_pubkey, false));
    let built = ProgramInstruction {
        program_id: *program_id,
        accounts,
        data: SearchMarketInstruction::Deposit { amount },
    };
    assert(built@.accounts =~= deposit_request(
        *program_id,
        *market_pubkey,
        *result_pubkey,
        *deposit_pubkey,
        *yes_mint_pubkey,
        *yes_token_pubkey,
        *no_mint_pubkey,
        *no_token_pubkey,
        amount,
        mint_authority,
    ).accounts);
    Some(built)
}

} // verus!
