//! Withdrawing collateral: claims are burned, and the mint authority pays
//! their collateral out.

use crate::address::{
    bytes_of, find, is_derived, matches_derived, mint_authority_seeds, spec_find, system_program_id,
    token_program_id, Address, Label,
};
use crate::error::SearchMarketError;
use crate::instructions::{
    answer, collateral, derive_recorded_mint_authority, held_market, held_result, owned_market,
    owned_result, record_refusal, recorded_mint_authority, refuse_or, submitted, Outcome,
    OutcomeView, ProgramInstruction, ProgramInstructionView, SearchMarketInstruction,
};
use crate::invoke::{AccountMeta, Effect, Invocation};
use crate::state::Account;
use vstd::prelude::*;

verus! {

/// Whether a withdrawal from `result` burns Yes claims: before the market
/// is decided, and when `result` has won.
pub open spec fn burns_yes(best_result: Option<Address>, result: Address) -> bool {
    best_result is None || best_result == Some(result)
}

/// Whether a withdrawal from `result` burns No claims: before the market is
/// decided, and when another result has won.
pub open spec fn burns_no(best_result: Option<Address>, result: Address) -> bool {
    best_result is None || best_result != Some(result)
}

/// Why a withdrawal is refused, if it is. `mint_authority` is the address
/// that the seeds of the mint authority derive. The accounts are, by
/// position: the market, the result, the account to pay, the system
/// program, the token program, the mint authority, the owner of the claims,
/// the Yes mint, the Yes claims, the No mint, the No claims.
pub open spec fn withdraw_refusal(
    program_id: Address,
    accounts: Seq<Account>,
    amount: u64,
    mint_authority: Option<Seq<u8>>,
) -> Option<SearchMarketError> {
    if accounts.len() < 11 {
        Some(SearchMarketError::NotEnoughAccountKeys)
    } else if record_refusal(accounts[0], program_id, held_market(accounts[0]) is Some) is Some {
        record_refusal(accounts[0], program_id, held_market(accounts[0]) is Some)
    } else if record_refusal(accounts[1], program_id, held_result(accounts[1]) is Some) is Some {
        record_refusal(accounts[1], program_id, held_result(accounts[1]) is Some)
    } else if !accounts[2].is_signer || !accounts[6].is_signer {
        Some(SearchMarketError::Unauthorized)
    } else if accounts[3].key != system_program_id() || accounts[4].key != token_program_id() {
        Some(SearchMarketError::IncorrectProgramId)
    } else if !matches_derived(accounts[5].key, mint_authority) {
        Some(SearchMarketError::InvalidDerivedAddress)
    } else if accounts[7].key != held_result(accounts[1])->0.yes_mint || accounts[9].key
        != held_result(accounts[1])->0.no_mint {
        Some(SearchMarketError::CrossReference)
    } else if collateral(amount) is None {
        Some(SearchMarketError::Overflow)
    } else {
        None
    }
}

/// What a withdrawal comes to: the mint authority pays the collateral of
/// `amount` claims, signed for by the program; then `amount` claims are
/// burned, Yes and No alike while the market is undecided, and after the
/// decision those of the side that `result` turned out to be. A withdrawal
/// of nothing burns nothing.
pub open spec fn withdraw_plan(accounts: Seq<Account>, amount: u64) -> OutcomeView {
    let best = held_market(accounts[0])->0.best_result;
    let seeds = mint_authority_seeds(held_result(accounts[1])->0.bump_seed);
    let pay = seq![
        Invocation::signed(
            Effect::Transfer {
                from: accounts[5].key,
                to: accounts[2].key,
                lamports: collateral(amount)->0,
            },
            seeds,
        ),
    ];
    let yes = if amount > 0 && burns_yes(best, accounts[1].key) {
        seq![
            Invocation::plain(
                Effect::Burn {
                    account: accounts[8].key,
                    mint: accounts[7].key,
                    authority: accounts[6].key,
                    amount,
                },
            ),
        ]
    } else {
        seq![]
    };
    let no = if amount > 0 && burns_no(best, accounts[1].key) {
        seq![
            Invocation::plain(
                Effect::Burn {
                    account: accounts[10].key,
                    mint: accounts[9].key,
                    authority: accounts[6].key,
                    amount,
                },
            ),
        ]
    } else {
        seq![]
    };
    OutcomeView { invocations: pay + yes + no, writes: seq![] }
}

/// Decides on a withdrawal, given the address `mint_authority` that the
/// seeds of the mint authority derive.
pub fn plan_withdraw(
    program_id: &Address,
    accounts: &[Account],
    amount: u64,
    mint_authority: Option<Address>,
) -> (r: Result<Outcome, SearchMarketError>)
    ensures
        answer(r) == refuse_or(
            withdraw_refusal(*program_id, accounts@, amount, bytes_of(mint_authority)),
            withdraw_plan(accounts@, amount),
        ),
{
    if accounts.len() < 11 {
        return Err(SearchMarketError::NotEnoughAccountKeys);
    }
    let market = match owned_market(&accounts[0], program_id) {
        Ok(market) => market,
        Err(e) => {
            return Err(e);
        },
    };
    let result = match owned_result(&accounts[1], program_id) {
        Ok(result) => result,
        Err(e) => {
            return Err(e);
        },
    };
    if !accounts[2].is_signer || !accounts[6].is_signer {
        return Err(SearchMarketError::Unauthorized);
    }
    let system = system_program_id();
    let token = token_program_id();
    if accounts[3].key != system || accounts[4].key != token {
        return Err(SearchMarketError::IncorrectProgramId);
    }
    if !is_derived(&accounts[5].key, mint_authority) {
        return Err(SearchMarketError::InvalidDerivedAddress);
    }
    if accounts[7].key != result.yes_mint || accounts[9].key != result.no_mint {
        return Err(SearchMarketError::CrossReference);
    }
    let lamports = match collateral(amount) {
        Some(lamports) => lamports,
        None => {
            return Err(SearchMarketError::Overflow);
        },
    };
    let (yes, no) = match market.best_result {
        None => (true, true),
        Some(best) => {
            let won = best == accounts[1].key;
            (won, !won)
        },
    };
    let mut invocations: Vec<Invocation> = Vec::new();
    invocations.push(
        Invocation {
            effect: Effect::Transfer { from: accounts[5].key, to: accounts[2].key, lamports },
            signer: Some(mint_authority_seeds(result.bump_seed)),
        },
    );
    if amount > 0 && yes {
        invocations.push(
            Invocation {
                effect: Effect::Burn {
                    account: accounts[8].key,
                    mint: accounts[7].key,
                    authority: accounts[6].key,
                    amount,
                },
                signer: None,
            },
        );
    }
    if amount > 0 && no {
        invocations.push(
            Invocation {
                effect: Effect::Burn {
                    account: accounts[10].key,
                    mint: accounts[9].key,
                    authority: accounts[6].key,
                    amount,
                },
                signer: None,
            },
        );
    }
    let outcome = Outcome { invocations, writes: Vec::new() };
    proof {
        let plan = withdraw_plan(accounts@, amount);
        assert(outcome@.invocations =~= plan.invocations);
        assert(outcome@.writes =~= plan.writes);
    }
    Ok(outcome)
}

/// The answer to a withdrawal.
pub open spec fn withdraw_answer(
    program_id: Address,
    accounts: Seq<Account>,
    amount: u64,
) -> Result<OutcomeView, SearchMarketError> {
    refuse_or(
        withdraw_refusal(
            program_id,
            accounts,
            amount,
            recorded_mint_authority(program_id, accounts),
        ),
        withdraw_plan(accounts, amount),
    )
}

/// Redeems `amount` claims of the result for their collateral: checks the
/// records, the signatures and the mint authority, and answers with the
/// payment and the burns.
pub fn withdraw(program_id: &Address, accounts: &[Account], amount: u64) -> (r: Result<
    Outcome,
    SearchMarketError,
>)
    ensures
        answer(r) == withdraw_answer(*program_id, accounts@, amount),
{
    let mint_authority = derive_recorded_mint_authority(program_id, accounts);
    plan_withdraw(program_id, accounts, amount, mint_authority)
}

/// The instruction that withdraws, with the mint authority as it was
/// found: the account to pay and the owner of the claims sign; the mint
/// authority, the mints and the two claim accounts are written to.
pub open spec fn withdraw_request(
    program_id: Address,
    market: Address,
    result: Address,
    paid: Address,
    token_owner: Address,
    yes_mint: Address,
    yes_token: Address,
    no_mint: Address,
    no_token: Address,
    amount: u64,
    mint_authority: Address,
) -> ProgramInstructionView {
    ProgramInstructionView {
        program_id,
        accounts: seq![
            AccountMeta::new_readonly(market, false),
            AccountMeta::new_readonly(result, false),
            AccountMeta::new(paid, true),
            AccountMeta::new_readonly(system_program_id(), false),
            AccountMeta::new_readonly(token_program_id(), false),
            AccountMeta::new(mint_authority, false),
            AccountMeta::new_readonly(token_owner, true),
            AccountMeta::new(yes_mint, false),
            AccountMeta::new(yes_token, false),
            AccountMeta::new(no_mint, false),
            AccountMeta::new(no_token, false),
        ],
        data: SearchMarketInstruction::Withdraw { amount },
    }
}

/// Builds the instruction that withdraws; `None` where no nonce derives a
/// mint authority for the program.
pub fn withdraw_instruction(
    program_id: &Address,
    market_pubkey: &Address,
    result_pubkey: &Address,
    withdraw_pubkey: &Address,
    token_owner_pubkey: &Address,
    yes_mint_pubkey: &Address,
    yes_token_pubkey: &Address,
    no_mint_pubkey: &Address,
    no_token_pubkey: &Address,
    amount: u64,
) -> (built: Option<ProgramInstruction>)
    ensures
        submitted(built) == (match spec_find(Label::MintAuthority, None, *program_id) {
            Some(mint_authority) => Some(
                withdraw_request(
                    *program_id,
                    *market_pubkey,
                    *result_pubkey,
                    *withdraw_pubkey,
                    *token_owner_pubkey,
                    *yes_mint_pubkey,
                    *yes_token_pubkey,
                    *no_mint_pubkey,
                    *no_token_pubkey,
                    amount,
                    mint_authority.0,
                ),
            ),
            None => None,
        }),
{
    let (mint_authority, _bump_seed) = match find(Label::MintAuthority, None, program_id) {
        Some(found) => found,
        None => {
            return None;
        },
    };
    let mut accounts: Vec<AccountMeta> = Vec::new();
    accounts.push(AccountMeta::new_readonly(*market_pubkey, false));
    accounts.push(AccountMeta::new_readonly(*result_pubkey, false));
    accounts.push(AccountMeta::new(*withdraw_pubkey, true));
    accounts.push(AccountMeta::new_readonly(system_program_id(), false));
    accounts.push(AccountMeta::new_readonly(token_program_id(), false));
    accounts.push(AccountMeta::new(mint_authority, false));
    accounts.push(AccountMeta::new_readonly(*token_owner_pubkey, true));
    accounts.push(AccountMeta::new(*yes_mint_pubkey, false));
    accounts.push(AccountMeta::new(*yes_token_pubkey, false));
    accounts.push(AccountMeta::new(*no_mint_pubkey, false));
    accounts.push(AccountMeta::new(*no_token_pubkey, false));
    let built = ProgramInstruction {
        program_id: *program_id,
        accounts,
        data: SearchMarketInstruction::Withdraw { amount },
    };
    assert(built@.accounts =~= withdraw_request(
        *program_id,
        *market_pubkey,
        *result_pubkey,
        *withdraw_pubkey,
        *token_owner_pubkey,
        *yes_mint_pubkey,
        *yes_token_pubkey,
        *no_mint_pubkey,
        *no_token_pubkey,
        amount,
        mint_authority,
    ).accounts);
    Some(built)
}

} // verus!
