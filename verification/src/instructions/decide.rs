//! Deciding a market: its authority names the winning result.

use crate::address::Address;
use crate::error::SearchMarketError;
use crate::instructions::{
    answer, held_market, held_result, is_signed_by, owned_market, owned_result, record_refusal,
    refuse_or, signed_by, Outcome, OutcomeView, ProgramInstruction, ProgramInstructionView,
    SearchMarketInstruction, Write,
};
use crate::invoke::AccountMeta;
use crate::state::{Account, Record, SearchMarketAccount};
use vstd::prelude::*;

verus! {

/// Why a market is not decided, if it is not. The accounts are, by
/// position: the market, its authority, the winning result. With
/// `decide_once` a market that has a decision keeps it; without, the
/// authority may decide again until the deadline.
pub open spec fn decide_refusal(
    program_id: Address,
    accounts: Seq<Account>,
    slot: u64,
    decide_once: bool,
) -> Option<SearchMarketError> {
    if accounts.len() < 3 {
        Some(SearchMarketError::NotEnoughAccountKeys)
    } else if record_refusal(accounts[0], program_id, held_market(accounts[0]) is Some) is Some {
        record_refusal(accounts[0], program_id, held_market(accounts[0]) is Some)
    } else {
        let market = held_market(accounts[0])->0;
        if !signed_by(accounts[1], market.decision_authority) {
            Some(SearchMarketError::Unauthorized)
        } else if slot > market.expires_slot {
            Some(SearchMarketError::Expired)
        } else if record_refusal(accounts[2], program_id, held_result(accounts[2]) is Some)
            is Some {
            record_refusal(accounts[2], program_id, held_result(accounts[2]) is Some)
        } else if held_result(accounts[2])->0.search_market != accounts[0].key {
            Some(SearchMarketError::CrossReference)
        } else if decide_once && market.best_result is Some {
            Some(SearchMarketError::AlreadyDecided)
        } else {
            None
        }
    }
}

/// What deciding comes to: the market is recorded with the result at
/// position 2 as its decision, and is otherwise unchanged.
pub open spec fn decide_plan(accounts: Seq<Account>) -> OutcomeView {
    OutcomeView {
        invocations: seq![],
        writes: seq![
            Write {
                index: 0,
                record: Record::Market(held_market(accounts[0])->0.decided(accounts[2].key)),
            },
        ],
    }
}

/// The answer to a decision.
pub open spec fn decide_answer(
    program_id: Address,
    accounts: Seq<Account>,
    slot: u64,
    decide_once: bool,
) -> Result<OutcomeView, SearchMarketError> {
    refuse_or(decide_refusal(program_id, accounts, slot, decide_once), decide_plan(accounts))
}

/// Fixes the winning result of a market: checks the authority's signature
/// and identity, the deadline and that the result belongs to the market,
/// and answers with the market's new record.
pub fn decide(program_id: &Address, accounts: &[Account], slot: u64, decide_once: bool) -> (r:
    Result<Outcome, SearchMarketError>)
    ensures
        answer(r) == decide_answer(*program_id, accounts@, slot, decide_once),
{
    if accounts.len() < 3 {
        return Err(SearchMarketError::NotEnoughAccountKeys);
    }
    let market = match owned_market(&accounts[0], program_id) {
        Ok(market) => market,
        Err(e) => {
            return Err(e);
        },
    };
    if !is_signed_by(&accounts[1], &market.decision_authority) {
        return Err(SearchMarketError::Unauthorized);
    }
    if slot > market.expires_slot {
        return Err(SearchMarketError::Expired);
    }
    let result = match owned_result(&accounts[2], program_id) {
        Ok(result) => result,
        Err(e) => {
            return Err(e);
        },
    };
    if result.search_market != accounts[0].key {
        return Err(SearchMarketError::CrossReference);
    }
    if decide_once && market.best_result.is_some() {
        return Err(SearchMarketError::AlreadyDecided);
    }
    let decided = SearchMarketAccount {
        account_type: market.account_type,
        account_version: market.account_version,
        decision_authority: market.decision_authority,
        search_string: market.search_string.clone(),
        best_result: Some(accounts[2].key),
        expires_slot: market.expires_slot,
    };
    let mut writes: Vec<Write> = Vec::new();
    writes.push(Write { index: 0, record: Record::Market(decided) });
    let outcome = Outcome { invocations: Vec::new(), writes };
    proof {
        let plan = decide_plan(accounts@);
        assert(outcome@.invocations =~= plan.invocations);
        assert(outcome@.writes =~= plan.writes);
    }
    Ok(outcome)
}

/// The instruction that decides a market: the market is written to, its
/// authority signs, and the winning result is read.
pub open spec fn decide_request(
    program_id: Address,
    market: Address,
    decision_authority: Address,
    best_result: Address,
) -> ProgramInstructionView {
    ProgramInstructionView {
        program_id,
        accounts: seq![
            AccountMeta::new(market, false),
            AccountMeta::new_readonly(decision_authority, true),
            AccountMeta::new_readonly(best_result, false),
        ],
        data: SearchMarketInstruction::Decide,
    }
}

/// Builds the instruction that decides a market.
pub fn decide_instruction(
    program_id: &Address,
    market_pubkey: &Address,
    decision_authority_pubkey: &Address,
    best_result_pubkey: &Address,
) -> (built: ProgramInstruction)
    ensures
        built@ == decide_request(
            *program_id,
            *market_pubkey,
            *decision_authority_pubkey,
            *best_result_pubkey,
        ),
{
    let mut accounts: Vec<AccountMeta> = Vec::new();
    accounts.push(AccountMeta::new(*market_pubkey, false));
    accounts.push(AccountMeta::new_readonly(*decision_authority_pubkey, true));
    accounts.push(AccountMeta::new_readonly(*best_result_pubkey, false));
    let built = ProgramInstruction {
        program_id: *program_id,
        accounts,
        data: SearchMarketInstruction::Decide,
    };
    assert(built@.accounts =~= decide_request(
        *program_id,
        *market_pubkey,
        *decision_authority_pubkey,
        *best_result_pubkey,
    ).accounts);
    built
}

} // verus!
