//! Creating a market.

use crate::address::Address;
use crate::error::SearchMarketError;
use crate::instructions::{
    answer, refuse_or, Outcome, OutcomeView, ProgramInstruction, ProgramInstructionView,
    SearchMarketInstruction, Write,
};
use crate::invoke::AccountMeta;
use crate::state::{Account, Record, SearchMarketAccount};
use vstd::prelude::*;

verus! {

/// Why a market is not created, if it is not. The accounts are, by
/// position: the market and its authority.
pub open spec fn create_market_refusal(accounts: Seq<Account>) -> Option<SearchMarketError> {
    if accounts.len() < 2 {
        Some(SearchMarketError::NotEnoughAccountKeys)
    } else if !(accounts[0].record is Blank) {
        Some(SearchMarketError::AlreadyInitialized)
    } else if !accounts[1].is_signer {
        Some(SearchMarketError::Unauthorized)
    } else {
        None
    }
}

/// What creating a market comes to: an undecided market of the signing
/// authority is recorded.
pub open spec fn create_market_plan(
    accounts: Seq<Account>,
    expires_slot: u64,
    search_string: String,
) -> OutcomeView {
    OutcomeView {
        invocations: seq![],
        writes: seq![
            Write {
                index: 0,
                record: Record::Market(
                    SearchMarketAccount::new(accounts[1].key, search_string, expires_slot),
                ),
            },
        ],
    }
}

/// The answer to the creation of a market.
pub open spec fn create_market_answer(
    accounts: Seq<Account>,
    expires_slot: u64,
    search_string: String,
) -> Result<OutcomeView, SearchMarketError> {
    refuse_or(
        create_market_refusal(accounts),
        create_market_plan(accounts, expires_slot, search_string),
    )
}

/// Creates a market for `search_string` that `expires_slot` closes: checks
/// that the record is new and that the authority signed, and answers with
/// the market's record.
pub fn create_market(
    program_id: &Address,
    accounts: &[Account],
    expires_slot: u64,
    search_string: String,
) -> (r: Result<Outcome, SearchMarketError>)
    ensures
        answer(r) == create_market_answer(accounts@, expires_slot, search_string),
{
    if accounts.len() < 2 {
        return Err(SearchMarketError::NotEnoughAccountKeys);
    }
    match &accounts[0].record {
        Record::Blank => {},
        _ => {
            return Err(SearchMarketError::AlreadyInitialized);
        },
    }
    if !accounts[1].is_signer {
        return Err(SearchMarketError::Unauthorized);
    }
    let market = SearchMarketAccount::new(accounts[1].key, search_string, expires_slot);
    let mut writes: Vec<Write> = Vec::new();
    writes.push(Write { index: 0, record: Record::Market(market) });
    let outcome = Outcome { invocations: Vec::new(), writes };
    proof {
        let plan = create_market_plan(accounts@, expires_slot, search_string);
        assert(outcome@.invocations =~= plan.invocations);
        assert(outcome@.writes =~= plan.writes);
    }
    Ok(outcome)
}

/// The instruction that creates a market: the market is written to, and
/// its authority signs.
pub open spec fn create_market_request(
    program_id: Address,
    market: Address,
    decision_authority: Address,
    expires_slot: u64,
    search_string: String,
) -> ProgramInstructionView {
    ProgramInstructionView {
        program_id,
        accounts: seq![
            AccountMeta::new(market, false),
            AccountMeta::new_readonly(decision_authority, true),
        ],
        data: SearchMarketInstruction::CreateMarket { expires_slot, search_string },
    }
}

/// Builds the instruction that creates a market.
pub fn create_market_instruction(
    program_id: &Address,
    market_pubkey: &Address,
    decision_pubkey: &Address,
    expires_slot: u64,
    search_string: String,
) -> (built: ProgramInstruction)
    ensures
        built@ == create_market_request(
            *program_id,
            *market_pubkey,
            *decision_pubkey,
            expires_slot,
            search_string,
        ),
{
    let mut accounts: Vec<AccountMeta> = Vec::new();
    accounts.push(AccountMeta::new(*market_pubkey, false));
    accounts.push(AccountMeta::new_readonly(*decision_pubkey, true));
    let built = ProgramInstruction {
        program_id: *program_id,
        accounts,
        data: SearchMarketInstruction::CreateMarket { expires_slot, search_string },
    };
    assert(built@.accounts =~= create_market_request(
        *program_id,
        *market_pubkey,
        *decision_pubkey,
        expires_slot,
        search_string,
    ).accounts);
    built
}

} // verus!
