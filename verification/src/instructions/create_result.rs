//! Registering a result under a market, with its Yes and No claim mints.

use crate::address::{
    bytes_of, find, is_derived, matches_derived, mint_authority_seeds, rent_sysvar_id, spec_find,
    token_program_id, Address, Label,
};
use crate::error::SearchMarketError;
use crate::instructions::{
    answer, held_market, owned_market, record_refusal, refuse_or, submitted, Outcome, OutcomeView,
    ProgramInstruction, ProgramInstructionView, SearchMarketInstruction, Write,
};
use crate::invoke::{AccountMeta, Effect, Invocation, CLAIM_DECIMALS};
use crate::state::{Account, Record, ResultAccount};
use vstd::prelude::*;

verus! {

/// Whether a text parses as a URL.
pub uninterp spec fn url_parses(text: Seq<char>) -> bool;

/// `url::Url::parse`: whether it accepts the text is a function of the text
/// alone, named `url_parses`.
#[verifier::external_body]
fn parse_url(text: &str) -> (ok: bool)
    ensures
        ok == url_parses(text@),
{
    url::Url::parse(text).is_ok()
}

/// Why a result is not created, if it is not. `url_ok` says whether the URL
/// parses, and `mint_authority` is the address that the seeds of the mint
/// authority derive. The accounts are, by position: the result, the market,
/// the Yes mint, the No mint, the mint authority, the rent sysvar, the
/// token program. Nobody has to sign.
pub open spec fn create_result_refusal(
    program_id: Address,
    accounts: Seq<Account>,
    slot: u64,
    url_ok: bool,
    mint_authority: Option<Seq<u8>>,
) -> Option<SearchMarketError> {
    if accounts.len() < 7 {
        Some(SearchMarketError::NotEnoughAccountKeys)
    } else if !(accounts[0].record is Blank) {
        Some(SearchMarketError::AlreadyInitialized)
    } else if !url_ok {
        Some(SearchMarketError::MalformedInput)
    } else if record_refusal(accounts[1], program_id, held_market(accounts[1]) is Some) is Some {
        record_refusal(accounts[1], program_id, held_market(accounts[1]) is Some)
    } else if held_market(accounts[1])->0.expires_slot < slot {
        Some(SearchMarketError::Expired)
    } else if !matches_derived(accounts[4].key, mint_authority) {
        Some(SearchMarketError::InvalidDerivedAddress)
    } else if accounts[5].key != rent_sysvar_id() || accounts[6].key != token_program_id() {
        Some(SearchMarketError::IncorrectProgramId)
    } else {
        None
    }
}

/// What creating a result comes to: the two mints are initialized without
/// supply under the mint authority, and the result is recorded with them
/// and with the nonce of the mint authority.
pub open spec fn create_result_plan(
    accounts: Seq<Account>,
    url: String,
    name: String,
    snippet: String,
    bump_seed: u8,
) -> OutcomeView {
    OutcomeView {
        invocations: seq![
            Invocation::plain(
                Effect::InitializeMint {
                    mint: accounts[2].key,
                    authority: accounts[4].key,
                    decimals: CLAIM_DECIMALS,
                },
            ),
            Invocation::plain(
                Effect::InitializeMint {
                    mint: accounts[3].key,
                    authority: accounts[4].key,
                    decimals: CLAIM_DECIMALS,
                },
            ),
        ],
        writes: seq![
            Write {
                index: 0,
                record: Record::Result(
                    ResultAccount::new(
                        accounts[1].key,
                        url,
                        name,
                        snippet,
                        accounts[2].key,
                        accounts[3].key,
                        bump_seed,
                    ),
                ),
            },
        ],
    }
}

/// Decides on the creation of a result, given whether its URL parses and
/// the address `mint_authority` that the seeds of the mint authority derive.
pub fn plan_create_result(
    program_id: &Address,
    accounts: &[Account],
    url: String,
    name: String,
    snippet: String,
    bump_seed: u8,
    slot: u64,
    url_ok: bool,
    mint_authority: Option<Address>,
) -> (r: Result<Outcome, SearchMarketError>)
    ensures
        answer(r) == refuse_or(
            create_result_refusal(*program_id, accounts@, slot, url_ok, bytes_of(mint_authority)),
            create_result_plan(accounts@, url, name, snippet, bump_seed),
        ),
{
    if accounts.len() < 7 {
        return Err(SearchMarketError::NotEnoughAccountKeys);
    }
    match &accounts[0].record {
        Record::Blank => {},
        _ => {
            return Err(SearchMarketError::AlreadyInitialized);
        },
    }
    if !url_ok {
        return Err(SearchMarketError::MalformedInput);
    }
    let market = match owned_market(&accounts[1], program_id) {
        Ok(market) => market,
        Err(e) => {
            return Err(e);
        },
    };
    if market.expires_slot < slot {
        return Err(SearchMarketError::Expired);
    }
    if !is_derived(&accounts[4].key, mint_authority) {
        return Err(SearchMarketError::InvalidDerivedAddress);
    }
    let rent = rent_sysvar_id();
    let token = token_program_id();
    if accounts[5].key != rent || accounts[6].key != token {
        return Err(SearchMarketError::IncorrectProgramId);
    }
    let mut invocations: Vec<Invocation> = Vec::new();
    invocations.push(
        Invocation {
            effect: Effect::InitializeMint {
                mint: accounts[2].key,
                authority: accounts[4].key,
                decimals: CLAIM_DECIMALS,
            },
            signer: None,
        },
    );
    invocations.push(
        Invocation {
            effect: Effect::InitializeMint {
                mint: accounts[3].key,
                authority: accounts[4].key,
                decimals: CLAIM_DECIMALS,
            },
            signer: None,
        },
    );
    let result = ResultAccount::new(
        accounts[1].key,
        url,
        name,
        snippet,
        accounts[2].key,
        accounts[3].key,
        bump_seed,
    );
    let mut writes: Vec<Write> = Vec::new();
    writes.push(Write { index: 0, record: Record::Result(result) });
    let outcome = Outcome { invocations, writes };
    proof {
        let plan = create_result_plan(accounts@, url, name, snippet, bump_seed);
        assert(outcome@.invocations =~= plan.invocations);
        assert(outcome@.writes =~= plan.writes);
    }
    Ok(outcome)
}

/// The answer to the creation of a result.
pub open spec fn create_result_answer(
    program_id: Address,
    accounts: Seq<Account>,
    url: String,
    name: String,
    snippet: String,
    bump_seed: u8,
    slot: u64,
) -> Result<OutcomeView, SearchMarketError> {
    refuse_or(
        create_result_refusal(
            program_id,
            accounts,
            slot,
            url_parses(url@),
            mint_authority_seeds(bump_seed).address(program_id),
        ),
        create_result_plan(accounts, url, name, snippet, bump_seed),
    )
}

/// Registers a candidate answer under the market: checks that the record is
/// new, the URL, the deadline and the mint authority, and answers with the
/// initialization of the two mints and the record of the result.
pub fn create_result(
    program_id: &Address,
    accounts: &[Account],
    url: String,
    name: String,
    snippet: String,
    bump_seed: u8,
    slot: u64,
) -> (r: Result<Outcome, SearchMarketError>)
    ensures
        answer(r) == create_result_answer(
            *program_id,
            accounts@,
            url,
            name,
            snippet,
            bump_seed,
            slot,
        ),
{
    let url_ok = parse_url(url.as_str());
    let mint_authority = crate::address::derive(&mint_authority_seeds(bump_seed), program_id);
    plan_create_result(
        program_id,
        accounts,
        url,
        name,
        snippet,
        bump_seed,
        slot,
        url_ok,
        mint_authority,
    )
}

/// The instruction that creates a result, with the mint authority and its
/// nonce as they were found: the result and the two mints are written to,
/// nobody signs.
pub open spec fn create_result_request(
    program_id: Address,
    result: Address,
    market: Address,
    yes_mint: Address,
    no_mint: Address,
    url: String,
    name: String,
    snippet: String,
    mint_authority: (Address, u8),
) -> ProgramInstructionView {
    ProgramInstructionView {
        program_id,
        accounts: seq![
            AccountMeta::new(result, false),
            AccountMeta::new_readonly(market, false),
            AccountMeta::new(yes_mint, false),
            AccountMeta::new(no_mint, false),
            AccountMeta::new_readonly(mint_authority.0, false),
            AccountMeta::new_readonly(rent_sysvar_id(), false),
            AccountMeta::new_readonly(token_program_id(), false),
        ],
        data: SearchMarketInstruction::CreateResult {
            url,
            name,
            snippet,
            bump_seed: mint_authority.1,
        },
    }
}

/// Builds the instruction that creates a result; `None` where no nonce
/// derives a mint authority for the program.
pub fn create_result_instruction(
    program_id: &Address,
    result_pubkey: &Address,
    market_pubkey: &Address,
    yes_mint_pubkey: &Address,
    no_mint_pubkey: &Address,
    url: String,
    name: String,
    snippet: String,
) -> (built: Option<ProgramInstruction>)
    ensures
        submitted(built) == (match spec_find(Label::MintAuthority, None, *program_id) {
            Some(mint_authority) => Some(
                create_result_request(
                    *program_id,
                    *result_pubkey,
                    *market_pubkey,
                    *yes_mint_pubkey,
                    *no_mint_pubkey,
                    url,
                    name,
                    snippet,
                    mint_authority,
                ),
            ),
            None => None,
        }),
{
    let (mint_authority, bump_seed) = match find(Label::MintAuthority, None, program_id) {
        Some(found) => found,
        None => {
            return None;
        },
    };
    let mut accounts: Vec<AccountMeta> = Vec::new();
    accounts.push(AccountMeta::new(*result_pubkey, false));
    accounts.push(AccountMeta::new_readonly(*market_pubkey, false));
    accounts.push(AccountMeta::new(*yes_mint_pubkey, false));
    accounts.push(AccountMeta::new(*no_mint_pubkey, false));
    accounts.push(AccountMeta::new_readonly(mint_authority, false));
    accounts.push(AccountMeta::new_readonly(rent_sysvar_id(), false));
    accounts.push(AccountMeta::new_readonly(token_program_id(), false));
    let built = ProgramInstruction {
        program_id: *program_id,
        accounts,
        data: SearchMarketInstruction::CreateResult { url, name, snippet, bump_seed },
    };
    assert(built@.accounts =~= create_result_request(
        *program_id,
        *result_pubkey,
        *market_pubkey,
        *yes_mint_pubkey,
        *no_mint_pubkey,
        url,
        name,
        snippet,
        (mint_authority, bump_seed),
    ).accounts);
    Some(built)
}

} // verus!
