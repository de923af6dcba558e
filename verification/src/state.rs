//! The persistent records: markets, results and orders, and the accounts
//! that hold them.

use crate::address::Address;
use vstd::prelude::*;

verus! {

/// The kind of a record, stored as its first field.
#[derive(Clone, Copy, Debug, PartialEq, Eq, Structural)]
pub enum AccountType {
    SearchMarket,
    Result,
    Order,
}

impl AccountType {
    /// The byte that a stored record of this kind starts with.
    pub open spec fn spec_tag(self) -> u8 {
        match self {
            AccountType::SearchMarket => 0,
            AccountType::Result => 1,
            AccountType::Order => 2,
        }
    }

    /// The byte that a stored record of this kind starts with.
    #[verifier::when_used_as_spec(spec_tag)]
    pub fn tag(self) -> (tag: u8)
        ensures
            tag == self.spec_tag(),
    {
        match self {
            AccountType::SearchMarket => 0,
            AccountType::Result => 1,
            AccountType::Order => 2,
        }
    }
}

/// What the data of an account is, before it is decoded.
#[derive(Clone, Copy, Debug, PartialEq, Eq, Structural)]
pub enum Framing {
    /// No data, or zero bytes only: nothing was ever written.
    Blank,
    /// Data that starts with the tag of a kind of record.
    Tagged(AccountType),
    /// Data that starts with no tag of this program.
    Foreign,
}

/// Whether every byte is zero.
pub open spec fn all_zero(data: Seq<u8>) -> bool {
    forall|i: int| 0 <= i < data.len() ==> data[i] == 0
}

/// What data is: blank where every byte is zero, and else what its first
/// byte says.
pub open spec fn spec_framing(data: Seq<u8>) -> Framing {
    if all_zero(data) {
        Framing::Blank
    } else if data[0] == AccountType::SearchMarket.tag() {
        Framing::Tagged(AccountType::SearchMarket)
    } else if data[0] == AccountType::Result.tag() {
        Framing::Tagged(AccountType::Result)
    } else if data[0] == AccountType::Order.tag() {
        Framing::Tagged(AccountType::Order)
    } else {
        Framing::Foreign
    }
}

/// Tells what the data of an account is, so that the right record can be
/// decoded from it.
pub fn framing(data: &[u8]) -> (f: Framing)
    ensures
        f == spec_framing(data@),
{
    let mut i: usize = 0;
    while i < data.len()
        invariant
            i <= data.len(),
            forall|j: int| 0 <= j < i ==> data@[j] == 0,
        decreases data.len() - i,
    {
        if data[i] != 0 {
            let first = data[0];
            return if first == AccountType::SearchMarket.tag() {
                Framing::Tagged(AccountType::SearchMarket)
            } else if first == AccountType::Result.tag() {
                Framing::Tagged(AccountType::Result)
            } else if first == AccountType::Order.tag() {
                Framing::Tagged(AccountType::Order)
            } else {
                Framing::Foreign
            };
        }
        i += 1;
    }
    Framing::Blank
}

/// The side of an order: a bid for claim tokens, or an offer of them.
#[derive(Clone, Copy, Debug, PartialEq, Eq, Structural)]
pub enum OrderSide {
    Buy,
    Sell,
}

/// The layout version that this crate writes.
pub const ACCOUNT_VERSION: u8 = 0;

/// A market: the question, who may decide it, and until when.
#[derive(Clone, Debug, PartialEq, Eq)]
pub struct SearchMarketAccount {
    pub account_type: AccountType,
    pub account_version: u8,
    pub decision_authority: Address,
    pub search_string: String,
    /// The winning result, once the authority has decided.
    pub best_result: Option<Address>,
    pub expires_slot: u64,
}

impl SearchMarketAccount {
    /// Whether the record is a market in the layout that this crate writes.
    pub open spec fn wf(self) -> bool {
        self.account_type == AccountType::SearchMarket && self.account_version == ACCOUNT_VERSION
    }

    /// A fresh, undecided market.
    #[verifier::when_used_as_spec(spec_new)]
    pub fn new(decision_authority: Address, search_string: String, expires_slot: u64) -> (market:
        SearchMarketAccount)
        ensures
            market == SearchMarketAccount::spec_new(
                decision_authority,
                search_string,
                expires_slot,
            ),
            market.wf(),
    {
        SearchMarketAccount {
            account_type: AccountType::SearchMarket,
            account_version: ACCOUNT_VERSION,
            decision_authority,
            search_string,
            best_result: None,
            expires_slot,
        }
    }

    /// A fresh, undecided market.
    pub open spec fn spec_new(
        decision_authority: Address,
        search_string: String,
        expires_slot: u64,
    ) -> SearchMarketAccount {
        SearchMarketAccount {
            account_type: AccountType::SearchMarket,
            account_version: ACCOUNT_VERSION,
            decision_authority,
            search_string,
            best_result: None,
            expires_slot,
        }
    }

    /// The same market with `result` as its decision.
    pub open spec fn decided(self, result: Address) -> SearchMarketAccount {
        SearchMarketAccount { best_result: Some(result), ..self }
    }
}

/// A candidate answer to a market's question, with its two claim mints.
#[derive(Clone, Debug, PartialEq, Eq)]
pub struct ResultAccount {
    pub account_type: AccountType,
    pub account_version: u8,
    pub search_market: Address,
    pub url: String,
    pub name: String,
    pub snippet: String,
    pub yes_mint: Address,
    pub no_mint: Address,
    /// The nonce that derives the mint authority.
    pub bump_seed: u8,
}

impl ResultAccount {
    /// Whether the record is a result in the layout that this crate writes.
    pub open spec fn wf(self) -> bool {
        self.account_type == AccountType::Result && self.account_version == ACCOUNT_VERSION
    }

    /// A result of `search_market` with its two mints.
    #[verifier::when_used_as_spec(spec_new)]
    pub fn new(
        search_market: Address,
        url: String,
        name: String,
        snippet: String,
        yes_mint: Address,
        no_mint: Address,
        bump_seed: u8,
    ) -> (result: ResultAccount)
        ensures
            result == ResultAccount::spec_new(
                search_market,
                url,
                name,
                snippet,
                yes_mint,
                no_mint,
                bump_seed,
            ),
            result.wf(),
    {
        ResultAccount {
            account_type: AccountType::Result,
            account_version: ACCOUNT_VERSION,
            search_market,
            url,
            name,
            snippet,
            yes_mint,
            no_mint,
            bump_seed,
        }
    }

    /// A result of `search_market` with its two mints.
    pub open spec fn spec_new(
        search_market: Address,
        url: String,
        name: String,
        snippet: String,
        yes_mint: Address,
        no_mint: Address,
        bump_seed: u8,
    ) -> ResultAccount {
        ResultAccount {
            account_type: AccountType::Result,
            account_version: ACCOUNT_VERSION,
            search_market,
            url,
            name,
            snippet,
            yes_mint,
            no_mint,
            bump_seed,
        }
    }
}

/// An order: what is left of it, at which limit, and who may execute it.
#[derive(Clone, Copy, Debug, PartialEq, Eq)]
pub struct OrderAccount {
    pub account_type: AccountType,
    pub account_version: u8,
    pub search_market: Address,
    pub result: Address,
    /// Where a buyer's collateral comes from and a seller's proceeds go.
    pub sol_account: Address,
    /// Where a seller's claims come from and a buyer's claims go.
    pub token_account: Address,
    pub side: OrderSide,
    pub price: u64,
    /// The quantity that is still open.
    pub quantity: u64,
    pub escrow_bump_seed: u8,
    /// The slot in which the order was created; the earlier order sets the price.
    pub creation_slot: u64,
    pub execution_authority: Address,
}

impl OrderAccount {
    /// The collateral that stands behind what is open of the order, at its
    /// limit price.
    pub open spec fn stake(self) -> int {
        self.price * self.quantity
    }

    /// Whether the record is an order in the layout that this crate writes,
    /// and, for a buy order, one whose stake fits in 64 bits.
    pub open spec fn wf(self) -> bool {
        &&& self.account_type == AccountType::Order
        &&& self.account_version == ACCOUNT_VERSION
        &&& self.side == OrderSide::Buy ==> self.stake() <= u64::MAX
    }

    /// An order with `quantity` open.
    #[verifier::when_used_as_spec(spec_new)]
    pub fn new(
        search_market: Address,
        result: Address,
        sol_account: Address,
        token_account: Address,
        side: OrderSide,
        price: u64,
        quantity: u64,
        escrow_bump_seed: u8,
        creation_slot: u64,
        execution_authority: Address,
    ) -> (order: OrderAccount)
        ensures
            order == OrderAccount::spec_new(
                search_market,
                result,
                sol_account,
                token_account,
                side,
                price,
                quantity,
                escrow_bump_seed,
                creation_slot,
                execution_authority,
            ),
    {
        OrderAccount {
            account_type: AccountType::Order,
            account_version: ACCOUNT_VERSION,
            search_market,
            result,
            sol_account,
            token_account,
            side,
            price,
            quantity,
            escrow_bump_seed,
            creation_slot,
            execution_authority,
        }
    }

    /// An order with `quantity` open.
    pub open spec fn spec_new(
        search_market: Address,
        result: Address,
        sol_account: Address,
        token_account: Address,
        side: OrderSide,
        price: u64,
        quantity: u64,
        escrow_bump_seed: u8,
        creation_slot: u64,
        execution_authority: Address,
    ) -> OrderAccount {
        OrderAccount {
            account_type: AccountType::Order,
            account_version: ACCOUNT_VERSION,
            search_market,
            result,
            sol_account,
            token_account,
            side,
            price,
            quantity,
            escrow_bump_seed,
            creation_slot,
            execution_authority,
        }
    }

    /// The same order with `quantity` left open.
    pub open spec fn with_quantity(self, quantity: u64) -> OrderAccount {
        OrderAccount { quantity, ..self }
    }
}

/// What an account's data holds, as far as the handlers read it.
#[derive(Clone, Debug, PartialEq, Eq)]
pub enum Record {
    /// No data, or zero bytes only: a record that was never written.
    Blank,
    Market(SearchMarketAccount),
    Result(ResultAccount),
    Order(OrderAccount),
    /// Data that is none of this program's records.
    Other,
}

/// An account as an instruction receives it: its address, the program that
/// owns it, whether its key signed the transaction, and what it holds.
#[derive(Clone, Debug, PartialEq, Eq)]
pub struct Account {
    pub key: Address,
    pub owner: Address,
    pub is_signer: bool,
    pub record: Record,
}

} // verus!
