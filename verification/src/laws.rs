//! What holds of the market whatever the accounts and the balances:
//! collateral and claims move in step, orders settle out of their stakes,
//! and the program signs for nothing but what it has checked.
//!
//! Most laws speak of an instruction that is accepted and then carried out
//! on a book of balances, and say how the book after differs from the book
//! before.

use crate::address::{lemma_address_ext, Address};
use crate::error::SearchMarketError;
use crate::instructions::{
    held_market, held_order, held_result, OutcomeView, SearchMarketInstruction, LAMPORTS_PER_TOKEN,
};
use crate::instructions::cancel_order::cancel_order_answer;
use crate::instructions::create_order::create_order_answer;
use crate::instructions::decide::decide_answer;
use crate::instructions::deposit::deposit_answer;
use crate::instructions::fill_order::{executed_quantity, execution_price, fill_order_answer};
use crate::instructions::withdraw::{burns_no, burns_yes, withdraw_answer};
use crate::ledger::Book;
use crate::processor::{instruction_answer, spec_reads_clock};
use crate::state::{Account, OrderSide, Record};
use vstd::prelude::*;

verus! {

/// The book after an answer is carried out for the program `program_id` in
/// a transaction that `signers` signed; `None` where the answer is a
/// refusal or one of its operations fails.
pub open spec fn carried_out(
    book: Book,
    answer: Result<OutcomeView, SearchMarketError>,
    program_id: Address,
    signers: Seq<Address>,
) -> Option<Book> {
    match answer {
        Ok(outcome) => book.apply_all(outcome.invocations, program_id, signers),
        Err(_) => None,
    }
}

/// Whether the `i`-th record of an outcome is stored at the position `index`
/// of the account list.
pub open spec fn stores_at(outcome: OutcomeView, i: int, index: usize) -> bool {
    0 <= i < outcome.writes.len() && outcome.writes[i].index == index
}

/// The record that an answer stores at a position of the account list, if
/// it stores one there.
pub open spec fn stored(answer: Result<OutcomeView, SearchMarketError>, index: usize) -> Option<
    Record,
> {
    match answer {
        Ok(outcome) => if exists|i: int| stores_at(outcome, i, index) {
            Some(outcome.writes[choose|i: int| stores_at(outcome, i, index)].record)
        } else {
            None
        },
        Err(_) => None,
    }
}

/// A deposit of `amount` that is accepted and carried out mints exactly
/// `amount` Yes claims and `amount` No claims, into the two accounts
/// supplied, and moves the collateral of `amount` claims from the depositor
/// to the mint authority. This holds where the result's two mints differ
/// and the depositor is not the mint authority itself.
pub proof fn deposit_mints_in_pairs(
    program_id: Address,
    accounts: Seq<Account>,
    amount: u64,
    slot: u64,
    signers: Seq<Address>,
    book: Book,
)
    requires
        carried_out(book, deposit_answer(program_id, accounts, amount, slot), program_id, signers)
            is Some,
        held_result(accounts[1])->0.yes_mint != held_result(accounts[1])->0.no_mint,
        accounts[2].key != accounts[5].key,
    ensures
        ({
            let after = carried_out(
                book,
                deposit_answer(program_id, accounts, amount, slot),
                program_id,
                signers,
            )->0;
            let result = held_result(accounts[1])->0;
            let depositor = accounts[2].key;
            let mint_authority = accounts[5].key;
            let yes_claims = accounts[7].key;
            let no_claims = accounts[9].key;
            let paid = amount * LAMPORTS_PER_TOKEN;
            &&& after.supply(result.yes_mint) == book.supply(result.yes_mint) + amount
            &&& after.supply(result.no_mint) == book.supply(result.no_mint) + amount
            &&& after.holding(yes_claims) == book.holding(yes_claims) + amount
            &&& after.holding(no_claims) == book.holding(no_claims) + amount
            &&& after.balance(mint_authority) == book.balance(mint_authority) + paid
            &&& after.balance(depositor) == book.balance(depositor) - paid
        }),
{
    reveal_with_fuel(Book::apply_all, 4);
}

/// A withdrawal of `amount` that is accepted and carried out takes the
/// collateral of `amount` claims out of the mint authority and burns
/// `amount` claims: of both mints while the market is undecided, so that
/// the two supplies and the collateral fall in step; after the decision, of
/// the Yes mint alone where the result has won and of the No mint alone
/// where it has lost. This holds where the result's two mints differ and
/// the account that is paid is not the mint authority itself.
pub proof fn withdrawal_burns_in_step(
    program_id: Address,
    accounts: Seq<Account>,
    amount: u64,
    signers: Seq<Address>,
    book: Book,
)
    requires
        carried_out(book, withdraw_answer(program_id, accounts, amount), program_id, signers)
            is Some,
        held_result(accounts[1])->0.yes_mint != held_result(accounts[1])->0.no_mint,
        accounts[2].key != accounts[5].key,
    ensures
        ({
            let after = carried_out(
                book,
                withdraw_answer(program_id, accounts, amount),
                program_id,
                signers,
            )->0;
            let result = held_result(accounts[1])->0;
            let best = held_market(accounts[0])->0.best_result;
            let paid_account = accounts[2].key;
            let mint_authority = accounts[5].key;
            let yes_claims = accounts[8].key;
            let no_claims = accounts[10].key;
            let paid = amount * LAMPORTS_PER_TOKEN;
            let yes = if burns_yes(best, accounts[1].key) {
                amount
            } else {
                0
            };
            let no = if burns_no(best, accounts[1].key) {
                amount
            } else {
                0
            };
            &&& yes == amount || no == amount
            &&& best is None ==> yes == amount && no == amount
            &&& after.supply(result.yes_mint) == book.supply(result.yes_mint) - yes
            &&& after.supply(result.no_mint) == book.supply(result.no_mint) - no
            &&& yes == amount ==> after.holding(yes_claims) == book.holding(yes_claims) - amount
            &&& no == amount ==> after.holding(no_claims) == book.holding(no_claims) - amount
            &&& after.balance(mint_authority) == book.balance(mint_authority) - paid
            &&& after.balance(paid_account) == book.balance(paid_account) + paid
        }),
{
    reveal_with_fuel(Book::apply_all, 4);
}

/// A deposit or a withdrawal: the accounts it names, the amount, the slot
/// in which it runs and the signers of its transaction.
pub struct VaultCall {
    pub deposits: bool,
    pub accounts: Seq<Account>,
    pub amount: u64,
    pub slot: u64,
    pub signers: Seq<Address>,
}

impl VaultCall {
    /// The answer to the call.
    pub open spec fn answer(self, program_id: Address) -> Result<OutcomeView, SearchMarketError> {
        if self.deposits {
            deposit_answer(program_id, self.accounts, self.amount, self.slot)
        } else {
            withdraw_answer(program_id, self.accounts, self.amount)
        }
    }

    /// What the call adds to the claims in circulation: its amount, or less
    /// its amount.
    pub open spec fn net(self) -> int {
        if self.deposits {
            self.amount as int
        } else {
            -(self.amount as int)
        }
    }
}

/// The book after a run of deposits and withdrawals and nothing else, each
/// accepted and carried out; `None` where one is refused or fails.
pub open spec fn after_calls(book: Book, program_id: Address, calls: Seq<VaultCall>) -> Option<
    Book,
>
    decreases calls.len(),
{
    if calls.len() == 0 {
        Some(book)
    } else {
        match after_calls(book, program_id, calls.drop_last()) {
            Some(before) => carried_out(
                before,
                calls.last().answer(program_id),
                program_id,
                calls.last().signers,
            ),
            None => None,
        }
    }
}

/// The amounts deposited in a run less the amounts withdrawn.
pub open spec fn net_deposited(calls: Seq<VaultCall>) -> int
    decreases calls.len(),
{
    if calls.len() == 0 {
        0
    } else {
        net_deposited(calls.drop_last()) + calls.last().net()
    }
}

/// Whether a run of calls is one of deposits and withdrawals on one result
/// of one market, none of which pays to or from the mint authority itself.
pub open spec fn on_one_result(calls: Seq<VaultCall>, market: Account, result: Account) -> bool {
    forall|i: int|
        0 <= i < calls.len() ==> {
            &&& (#[trigger] calls[i]).accounts[0] == market
            &&& calls[i].accounts[1] == result
            &&& calls[i].accounts[2].key != calls[i].accounts[5].key
        }
}

/// After a run of deposits and withdrawals on one result of an undecided
/// market, the supply of its Yes claims and the supply of its No claims
/// have both changed by what was deposited less what was withdrawn, and
/// the balance of the mint authority, which is the same account for all of
/// them, by the collateral of that. So the two supplies and the collateral
/// move in step; after deposits alone, on mints that start out empty, both
/// supplies are the sum of the amounts. This holds where the result's two
/// mints differ and no call pays to or from the mint authority itself.
pub proof fn vault_moves_in_step(
    book: Book,
    program_id: Address,
    calls: Seq<VaultCall>,
    market: Account,
    result: Account,
    mint_authority: Address,
)
    requires
        after_calls(book, program_id, calls) is Some,
        on_one_result(calls, market, result),
        held_market(market)->0.best_result is None,
        held_result(result)->0.yes_mint != held_result(result)->0.no_mint,
        calls.len() > 0 ==> calls[0].accounts[5].key == mint_authority,
    ensures
        ({
            let after = after_calls(book, program_id, calls)->0;
            let yes = held_result(result)->0.yes_mint;
            let no = held_result(result)->0.no_mint;
            let net = net_deposited(calls);
            &&& after.supply(yes) == book.supply(yes) + net
            &&& after.supply(no) == book.supply(no) + net
            &&& after.balance(mint_authority) == book.balance(mint_authority) + net
                * LAMPORTS_PER_TOKEN
            &&& forall|i: int|
                0 <= i < calls.len() ==> (#[trigger] calls[i]).accounts[5].key == mint_authority
        }),
    decreases calls.len(),
{
    if calls.len() > 0 {
        let call = calls.last();
        let rest = calls.drop_last();
        let before = after_calls(book, program_id, rest)->0;
        vault_moves_in_step(book, program_id, rest, market, result, mint_authority);
        if call.deposits {
            deposit_mints_in_pairs(
                program_id,
                call.accounts,
                call.amount,
                call.slot,
                call.signers,
                before,
            );
        } else {
            withdrawal_burns_in_step(program_id, call.accounts, call.amount, call.signers, before);
        }
        // This call and the first passed the same derived address.
        lemma_address_ext(call.accounts[5].key, calls[0].accounts[5].key);
        assert forall|i: int| 0 <= i < calls.len() implies (#[trigger] calls[i]).accounts[5].key
            == mint_authority by {
            if i < rest.len() {
                assert(rest[i] == calls[i]);
            }
        }
    }
}

/// The sum of the amounts of a run of calls.
pub open spec fn sum_of_amounts(calls: Seq<VaultCall>) -> int
    decreases calls.len(),
{
    if calls.len() == 0 {
        0
    } else {
        sum_of_amounts(calls.drop_last()) + calls.last().amount
    }
}

/// After a run of deposits alone on one result of an undecided market, on
/// mints that start out empty, the Yes claims and the No claims in
/// circulation are both exactly the sum of the amounts deposited, and the
/// mint authority has gained the collateral of that sum.
pub proof fn deposits_add_up(
    book: Book,
    program_id: Address,
    calls: Seq<VaultCall>,
    market: Account,
    result: Account,
    mint_authority: Address,
)
    requires
        after_calls(book, program_id, calls) is Some,
        on_one_result(calls, market, result),
        forall|i: int| 0 <= i < calls.len() ==> (#[trigger] calls[i]).deposits,
        held_market(market)->0.best_result is None,
        held_result(result)->0.yes_mint != held_result(result)->0.no_mint,
        calls.len() > 0 ==> calls[0].accounts[5].key == mint_authority,
        book.supply(held_result(result)->0.yes_mint) == 0,
        book.supply(held_result(result)->0.no_mint) == 0,
    ensures
        ({
            let after = after_calls(book, program_id, calls)->0;
            let sum = sum_of_amounts(calls);
            &&& after.supply(held_result(result)->0.yes_mint) == sum
            &&& after.supply(held_result(result)->0.no_mint) == sum
            &&& after.balance(mint_authority) == book.balance(mint_authority) + sum
                * LAMPORTS_PER_TOKEN
        }),
{
    vault_moves_in_step(book, program_id, calls, market, result, mint_authority);
    lemma_net_of_deposits(calls);
}

/// What a run of deposits alone adds to the claims in circulation is the
/// sum of its amounts.
proof fn lemma_net_of_deposits(calls: Seq<VaultCall>)
    requires
        forall|i: int| 0 <= i < calls.len() ==> (#[trigger] calls[i]).deposits,
    ensures
        net_deposited(calls) == sum_of_amounts(calls),
    decreases calls.len(),
{
    if calls.len() > 0 {
        let rest = calls.drop_last();
        lemma_net_of_deposits(rest);
    }
}

/// A decision that is accepted names a result of the market that is
/// decided, comes from the market's authority before the deadline, and
/// changes nothing of the market but its decision.
pub proof fn decision_names_a_result_of_the_market(
    program_id: Address,
    accounts: Seq<Account>,
    slot: u64,
    decide_once: bool,
)
    requires
        decide_answer(program_id, accounts, slot, decide_once) is Ok,
    ensures
        ({
            let before = held_market(accounts[0])->0;
            let authority = accounts[1];
            let result = accounts[2];
            &&& held_result(result) is Some
            &&& held_result(result)->0.search_market == accounts[0].key
            &&& authority.is_signer && authority.key == before.decision_authority
            &&& slot <= before.expires_slot
            &&& decide_once ==> before.best_result is None
            &&& stored(decide_answer(program_id, accounts, slot, decide_once), 0) == Some(
                Record::Market(before.decided(result.key)),
            )
            &&& before.decided(result.key).best_result == Some(result.key)
        }),
{
    assert(stores_at(decide_answer(program_id, accounts, slot, decide_once)->Ok_0, 0, 0));
}

/// An order that is created and carried out has its stake in the escrow:
/// the escrow of a buy order has gained the limit price times the quantity
/// in collateral from the collateral account, and the escrow of a sell
/// order is a token account that holds the quantity in claims and owns
/// itself. The order is recorded with the whole quantity open.
pub proof fn created_order_is_staked(
    program_id: Address,
    accounts: Seq<Account>,
    side: OrderSide,
    price: u64,
    quantity: u64,
    nonce: u8,
    slot: u64,
    signers: Seq<Address>,
    book: Book,
)
    requires
        carried_out(
            book,
            create_order_answer(program_id, accounts, side, price, quantity, nonce, slot),
            program_id,
            signers,
        ) is Some,
    ensures
        ({
            let answer = create_order_answer(
                program_id,
                accounts,
                side,
                price,
                quantity,
                nonce,
                slot,
            );
            let after = carried_out(book, answer, program_id, signers)->0;
            let collateral_account = accounts[3].key;
            let claim_account = accounts[4].key;
            let escrow = accounts[7].key;
            let stake = price * quantity;
            &&& stored(answer, 0) matches Some(Record::Order(order)) && order.quantity == quantity
                && order.price == price && order.side == side && order.creation_slot == slot
                && order.wf()
            &&& side == OrderSide::Buy && escrow != collateral_account ==> after.balance(escrow)
                == book.balance(escrow) + stake && after.balance(collateral_account)
                == book.balance(collateral_account) - stake
            &&& side == OrderSide::Sell ==> after.holding(escrow) == quantity
                && after.tokens[escrow].owner == escrow
            &&& side == OrderSide::Sell && escrow != claim_account ==> after.holding(claim_account)
                == book.holding(claim_account) - quantity
        }),
{
    reveal_with_fuel(Book::apply_all, 3);
    let outcome = create_order_answer(
        program_id,
        accounts,
        side,
        price,
        quantity,
        nonce,
        slot,
    )->Ok_0;
    assert(stores_at(outcome, 0, 0));
}

/// A fill that is accepted and carried out takes the smaller of the two
/// open quantities off both orders, moves that quantity of claims from the
/// escrow of the sell order to the buyer, and moves that quantity times the
/// execution price in collateral from the escrow of the buy order to the
/// seller. The balances are stated where an escrow is not the account that
/// it pays.
pub proof fn fill_settles_in_step(
    program_id: Address,
    accounts: Seq<Account>,
    sol_escrow_nonce: u8,
    token_escrow_nonce: u8,
    signers: Seq<Address>,
    book: Book,
)
    requires
        carried_out(
            book,
            fill_order_answer(program_id, accounts, sol_escrow_nonce, token_escrow_nonce),
            program_id,
            signers,
        ) is Some,
    ensures
        ({
            let answer = fill_order_answer(
                program_id,
                accounts,
                sol_escrow_nonce,
                token_escrow_nonce,
            );
            let after = carried_out(book, answer, program_id, signers)->0;
            let buy = held_order(accounts[0])->0;
            let sell = held_order(accounts[2])->0;
            let buyer_claims = accounts[1].key;
            let seller_collateral = accounts[3].key;
            let sol_escrow = accounts[4].key;
            let token_escrow = accounts[5].key;
            let quantity = executed_quantity(buy, sell);
            let paid = execution_price(buy, sell) * quantity;
            &&& quantity == vstd::math::min(buy.quantity as int, sell.quantity as int)
            &&& stored(answer, 0) == Some(
                Record::Order(buy.with_quantity((buy.quantity - quantity) as u64)),
            )
            &&& stored(answer, 2) == Some(
                Record::Order(sell.with_quantity((sell.quantity - quantity) as u64)),
            )
            &&& sol_escrow != seller_collateral ==> after.balance(sol_escrow) == book.balance(
                sol_escrow,
            ) - paid && after.balance(seller_collateral) == book.balance(seller_collateral) + paid
            &&& token_escrow != buyer_claims ==> after.holding(token_escrow) == book.holding(
                token_escrow,
            ) - quantity && after.holding(buyer_claims) == book.holding(buyer_claims) + quantity
        }),
{
    reveal_with_fuel(Book::apply_all, 3);
    let outcome = fill_order_answer(
        program_id,
        accounts,
        sol_escrow_nonce,
        token_escrow_nonce,
    )->Ok_0;
    assert(stores_at(outcome, 0, 0));
    assert(stores_at(outcome, 1, 2));
}

/// A buy order whose stake fits in 64 bits is never refused a fill because
/// the payment would not fit: what a fill pays is at most the stake. And a
/// fill that is accepted leaves both orders well-formed if they were.
pub proof fn fill_stays_within_the_stake(
    program_id: Address,
    accounts: Seq<Account>,
    sol_escrow_nonce: u8,
    token_escrow_nonce: u8,
)
    requires
        accounts.len() >= 9,
        held_order(accounts[0]) is Some,
        held_order(accounts[2]) is Some,
        held_order(accounts[0])->0.side == OrderSide::Buy,
        held_order(accounts[0])->0.wf(),
    ensures
        ({
            let answer = fill_order_answer(
                program_id,
                accounts,
                sol_escrow_nonce,
                token_escrow_nonce,
            );
            let buy = held_order(accounts[0])->0;
            let sell = held_order(accounts[2])->0;
            &&& answer != Err::<OutcomeView, _>(SearchMarketError::Overflow)
            &&& answer is Ok ==> execution_price(buy, sell) * executed_quantity(buy, sell)
                <= buy.stake()
            &&& answer is Ok ==> (stored(answer, 0) matches Some(Record::Order(left)) && left.wf()
                && left.quantity <= buy.quantity)
            &&& answer is Ok && sell.wf() ==> (stored(answer, 2) matches Some(Record::Order(left))
                && left.wf() && left.quantity <= sell.quantity)
        }),
{
    let answer = fill_order_answer(program_id, accounts, sol_escrow_nonce, token_escrow_nonce);
    let buy = held_order(accounts[0])->0;
    let sell = held_order(accounts[2])->0;
    let price = execution_price(buy, sell);
    let quantity = executed_quantity(buy, sell);
    if buy.price >= sell.price {
        assert(price * quantity <= buy.price * buy.quantity) by (nonlinear_arith)
            requires
                0 <= price <= buy.price,
                0 <= quantity <= buy.quantity,
        ;
    }
    if answer is Ok {
        let outcome = answer->Ok_0;
        assert(stores_at(outcome, 0, 0));
        assert(stores_at(outcome, 1, 2));
        assert(buy.price * (buy.quantity - quantity) <= buy.price * buy.quantity)
            by (nonlinear_arith)
            requires
                0 <= quantity <= buy.quantity,
                0 <= buy.price,
        ;
        assert(sell.price * (sell.quantity - quantity) <= sell.price * sell.quantity)
            by (nonlinear_arith)
            requires
                0 <= quantity <= sell.quantity,
                0 <= sell.price,
        ;
    }
}

/// An order that is created and then cancelled, with no fill in between,
/// leaves the escrow and the account that staked it as they were: the
/// collateral of a buy order is back where it came from, and the escrow of
/// a sell order holds no claims. The cancellation names the order as it was
/// recorded, and as its destinations the accounts that the order records.
pub proof fn create_then_cancel_restores(
    program_id: Address,
    created: Seq<Account>,
    side: OrderSide,
    price: u64,
    quantity: u64,
    nonce: u8,
    slot: u64,
    create_signers: Seq<Address>,
    cancelled: Seq<Account>,
    cancel_signers: Seq<Address>,
    book: Book,
)
    requires
        carried_out(
            book,
            create_order_answer(program_id, created, side, price, quantity, nonce, slot),
            program_id,
            create_signers,
        ) is Some,
        cancelled.len() >= 7,
        cancelled[0].key == created[0].key,
        Some(cancelled[0].record) == stored(
            create_order_answer(program_id, created, side, price, quantity, nonce, slot),
            0,
        ),
        cancelled[1].key == created[3].key,
        cancelled[2].key == created[4].key,
        carried_out(
            carried_out(
                book,
                create_order_answer(program_id, created, side, price, quantity, nonce, slot),
                program_id,
                create_signers,
            )->0,
            cancel_order_answer(program_id, cancelled),
            program_id,
            cancel_signers,
        ) is Some,
    ensures
        ({
            let between = carried_out(
                book,
                create_order_answer(program_id, created, side, price, quantity, nonce, slot),
                program_id,
                create_signers,
            )->0;
            let after = carried_out(
                between,
                cancel_order_answer(program_id, cancelled),
                program_id,
                cancel_signers,
            )->0;
            let collateral_account = created[3].key;
            let claim_account = created[4].key;
            let escrow = created[7].key;
            &&& cancelled[3].key == escrow
            &&& side == OrderSide::Buy ==> after.balance(escrow) == book.balance(escrow)
                && after.balance(collateral_account) == book.balance(collateral_account)
            &&& side == OrderSide::Sell ==> after.holding(escrow) == 0 && after.holding(
                claim_account,
            ) == book.holding(claim_account)
        }),
{
    reveal_with_fuel(Book::apply_all, 3);
    lemma_address_ext(cancelled[3].key, created[7].key);
    assert(quantity * price == price * quantity) by (nonlinear_arith);
}

/// Whether the program signs the `i`-th operation of an outcome for the
/// address of the account at position `j`.
pub open spec fn signs_for(
    outcome: OutcomeView,
    i: int,
    program_id: Address,
    accounts: Seq<Account>,
    j: int,
) -> bool {
    &&& 0 <= j < accounts.len()
    &&& outcome.invocations[i].signer is Some
    &&& outcome.invocations[i].signer->0.address(program_id) == Some(accounts[j].key@)
}

/// Whatever the instruction, an accepted answer stores records only at
/// positions of the account list, and where the program signs an
/// operation, it signs for an address that its caller supplied among the
/// accounts and that the seeds do derive.
pub proof fn answers_stay_within_the_accounts(
    program_id: Address,
    accounts: Seq<Account>,
    instruction: SearchMarketInstruction,
    slot: u64,
    decide_once: bool,
)
    requires
        instruction_answer(program_id, accounts, instruction, slot, decide_once) is Ok,
    ensures
        ({
            let outcome = instruction_answer(
                program_id,
                accounts,
                instruction,
                slot,
                decide_once,
            )->Ok_0;
            &&& forall|i: int|
                0 <= i < outcome.writes.len() ==> (#[trigger] outcome.writes[i]).index
                    < accounts.len()
            &&& forall|i: int|
                0 <= i < outcome.invocations.len() && (
                #[trigger] outcome.invocations[i]).signer is Some ==> exists|j: int|
                    signs_for(outcome, i, program_id, accounts, j)
        }),
{
    let outcome = instruction_answer(program_id, accounts, instruction, slot, decide_once)->Ok_0;
    assert forall|i: int|
        0 <= i < outcome.invocations.len() && (
        #[trigger] outcome.invocations[i]).signer is Some implies exists|j: int|
        signs_for(outcome, i, program_id, accounts, j) by {
        match instruction {
            SearchMarketInstruction::Deposit { .. } | SearchMarketInstruction::Withdraw { .. } => {
                assert(signs_for(outcome, i, program_id, accounts, 5));
            },
            SearchMarketInstruction::FillOrder { .. } => {
                if i == 0 {
                    assert(signs_for(outcome, i, program_id, accounts, 4));
                } else {
                    assert(signs_for(outcome, i, program_id, accounts, 5));
                }
            },
            SearchMarketInstruction::CancelOrder => {
                assert(signs_for(outcome, i, program_id, accounts, 3));
            },
            _ => {},
        }
    }
}

/// The slot plays no part in the answer to an instruction that does not
/// read the clock.
pub proof fn unread_clock_plays_no_part(
    program_id: Address,
    accounts: Seq<Account>,
    instruction: SearchMarketInstruction,
    slot: u64,
    other_slot: u64,
    decide_once: bool,
)
    requires
        !spec_reads_clock(instruction),
    ensures
        instruction_answer(program_id, accounts, instruction, slot, decide_once)
            == instruction_answer(program_id, accounts, instruction, other_slot, decide_once),
{
}

} // verus!
