//! A book of balances: what the operations that the handlers ask for mean
//! for native collateral, claim mints and claim accounts. The conservation
//! laws of the market are stated over it, and a ledger in memory keeps such
//! a book for whoever wants to run instructions without a host.

use crate::address::{Address, Seeds};
use crate::invoke::{Effect, Invocation};
use vstd::prelude::*;

verus! {

/// A claim mint: who may mint, and how much is in circulation.
#[derive(Clone, Copy, Debug, PartialEq, Eq)]
pub struct Mint {
    pub authority: Address,
    pub decimals: u8,
    pub supply: u64,
}

/// An account of claim tokens of one mint.
#[derive(Clone, Copy, Debug, PartialEq, Eq)]
pub struct TokenAccount {
    pub mint: Address,
    pub owner: Address,
    pub amount: u64,
}

/// The balances at one moment.
pub struct Book {
    pub lamports: Map<Address, u64>,
    pub mints: Map<Address, Mint>,
    pub tokens: Map<Address, TokenAccount>,
}

/// Whether `who` stands behind an operation: as one of the transaction's
/// signers, or as the address that the seeds presented with the operation
/// derive under the program.
pub open spec fn authorizes(
    program_id: Address,
    signers: Seq<Address>,
    seeds: Option<Seeds>,
    who: Address,
) -> bool {
    signers.contains(who) || (seeds is Some && seeds->0.address(program_id) == Some(who@))
}

impl Book {
    /// The book with nothing in it.
    pub open spec fn empty() -> Book {
        Book { lamports: Map::empty(), mints: Map::empty(), tokens: Map::empty() }
    }

    /// The native collateral of an account; none where nothing is booked.
    pub open spec fn balance(self, account: Address) -> u64 {
        if self.lamports.contains_key(account) {
            self.lamports[account]
        } else {
            0
        }
    }

    /// The claims of a mint in circulation; none where there is no such mint.
    pub open spec fn supply(self, mint: Address) -> u64 {
        if self.mints.contains_key(mint) {
            self.mints[mint].supply
        } else {
            0
        }
    }

    /// The claims in a token account; none where there is no such account.
    pub open spec fn holding(self, account: Address) -> u64 {
        if self.tokens.contains_key(account) {
            self.tokens[account].amount
        } else {
            0
        }
    }

    /// The book with `lamports` as the native collateral of `account`.
    pub open spec fn with_balance(self, account: Address, lamports: u64) -> Book {
        Book { lamports: self.lamports.insert(account, lamports), ..self }
    }

    /// The book with `supply` as the supply of `mint`.
    pub open spec fn with_supply(self, mint: Address, supply: u64) -> Book {
        Book { mints: self.mints.insert(mint, Mint { supply, ..self.mints[mint] }), ..self }
    }

    /// The book with `amount` as the claims in `account`.
    pub open spec fn with_holding(self, account: Address, amount: u64) -> Book {
        Book {
            tokens: self.tokens.insert(account, TokenAccount { amount, ..self.tokens[account] }),
            ..self
        }
    }

    /// Moves native collateral. The payer has to have it, and the
    /// recipient's balance has to stay within 64 bits.
    pub open spec fn transfer(self, from: Address, to: Address, lamports: u64) -> Option<Book> {
        if self.balance(from) < lamports {
            None
        } else if from == to {
            Some(self)
        } else if self.balance(to) + lamports > u64::MAX {
            None
        } else {
            Some(
                self.with_balance(from, (self.balance(from) - lamports) as u64).with_balance(
                    to,
                    (self.balance(to) + lamports) as u64,
                ),
            )
        }
    }

    /// Opens a mint without supply at an address that is neither a mint nor
    /// a token account yet.
    pub open spec fn initialize_mint(
        self,
        mint: Address,
        authority: Address,
        decimals: u8,
    ) -> Option<Book> {
        if self.mints.contains_key(mint) || self.tokens.contains_key(mint) {
            None
        } else {
            Some(
                Book {
                    mints: self.mints.insert(mint, Mint { authority, decimals, supply: 0 }),
                    ..self
                },
            )
        }
    }

    /// Opens an empty token account of an existing mint at an address that
    /// is neither a mint nor a token account yet.
    pub open spec fn initialize_account(
        self,
        account: Address,
        mint: Address,
        owner: Address,
    ) -> Option<Book> {
        if self.mints.contains_key(account) || self.tokens.contains_key(account)
            || !self.mints.contains_key(mint) {
            None
        } else {
            Some(
                Book {
                    tokens: self.tokens.insert(account, TokenAccount { mint, owner, amount: 0 }),
                    ..self
                },
            )
        }
    }

    /// Mints claims into an account of the mint, at the word of the mint's
    /// authority.
    pub open spec fn mint_to(
        self,
        mint: Address,
        account: Address,
        authority: Address,
        amount: u64,
    ) -> Option<Book> {
        if !self.mints.contains_key(mint) || !self.tokens.contains_key(account)
            || self.tokens[account].mint != mint || self.mints[mint].authority != authority
            || self.supply(mint) + amount > u64::MAX || self.holding(account) + amount > u64::MAX {
            None
        } else {
            Some(
                self.with_supply(mint, (self.supply(mint) + amount) as u64).with_holding(
                    account,
                    (self.holding(account) + amount) as u64,
                ),
            )
        }
    }

    /// Burns claims out of an account of the mint, at the word of the
    /// account's owner.
    pub open spec fn burn(
        self,
        account: Address,
        mint: Address,
        authority: Address,
        amount: u64,
    ) -> Option<Book> {
        if !self.mints.contains_key(mint) || !self.tokens.contains_key(account)
            || self.tokens[account].mint != mint || self.tokens[account].owner != authority
            || self.holding(account) < amount || self.supply(mint) < amount {
            None
        } else {
            Some(
                self.with_supply(mint, (self.supply(mint) - amount) as u64).with_holding(
                    account,
                    (self.holding(account) - amount) as u64,
                ),
            )
        }
    }

    /// Moves claims between two accounts of one mint, at the word of the
    /// owner of the source.
    pub open spec fn token_transfer(
        self,
        source: Address,
        destination: Address,
        authority: Address,
        amount: u64,
    ) -> Option<Book> {
        if !self.tokens.contains_key(source) || !self.tokens.contains_key(destination)
            || self.tokens[source].mint != self.tokens[destination].mint
            || self.tokens[source].owner != authority || self.holding(source) < amount {
            None
        } else if source == destination {
            Some(self)
        } else if self.holding(destination) + amount > u64::MAX {
            None
        } else {
            Some(
                self.with_holding(source, (self.holding(source) - amount) as u64).with_holding(
                    destination,
                    (self.holding(destination) + amount) as u64,
                ),
            )
        }
    }

    /// The book after an operation, or `None` where the operation fails:
    /// whoever has to sign it does not stand behind it, or the balances do
    /// not allow it.
    pub open spec fn apply(
        self,
        invocation: Invocation,
        program_id: Address,
        signers: Seq<Address>,
    ) -> Option<Book> {
        match invocation.effect {
            Effect::Transfer { from, to, lamports } => if authorizes(
                program_id,
                signers,
                invocation.signer,
                from,
            ) {
                self.transfer(from, to, lamports)
            } else {
                None
            },
            Effect::InitializeMint { mint, authority, decimals } => self.initialize_mint(
                mint,
                authority,
                decimals,
            ),
            Effect::InitializeAccount { account, mint, owner } => self.initialize_account(
                account,
                mint,
                owner,
            ),
            Effect::MintTo { mint, account, authority, amount } => if authorizes(
                program_id,
                signers,
                invocation.signer,
                authority,
            ) {
                self.mint_to(mint, account, authority, amount)
            } else {
                None
            },
            Effect::Burn { account, mint, authority, amount } => if authorizes(
                program_id,
                signers,
                invocation.signer,
                authority,
            ) {
                self.burn(account, mint, authority, amount)
            } else {
                None
            },
            Effect::TokenTransfer { source, destination, authority, amount } => if authorizes(
                program_id,
                signers,
                invocation.signer,
                authority,
            ) {
                self.token_transfer(source, destination, authority, amount)
            } else {
                None
            },
        }
    }

    /// The book after a run of operations, or `None` where one of them fails.
    pub open spec fn apply_all(
        self,
        invocations: Seq<Invocation>,
        program_id: Address,
        signers: Seq<Address>,
    ) -> Option<Book>
        decreases invocations.len(),
    {
        if invocations.len() == 0 {
            Some(self)
        } else {
            match self.apply(invocations[0], program_id, signers) {
                Some(next) => next.apply_all(invocations.drop_first(), program_id, signers),
                None => None,
            }
        }
    }
}

/// The map that a list of entries stands for: a later entry for a key
/// replaces an earlier one.
pub open spec fn table<V>(entries: Seq<(Address, V)>) -> Map<Address, V>
    decreases entries.len(),
{
    if entries.len() == 0 {
        Map::empty()
    } else {
        table(entries.drop_last()).insert(entries.last().0, entries.last().1)
    }
}

/// Whether `new` is `old` with entries added behind.
spec fn grew<V>(old: Seq<(Address, V)>, new: Seq<(Address, V)>) -> bool {
    old.len() <= new.len() && forall|i: int| 0 <= i < old.len() ==> new[i] == old[i]
}

/// Looks a key up in a list of entries, the latest entry first.
fn lookup<V: Copy>(entries: &Vec<(Address, V)>, key: &Address) -> (found: Option<V>)
    ensures
        found == (if table(entries@).contains_key(*key) {
            Some(table(entries@)[*key])
        } else {
            None
        }),
{
    let mut i: usize = entries.len();
    assert(entries@.take(i as int) =~= entries@);
    while i > 0
        invariant
            i <= entries.len(),
            table(entries@).contains_key(*key) == table(entries@.take(i as int)).contains_key(*key),
            table(entries@).contains_key(*key) ==> table(entries@)[*key] == table(
                entries@.take(i as int),
            )[*key],
        decreases i,
    {
        i -= 1;
        assert(entries@.take(i + 1).drop_last() =~= entries@.take(i as int));
        if entries[i].0 == *key {
            return Some(entries[i].1);
        }
    }
    None
}

/// A ledger in memory. It keeps a book and changes it by the operations
/// that the handlers ask for.
pub struct Ledger {
    lamports: Vec<(Address, u64)>,
    mints: Vec<(Address, Mint)>,
    tokens: Vec<(Address, TokenAccount)>,
}

impl View for Ledger {
    type V = Book;

    closed spec fn view(&self) -> Book {
        Book {
            lamports: table(self.lamports@),
            mints: table(self.mints@),
            tokens: table(self.tokens@),
        }
    }
}

/// Whether `who` is among the signers.
fn is_signer(signers: &[Address], who: &Address) -> (found: bool)
    ensures
        found == signers@.contains(*who),
{
    let mut i: usize = 0;
    while i < signers.len()
        invariant
            i <= signers.len(),
            forall|j: int| 0 <= j < i ==> signers@[j] != *who,
        decreases signers.len() - i,
    {
        if signers[i] == *who {
            return true;
        }
        i += 1;
    }
    false
}

/// Decides whether `who` stands behind an operation.
pub fn is_authorized(
    program_id: &Address,
    signers: &[Address],
    seeds: &Option<Seeds>,
    who: &Address,
) -> (ok: bool)
    ensures
        ok == authorizes(*program_id, signers@, *seeds, *who),
{
    if is_signer(signers, who) {
        return true;
    }
    match seeds {
        Some(seeds) => crate::address::validate(who, seeds, program_id),
        None => false,
    }
}

impl Ledger {
    /// Whether this ledger is `old` with entries added.
    spec fn extends(self, old: Ledger) -> bool {
        &&& grew(old.lamports@, self.lamports@)
        &&& grew(old.mints@, self.mints@)
        &&& grew(old.tokens@, self.tokens@)
    }

    /// A ledger with nothing booked.
    pub fn new() -> (ledger: Ledger)
        ensures
            ledger@ == Book::empty(),
    {
        Ledger { lamports: Vec::new(), mints: Vec::new(), tokens: Vec::new() }
    }

    /// Books `lamports` as the native collateral of `account`.
    pub fn set_balance(&mut self, account: Address, lamports: u64)
        ensures
            final(self)@ == old(self)@.with_balance(account, lamports),
    {
        self.put_balance(account, lamports);
    }

    fn put_balance(&mut self, account: Address, lamports: u64)
        ensures
            final(self)@ == old(self)@.with_balance(account, lamports),
            final(self).extends(*old(self)),
    {
        self.lamports.push((account, lamports));
        assert(self.lamports@.drop_last() =~= old(self).lamports@);
    }

    /// The native collateral of `account`.
    pub fn balance(&self, account: &Address) -> (lamports: u64)
        ensures
            lamports == self@.balance(*account),
    {
        match lookup(&self.lamports, account) {
            Some(lamports) => lamports,
            None => 0,
        }
    }

    /// The mint at `mint`, if there is one.
    pub fn mint(&self, mint: &Address) -> (found: Option<Mint>)
        ensures
            found == (if self@.mints.contains_key(*mint) {
                Some(self@.mints[*mint])
            } else {
                None
            }),
    {
        lookup(&self.mints, mint)
    }

    /// The token account at `account`, if there is one.
    pub fn token_account(&self, account: &Address) -> (found: Option<TokenAccount>)
        ensures
            found == (if self@.tokens.contains_key(*account) {
                Some(self@.tokens[*account])
            } else {
                None
            }),
    {
        lookup(&self.tokens, account)
    }

    fn put_mint(&mut self, mint: Address, value: Mint)
        ensures
            final(self)@ == (Book { mints: old(self)@.mints.insert(mint, value), ..old(self)@ }),
            final(self).extends(*old(self)),
    {
        self.mints.push((mint, value));
        assert(self.mints@.drop_last() =~= old(self).mints@);
    }

    fn put_token(&mut self, account: Address, value: TokenAccount)
        ensures
            final(self)@ == (Book {
                tokens: old(self)@.tokens.insert(account, value),
                ..old(self)@
            }),
            final(self).extends(*old(self)),
    {
        self.tokens.push((account, value));
        assert(self.tokens@.drop_last() =~= old(self).tokens@);
    }

    fn transfer(&mut self, from: &Address, to: &Address, lamports: u64) -> (done: bool)
        ensures
            done == old(self)@.transfer(*from, *to, lamports) is Some,
            done ==> final(self)@ == old(self)@.transfer(*from, *to, lamports)->0,
            !done ==> *final(self) == *old(self),
            final(self).extends(*old(self)),
    {
        let paid = self.balance(from);
        if paid < lamports {
            return false;
        }
        if *from == *to {
            return true;
        }
        let held = self.balance(to);
        if held > u64::MAX - lamports {
            return false;
        }
        self.put_balance(*from, paid - lamports);
        self.put_balance(*to, held + lamports);
        true
    }

    fn initialize_mint(&mut self, mint: &Address, authority: &Address, decimals: u8) -> (done:
        bool)
        ensures
            done == old(self)@.initialize_mint(*mint, *authority, decimals) is Some,
            done ==> final(self)@ == old(self)@.initialize_mint(*mint, *authority, decimals)->0,
            !done ==> *final(self) == *old(self),
            final(self).extends(*old(self)),
    {
        if self.mint(mint).is_some() || self.token_account(mint).is_some() {
            return false;
        }
        self.put_mint(*mint, Mint { authority: *authority, decimals, supply: 0 });
        true
    }

    fn initialize_account(&mut self, account: &Address, mint: &Address, owner: &Address) -> (done:
        bool)
        ensures
            done == old(self)@.initialize_account(*account, *mint, *owner) is Some,
            done ==> final(self)@ == old(self)@.initialize_account(*account, *mint, *owner)->0,
            !done ==> *final(self) == *old(self),
            final(self).extends(*old(self)),
    {
        if self.mint(account).is_some() || self.token_account(account).is_some() || self.mint(
            mint,
        ).is_none() {
            return false;
        }
        self.put_token(*account, TokenAccount { mint: *mint, owner: *owner, amount: 0 });
        true
    }

    fn mint_to(
        &mut self,
        mint: &Address,
        account: &Address,
        authority: &Address,
        amount: u64,
    ) -> (done: bool)
        ensures
            done == old(self)@.mint_to(*mint, *account, *authority, amount) is Some,
            done ==> final(self)@ == old(self)@.mint_to(*mint, *account, *authority, amount)->0,
            !done ==> *final(self) == *old(self),
            final(self).extends(*old(self)),
    {
        let m = match self.mint(mint) {
            Some(m) => m,
            None => {
                return false;
            },
        };
        let t = match self.token_account(account) {
            Some(t) => t,
            None => {
                return false;
            },
        };
        if t.mint != *mint || m.authority != *authority || m.supply > u64::MAX - amount || t.amount
            > u64::MAX - amount {
            return false;
        }
        self.put_mint(
            *mint,
            Mint { authority: m.authority, decimals: m.decimals, supply: m.supply + amount },
        );
        self.put_token(
            *account,
            TokenAccount { mint: t.mint, owner: t.owner, amount: t.amount + amount },
        );
        true
    }

    fn burn(
        &mut self,
        account: &Address,
        mint: &Address,
        authority: &Address,
        amount: u64,
    ) -> (done: bool)
        ensures
            done == old(self)@.burn(*account, *mint, *authority, amount) is Some,
            done ==> final(self)@ == old(self)@.burn(*account, *mint, *authority, amount)->0,
            !done ==> *final(self) == *old(self),
            final(self).extends(*old(self)),
    {
        let m = match self.mint(mint) {
            Some(m) => m,
            None => {
                return false;
            },
        };
        let t = match self.token_account(account) {
            Some(t) => t,
            None => {
                return false;
            },
        };
        if t.mint != *mint || t.owner != *authority || t.amount < amount || m.supply < amount {
            return false;
        }
        self.put_mint(
            *mint,
            Mint { authority: m.authority, decimals: m.decimals, supply: m.supply - amount },
        );
        self.put_token(
            *account,
            TokenAccount { mint: t.mint, owner: t.owner, amount: t.amount - amount },
        );
        true
    }

    fn token_transfer(
        &mut self,
        source: &Address,
        destination: &Address,
        authority: &Address,
        amount: u64,
    ) -> (done: bool)
        ensures
            done == old(self)@.token_transfer(*source, *destination, *authority, amount) is Some,
            done ==> final(self)@ == old(self)@.token_transfer(
                *source,
                *destination,
                *authority,
                amount,
            )->0,
            !done ==> *final(self) == *old(self),
            final(self).extends(*old(self)),
    {
        let s = match self.token_account(source) {
            Some(s) => s,
            None => {
                return false;
            },
        };
        let d = match self.token_account(destination) {
            Some(d) => d,
            None => {
                return false;
            },
        };
        if s.mint != d.mint || s.owner != *authority || s.amount < amount {
            return false;
        }
        if *source == *destination {
            return true;
        }
        if d.amount > u64::MAX - amount {
            return false;
        }
        self.put_token(
            *source,
            TokenAccount { mint: s.mint, owner: s.owner, amount: s.amount - amount },
        );
        self.put_token(
            *destination,
            TokenAccount { mint: d.mint, owner: d.owner, amount: d.amount + amount },
        );
        true
    }

    fn step(
        &mut self,
        invocation: &Invocation,
        program_id: &Address,
        signers: &[Address],
    ) -> (done: bool)
        ensures
            done == old(self)@.apply(*invocation, *program_id, signers@) is Some,
            done ==> final(self)@ == old(self)@.apply(*invocation, *program_id, signers@)->0,
            !done ==> *final(self) == *old(self),
            final(self).extends(*old(self)),
    {
        match invocation.effect {
            Effect::Transfer { from, to, lamports } => {
                is_authorized(program_id, signers, &invocation.signer, &from) && self.transfer(
                    &from,
                    &to,
                    lamports,
                )
            },
            Effect::InitializeMint { mint, authority, decimals } => self.initialize_mint(
                &mint,
                &authority,
                decimals,
            ),
            Effect::InitializeAccount { account, mint, owner } => self.initialize_account(
                &account,
                &mint,
                &owner,
            ),
            Effect::MintTo { mint, account, authority, amount } => {
                is_authorized(program_id, signers, &invocation.signer, &authority) && self.mint_to(
                    &mint,
                    &account,
                    &authority,
                    amount,
                )
            },
            Effect::Burn { account, mint, authority, amount } => {
                is_authorized(program_id, signers, &invocation.signer, &authority) && self.burn(
                    &account,
                    &mint,
                    &authority,
                    amount,
                )
            },
            Effect::TokenTransfer { source, destination, authority, amount } => {
                is_authorized(program_id, signers, &invocation.signer, &authority)
                    && self.token_transfer(&source, &destination, &authority, amount)
            },
        }
    }

    /// Carries out one operation for the program `program_id` in a
    /// transaction that `signers` signed. Where the operation fails, the
    /// ledger stays as it was.
    pub fn invoke(
        &mut self,
        invocation: &Invocation,
        program_id: &Address,
        signers: &[Address],
    ) -> (done: bool)
        ensures
            done == old(self)@.apply(*invocation, *program_id, signers@) is Some,
            done ==> final(self)@ == old(self)@.apply(*invocation, *program_id, signers@)->0,
            !done ==> final(self)@ == old(self)@,
    {
        self.step(invocation, program_id, signers)
    }

    /// Carries out a run of operations, all of them or none: where one
    /// fails, the ledger stays as it was before the first.
    pub fn invoke_all(
        &mut self,
        invocations: &[Invocation],
        program_id: &Address,
        signers: &[Address],
    ) -> (done: bool)
        ensures
            done == old(self)@.apply_all(invocations@, *program_id, signers@) is Some,
            done ==> final(self)@ == old(self)@.apply_all(invocations@, *program_id, signers@)->0,
            !done ==> final(self)@ == old(self)@,
    {
        let lamports = self.lamports.len();
        let mints = self.mints.len();
        let tokens = self.tokens.len();
        let mut i: usize = 0;
        assert(invocations@.skip(0) =~= invocations@);
        while i < invocations.len()
            invariant
                i <= invocations.len(),
                lamports == old(self).lamports@.len(),
                mints == old(self).mints@.len(),
                tokens == old(self).tokens@.len(),
                self.extends(*old(self)),
                old(self)@.apply_all(invocations@, *program_id, signers@) == self@.apply_all(
                    invocations@.skip(i as int),
                    *program_id,
                    signers@,
                ),
            decreases invocations.len() - i,
        {
            assert(invocations@.skip(i as int).drop_first() =~= invocations@.skip(i + 1));
            if !self.step(&invocations[i], program_id, signers) {
                self.lamports.truncate(lamports);
                self.mints.truncate(mints);
                self.tokens.truncate(tokens);
                assert(self.lamports@ =~= old(self).lamports@);
                assert(self.mints@ =~= old(self).mints@);
                assert(self.tokens@ =~= old(self).tokens@);
                return false;
            }
            i += 1;
        }
        true
    }
}

} // verus!
