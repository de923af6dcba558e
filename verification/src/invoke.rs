//! What a handler asks the host to carry out: transfers of native
//! collateral by the system program, and operations of the token program,
//! some of them signed by the program for one of its derived addresses.

use crate::address::{rent_sysvar_id, system_program_id, token_program_id, Address, Seeds};
use solana_program::pubkey::Pubkey;
use vstd::bytes::spec_u64_to_le_bytes;
use vstd::prelude::*;

verus! {

/// The number of decimals of every claim mint.
pub const CLAIM_DECIMALS: u8 = 9;

/// An account as an instruction names it.
#[derive(Clone, Copy, Debug, PartialEq, Eq)]
pub struct AccountMeta {
    pub pubkey: Address,
    pub is_signer: bool,
    pub is_writable: bool,
}

impl AccountMeta {
    /// An account that the instruction may write to.
    pub open spec fn spec_new(pubkey: Address, is_signer: bool) -> AccountMeta {
        AccountMeta { pubkey, is_signer, is_writable: true }
    }

    /// An account that the instruction only reads.
    pub open spec fn spec_new_readonly(pubkey: Address, is_signer: bool) -> AccountMeta {
        AccountMeta { pubkey, is_signer, is_writable: false }
    }

    /// An account that the instruction may write to.
    #[verifier::when_used_as_spec(spec_new)]
    pub fn new(pubkey: Address, is_signer: bool) -> (meta: AccountMeta)
        ensures
            meta == AccountMeta::spec_new(pubkey, is_signer),
    {
        AccountMeta { pubkey, is_signer, is_writable: true }
    }

    /// An account that the instruction only reads.
    #[verifier::when_used_as_spec(spec_new_readonly)]
    pub fn new_readonly(pubkey: Address, is_signer: bool) -> (meta: AccountMeta)
        ensures
            meta == AccountMeta::spec_new_readonly(pubkey, is_signer),
    {
        AccountMeta { pubkey, is_signer, is_writable: false }
    }
}

/// An instruction for another program, as the host takes it.
#[derive(Clone, Debug, PartialEq, Eq)]
pub struct Instruction {
    pub program_id: Address,
    pub accounts: Vec<AccountMeta>,
    pub data: Vec<u8>,
}

/// An instruction with its accounts and data as sequences.
pub struct InstructionView {
    pub program_id: Address,
    pub accounts: Seq<AccountMeta>,
    pub data: Seq<u8>,
}

impl View for Instruction {
    type V = InstructionView;

    open spec fn view(&self) -> InstructionView {
        InstructionView { program_id: self.program_id, accounts: self.accounts@, data: self.data@ }
    }
}

/// An instruction that was built, if it was, taken by its view.
pub open spec fn built_view(built: Option<Instruction>) -> Option<InstructionView> {
    match built {
        Some(i) => Some(i@),
        None => None,
    }
}

/// One operation of the system program or of the token program.
#[derive(Clone, Copy, Debug, PartialEq, Eq)]
pub enum Effect {
    /// Moves `lamports` of native collateral; `from` has to sign.
    Transfer { from: Address, to: Address, lamports: u64 },
    /// Makes `mint` a claim mint without supply, which `authority` may mint.
    InitializeMint { mint: Address, authority: Address, decimals: u8 },
    /// Makes `account` an empty token account of `mint` that `owner` controls.
    InitializeAccount { account: Address, mint: Address, owner: Address },
    /// Mints `amount` claim tokens of `mint` into `account`; `authority` has to sign.
    MintTo { mint: Address, account: Address, authority: Address, amount: u64 },
    /// Burns `amount` claim tokens of `mint` out of `account`; `authority` has to sign.
    Burn { account: Address, mint: Address, authority: Address, amount: u64 },
    /// Moves `amount` claim tokens; `authority` has to sign.
    TokenTransfer { source: Address, destination: Address, authority: Address, amount: u64 },
}

/// An operation together with the seeds of the derived address that the
/// program signs it for, if it signs.
#[derive(Clone, Copy, Debug, PartialEq, Eq)]
pub struct Invocation {
    pub effect: Effect,
    pub signer: Option<Seeds>,
}

impl Invocation {
    /// An operation that only the transaction's own signers authorize.
    pub open spec fn plain(effect: Effect) -> Invocation {
        Invocation { effect, signer: None }
    }

    /// An operation that the program signs for the address of `seeds`.
    pub open spec fn signed(effect: Effect, seeds: Seeds) -> Invocation {
        Invocation { effect, signer: Some(seeds) }
    }
}

impl Effect {
    /// The program that carries the operation out.
    pub open spec fn program(self) -> Address {
        match self {
            Effect::Transfer { .. } => system_program_id(),
            _ => token_program_id(),
        }
    }

    /// The accounts that the operation names, in the order in which the
    /// program that carries it out expects them.
    pub open spec fn accounts(self) -> Seq<AccountMeta> {
        match self {
            Effect::Transfer { from, to, lamports } => seq![
                AccountMeta::new(from, true),
                AccountMeta::new(to, false),
            ],
            Effect::InitializeMint { mint, authority, decimals } => seq![
                AccountMeta::new(mint, false),
                AccountMeta::new_readonly(rent_sysvar_id(), false),
            ],
            Effect::InitializeAccount { account, mint, owner } => seq![
                AccountMeta::new(account, false),
                AccountMeta::new_readonly(mint, false),
                AccountMeta::new_readonly(rent_sysvar_id(), false),
            ],
            Effect::MintTo { mint, account, authority, amount } => seq![
                AccountMeta::new(mint, false),
                AccountMeta::new(account, false),
                AccountMeta::new_readonly(authority, true),
            ],
            Effect::Burn { account, mint, authority, amount } => seq![
                AccountMeta::new(account, false),
                AccountMeta::new(mint, false),
                AccountMeta::new_readonly(authority, true),
            ],
            Effect::TokenTransfer { source, destination, authority, amount } => seq![
                AccountMeta::new(source, false),
                AccountMeta::new(destination, false),
                AccountMeta::new_readonly(authority, true),
            ],
        }
    }

    /// The operation's data: a tag, then its arguments, integers in
    /// little-endian order.
    pub open spec fn data(self) -> Seq<u8> {
        match self {
            Effect::Transfer { from, to, lamports } => seq![2u8, 0u8, 0u8, 0u8]
                + spec_u64_to_le_bytes(lamports),
            Effect::InitializeMint { mint, authority, decimals } => seq![0u8, decimals]
                + authority@ + seq![0u8],
            Effect::InitializeAccount { account, mint, owner } => seq![16u8] + owner@,
            Effect::MintTo { mint, account, authority, amount } => seq![7u8]
                + spec_u64_to_le_bytes(amount),
            Effect::Burn { account, mint, authority, amount } => seq![8u8] + spec_u64_to_le_bytes(
                amount,
            ),
            Effect::TokenTransfer { source, destination, authority, amount } => seq![3u8]
                + spec_u64_to_le_bytes(amount),
        }
    }

    /// The instruction that asks for the operation.
    pub open spec fn spec_instruction(self) -> InstructionView {
        InstructionView { program_id: self.program(), accounts: self.accounts(), data: self.data() }
    }

    /// Builds the instruction that asks for the operation.
    pub fn instruction(&self) -> (built: Instruction)
        ensures
            built@ == self.spec_instruction(),
    {
        let token = token_program_id();
        match *self {
            Effect::Transfer { from, to, lamports } => system_transfer(&from, &to, lamports),
            Effect::InitializeMint { mint, authority, decimals } => token_initialize_mint(
                &token,
                &mint,
                &authority,
                decimals,
            ).unwrap(),
            Effect::InitializeAccount { account, mint, owner } => token_initialize_account(
                &token,
                &account,
                &mint,
                &owner,
            ).unwrap(),
            Effect::MintTo { mint, account, authority, amount } => token_mint_to(
                &token,
                &mint,
                &account,
                &authority,
                amount,
            ).unwrap(),
            Effect::Burn { account, mint, authority, amount } => token_burn(
                &token,
                &account,
                &mint,
                &authority,
                amount,
            ).unwrap(),
            Effect::TokenTransfer { source, destination, authority, amount } => token_transfer(
                &token,
                &source,
                &destination,
                &authority,
                amount,
            ).unwrap(),
        }
    }
}

/// `solana_program::system_instruction::transfer`: an instruction for the
/// system program that names the payer as a writable signer and the
/// recipient as writable, with the variant's index 2 in four bytes and the
/// amount in eight as its data.
#[verifier::external_body]
fn system_transfer(from: &Address, to: &Address, lamports: u64) -> (built: Instruction)
    ensures
        built@ == (Effect::Transfer { from: *from, to: *to, lamports }).spec_instruction(),
{
    let i = solana_program::system_instruction::transfer(
        &Pubkey::new_from_array(from.bytes),
        &Pubkey::new_from_array(to.bytes),
        lamports,
    );
    let accounts = i.accounts.iter().map(|m| AccountMeta {
        pubkey: Address { bytes: m.pubkey.to_bytes() },
        is_signer: m.is_signer,
        is_writable: m.is_writable,
    }).collect();
    let program_id = Address { bytes: i.program_id.to_bytes() };
    Instruction { program_id, accounts, data: i.data }
}

/// `spl_token::instruction::initialize_mint`, called without a freeze
/// authority: refused unless `token` is the token program; else an
/// instruction that names the mint as writable and the rent sysvar, with
/// tag 0, the decimals, the mint authority and a 0 for the absent freeze
/// authority as its data.
#[verifier::external_body]
fn token_initialize_mint(
    token: &Address,
    mint: &Address,
    authority: &Address,
    decimals: u8,
) -> (built: Option<Instruction>)
    ensures
        built_view(built) == (if *token == token_program_id() {
            Some(
                (Effect::InitializeMint {
                    mint: *mint,
                    authority: *authority,
                    decimals,
                }).spec_instruction(),
            )
        } else {
            None
        }),
{
    let i = spl_token::instruction::initialize_mint(
        &Pubkey::new_from_array(token.bytes),
        &Pubkey::new_from_array(mint.bytes),
        &Pubkey::new_from_array(authority.bytes),
        None,
        decimals,
    ).ok()?;
    let accounts = i.accounts.iter().map(|m| AccountMeta {
        pubkey: Address { bytes: m.pubkey.to_bytes() },
        is_signer: m.is_signer,
        is_writable: m.is_writable,
    }).collect();
    let program_id = Address { bytes: i.program_id.to_bytes() };
    Some(Instruction { program_id, accounts, data: i.data })
}

/// `spl_token::instruction::initialize_account2`: refused unless `token` is
/// the token program; else an instruction that names the account as
/// writable, the mint and the rent sysvar, with tag 16 and the owner as its
/// data.
#[verifier::external_body]
fn token_initialize_account(
    token: &Address,
    account: &Address,
    mint: &Address,
    owner: &Address,
) -> (built: Option<Instruction>)
    ensures
        built_view(built) == (if *token == token_program_id() {
            Some(
                (Effect::InitializeAccount {
                    account: *account,
                    mint: *mint,
                    owner: *owner,
                }).spec_instruction(),
            )
        } else {
            None
        }),
{
    let i = spl_token::instruction::initialize_account2(
        &Pubkey::new_from_array(token.bytes),
        &Pubkey::new_from_array(account.bytes),
        &Pubkey::new_from_array(mint.bytes),
        &Pubkey::new_from_array(owner.bytes),
    ).ok()?;
    let accounts = i.accounts.iter().map(|m| AccountMeta {
        pubkey: Address { bytes: m.pubkey.to_bytes() },
        is_signer: m.is_signer,
        is_writable: m.is_writable,
    }).collect();
    let program_id = Address { bytes: i.program_id.to_bytes() };
    Some(Instruction { program_id, accounts, data: i.data })
}

/// `spl_token::instruction::mint_to`, called without multisignature
/// signers: refused unless `token` is the token program; else an
/// instruction that names the mint and the account as writable and the
/// authority as a signer, with tag 7 and the amount as its data.
#[verifier::external_body]
fn token_mint_to(
    token: &Address,
    mint: &Address,
    account: &Address,
    authority: &Address,
    amount: u64,
) -> (built: Option<Instruction>)
    ensures
        built_view(built) == (if *token == token_program_id() {
            Some(
                (Effect::MintTo {
                    mint: *mint,
                    account: *account,
                    authority: *authority,
                    amount,
                }).spec_instruction(),
            )
        } else {
            None
        }),
{
    let i = spl_token::instruction::mint_to(
        &Pubkey::new_from_array(token.bytes),
        &Pubkey::new_from_array(mint.bytes),
        &Pubkey::new_from_array(account.bytes),
        &Pubkey::new_from_array(authority.bytes),
        &[],
        amount,
    ).ok()?;
    let accounts = i.accounts.iter().map(|m| AccountMeta {
        pubkey: Address { bytes: m.pubkey.to_bytes() },
        is_signer: m.is_signer,
        is_writable: m.is_writable,
    }).collect();
    let program_id = Address { bytes: i.program_id.to_bytes() };
    Some(Instruction { program_id, accounts, data: i.data })
}

/// `spl_token::instruction::burn`, called without multisignature signers:
/// refused unless `token` is the token program; else an instruction that
/// names the account and the mint as writable and the authority as a
/// signer, with tag 8 and the amount as its data.
#[verifier::external_body]
fn token_burn(
    token: &Address,
    account: &Address,
    mint: &Address,
    authority: &Address,
    amount: u64,
) -> (built: Option<Instruction>)
    ensures
        built_view(built) == (if *token == token_program_id() {
            Some(
                (Effect::Burn {
                    account: *account,
                    mint: *mint,
                    authority: *authority,
                    amount,
                }).spec_instruction(),
            )
        } else {
            None
        }),
{
    let i = spl_token::instruction::burn(
        &Pubkey::new_from_array(token.bytes),
        &Pubkey::new_from_array(account.bytes),
        &Pubkey::new_from_array(mint.bytes),
        &Pubkey::new_from_array(authority.bytes),
        &[],
        amount,
    ).ok()?;
    let accounts = i.accounts.iter().map(|m| AccountMeta {
        pubkey: Address { bytes: m.pubkey.to_bytes() },
        is_signer: m.is_signer,
        is_writable: m.is_writable,
    }).collect();
    let program_id = Address { bytes: i.program_id.to_bytes() };
    Some(Instruction { program_id, accounts, data: i.data })
}

/// `spl_token::instruction::transfer`, called without multisignature
/// signers: refused unless `token` is the token program; else an
/// instruction that names the source and the destination as writable and
/// the authority as a signer, with tag 3 and the amount as its data.
#[verifier::external_body]
fn token_transfer(
    token: &Address,
    source: &Address,
    destination: &Address,
    authority: &Address,
    amount: u64,
) -> (built: Option<Instruction>)
    ensures
        built_view(built) == (if *token == token_program_id() {
            Some(
                (Effect::TokenTransfer {
                    source: *source,
                    destination: *destination,
                    authority: *authority,
                    amount,
                }).spec_instruction(),
            )
        } else {
            None
        }),
{
    let i = spl_token::instruction::transfer(
        &Pubkey::new_from_array(token.bytes),
        &Pubkey::new_from_array(source.bytes),
        &Pubkey::new_from_array(destination.bytes),
        &Pubkey::new_from_array(authority.bytes),
        &[],
        amount,
    ).ok()?;
    let accounts = i.accounts.iter().map(|m| AccountMeta {
        pubkey: Address { bytes: m.pubkey.to_bytes() },
        is_signer: m.is_signer,
        is_writable: m.is_writable,
    }).collect();
    let program_id = Address { bytes: i.program_id.to_bytes() };
    Some(Instruction { program_id, accounts, data: i.data })
}

} // verus!
