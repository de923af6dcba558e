//! Addresses, and the keyless sub-addresses that the program derives for
//! its mint authority and for the escrow of each order.

use solana_program::pubkey::Pubkey;
use vstd::prelude::*;

verus! {

/// A 32-byte account address.
#[derive(Clone, Copy, Debug, Eq, Hash)]
pub struct Address {
    pub bytes: [u8; 32],
}

impl View for Address {
    type V = Seq<u8>;

    open spec fn view(&self) -> Seq<u8> {
        self.bytes@
    }
}

impl PartialEq for Address {
    fn eq(&self, other: &Address) -> (same: bool) {
        let mut i: usize = 0;
        while i < 32
            invariant
                i <= 32,
                forall|j: int| 0 <= j < i ==> self.bytes[j] == other.bytes[j],
            decreases 32 - i,
        {
            if self.bytes[i] != other.bytes[i] {
                return false;
            }
            i += 1;
        }
        assert(self.bytes =~= other.bytes);
        true
    }
}

impl vstd::std_specs::cmp::PartialEqSpecImpl for Address {
    open spec fn obeys_eq_spec() -> bool {
        true
    }

    open spec fn eq_spec(&self, other: &Address) -> bool {
        *self == *other
    }
}

/// Two addresses with the same bytes are the same address.
pub proof fn lemma_address_ext(a: Address, b: Address)
    ensures
        (a@ == b@) == (a == b),
{
    if a@ == b@ {
        assert(a.bytes =~= b.bytes);
    }
}

impl Address {
    /// The address made of the given bytes.
    pub fn new(bytes: [u8; 32]) -> (a: Address)
        ensures
            a.bytes == bytes,
    {
        Address { bytes }
    }

    /// The bytes of the address, as a vector.
    pub fn to_vec(&self) -> (v: Vec<u8>)
        ensures
            v@ == self@,
    {
        let mut v: Vec<u8> = Vec::new();
        let mut i: usize = 0;
        while i < 32
            invariant
                i <= 32,
                v@ == self@.subrange(0, i as int),
            decreases 32 - i,
        {
            v.push(self.bytes[i]);
            i += 1;
        }
        v
    }
}

/// The system program, which moves native collateral: the all-zero address.
pub const SYSTEM_PROGRAM_ID: [u8; 32] = [
    0, 0, 0, 0, 0, 0, 0, 0, 0, 0, 0, 0, 0, 0, 0, 0,
    0, 0, 0, 0, 0, 0, 0, 0, 0, 0, 0, 0, 0, 0, 0, 0,
];

/// The token program, which keeps the claim tokens.
pub const TOKEN_PROGRAM_ID: [u8; 32] = [
    6, 221, 246, 225, 215, 101, 161, 147, 217, 203, 225, 70, 206, 235, 121, 172,
    28, 180, 133, 237, 95, 91, 55, 145, 58, 140, 245, 133, 126, 255, 0, 169,
];

/// The rent sysvar, which the token program reads when it initializes an account.
pub const RENT_SYSVAR_ID: [u8; 32] = [
    6, 167, 213, 23, 25, 44, 92, 81, 33, 140, 201, 76, 61, 74, 241, 127,
    88, 218, 238, 8, 155, 161, 253, 68, 227, 219, 217, 138, 0, 0, 0, 0,
];

/// The address of the system program.
pub open spec fn spec_system_program_id() -> Address {
    Address { bytes: SYSTEM_PROGRAM_ID }
}

/// The address of the token program.
pub open spec fn spec_token_program_id() -> Address {
    Address { bytes: TOKEN_PROGRAM_ID }
}

/// The address of the rent sysvar.
pub open spec fn spec_rent_sysvar_id() -> Address {
    Address { bytes: RENT_SYSVAR_ID }
}

/// The address of the system program.
#[verifier::when_used_as_spec(spec_system_program_id)]
pub fn system_program_id() -> (a: Address)
    ensures
        a == spec_system_program_id(),
{
    Address { bytes: SYSTEM_PROGRAM_ID }
}

/// The address of the token program.
#[verifier::when_used_as_spec(spec_token_program_id)]
pub fn token_program_id() -> (a: Address)
    ensures
        a == spec_token_program_id(),
{
    Address { bytes: TOKEN_PROGRAM_ID }
}

/// The address of the rent sysvar.
#[verifier::when_used_as_spec(spec_rent_sysvar_id)]
pub fn rent_sysvar_id() -> (a: Address)
    ensures
        a == spec_rent_sysvar_id(),
{
    Address { bytes: RENT_SYSVAR_ID }
}

/// What a derived address is for. Each role has its own byte label, so that
/// the seeds of one role are never the seeds of another.
#[derive(Clone, Copy, Debug, PartialEq, Eq, Structural)]
pub enum Label {
    /// The account that holds the deposited collateral and may mint claims.
    MintAuthority,
    /// The escrow of a buy order, which holds native collateral.
    SolEscrow,
    /// The escrow of a sell order, which holds claim tokens.
    TokenEscrow,
}

impl Label {
    /// The label's bytes: `mint_authority`, `sol_escrow` or `token_escrow` in ASCII.
    pub open spec fn spec_bytes(self) -> Seq<u8> {
        match self {
            Label::MintAuthority => seq![
                109u8, 105u8, 110u8, 116u8, 95u8, 97u8, 117u8, 116u8, 104u8, 111u8, 114u8, 105u8,
                116u8, 121u8,
            ],
            Label::SolEscrow => seq![
                115u8, 111u8, 108u8, 95u8, 101u8, 115u8, 99u8, 114u8, 111u8, 119u8,
            ],
            Label::TokenEscrow => seq![
                116u8, 111u8, 107u8, 101u8, 110u8, 95u8, 101u8, 115u8, 99u8, 114u8, 111u8, 119u8,
            ],
        }
    }

    /// The label's bytes.
    pub fn bytes(self) -> (v: Vec<u8>)
        ensures
            v@ == self.spec_bytes(),
    {
        let v: Vec<u8> = match self {
            Label::MintAuthority => vec![
                109u8, 105u8, 110u8, 116u8, 95u8, 97u8, 117u8, 116u8, 104u8, 111u8, 114u8, 105u8,
                116u8, 121u8,
            ],
            Label::SolEscrow => vec![
                115u8, 111u8, 108u8, 95u8, 101u8, 115u8, 99u8, 114u8, 111u8, 119u8,
            ],
            Label::TokenEscrow => vec![
                116u8, 111u8, 107u8, 101u8, 110u8, 95u8, 101u8, 115u8, 99u8, 114u8, 111u8, 119u8,
            ],
        };
        v
    }
}

/// The three things a sub-address is derived from, besides the program:
/// a label, the address of the entity it belongs to (an order, for an
/// escrow; none for the mint authority) and a nonce.
#[derive(Clone, Copy, Debug, PartialEq, Eq)]
pub struct Seeds {
    pub label: Label,
    pub owner: Option<Address>,
    pub nonce: u8,
}

impl Seeds {
    /// The seeds without the nonce: the label, then the owner if there is one.
    pub open spec fn stem(label: Label, owner: Option<Address>) -> Seq<Seq<u8>> {
        match owner {
            Some(o) => seq![label.spec_bytes(), o@],
            None => seq![label.spec_bytes()],
        }
    }

    /// The byte strings that are hashed, in order: the stem, then the nonce
    /// as a single byte.
    pub open spec fn parts(self) -> Seq<Seq<u8>> {
        Seeds::stem(self.label, self.owner).push(seq![self.nonce])
    }

    /// The address these seeds derive under `program_id`, if they derive one.
    pub open spec fn address(self, program_id: Address) -> Option<Seq<u8>> {
        program_address(self.parts(), program_id@)
    }
}

/// The address that the host derives from `seeds` for the program
/// `program_id`, or `None` where it derives none (the hash of the seeds
/// names a point with a private key, or a seed is out of bounds).
pub uninterp spec fn program_address(seeds: Seq<Seq<u8>>, program_id: Seq<u8>) -> Option<Seq<u8>>;

/// The byte strings that a vector of byte vectors holds.
pub open spec fn byte_strings(v: Seq<Vec<u8>>) -> Seq<Seq<u8>> {
    Seq::new(v.len(), |i: int| v[i]@)
}

/// The bytes of an address that may be missing.
pub open spec fn bytes_of(a: Option<Address>) -> Option<Seq<u8>> {
    match a {
        Some(a) => Some(a@),
        None => None,
    }
}

/// `Pubkey::create_program_address`: the result is a function of the seeds
/// and the program id alone, named `program_address`; an error of any kind
/// is `None`.
#[verifier::external_body]
fn create_program_address(seeds: &Vec<Vec<u8>>, program_id: &Address) -> (derived: Option<Address>)
    ensures
        bytes_of(derived) == program_address(byte_strings(seeds@), program_id@),
{
    let parts: Vec<&[u8]> = seeds.iter().map(|s| s.as_slice()).collect();
    match Pubkey::create_program_address(&parts, &Pubkey::new_from_array(program_id.bytes)) {
        Ok(key) => Some(Address { bytes: key.to_bytes() }),
        Err(_) => None,
    }
}

/// The seeds without the nonce, as byte vectors.
fn stem_parts(label: Label, owner: Option<Address>) -> (v: Vec<Vec<u8>>)
    ensures
        byte_strings(v@) == Seeds::stem(label, owner),
{
    let mut v: Vec<Vec<u8>> = Vec::new();
    v.push(label.bytes());
    match owner {
        Some(o) => {
            v.push(o.to_vec());
        },
        None => {},
    }
    v
}

/// The byte strings of `seeds`, in the order in which they are hashed.
pub fn to_parts(seeds: &Seeds) -> (parts: Vec<Vec<u8>>)
    ensures
        byte_strings(parts@) == seeds.parts(),
{
    let mut parts = stem_parts(seeds.label, seeds.owner);
    let mut last: Vec<u8> = Vec::new();
    last.push(seeds.nonce);
    parts.push(last);
    parts
}

/// Derives the sub-address of `seeds` under `program_id`.
pub fn derive(seeds: &Seeds, program_id: &Address) -> (derived: Option<Address>)
    ensures
        bytes_of(derived) == seeds.address(*program_id),
{
    let parts = to_parts(seeds);
    create_program_address(&parts, program_id)
}

/// What `validate` decides, once the derived address is known.
pub open spec fn matches_derived(candidate: Address, derived: Option<Seq<u8>>) -> bool {
    derived == Some(candidate@)
}

/// Compares a candidate with an address that was derived.
pub fn is_derived(candidate: &Address, derived: Option<Address>) -> (ok: bool)
    ensures
        ok == matches_derived(*candidate, bytes_of(derived)),
{
    match derived {
        Some(a) => {
            proof {
                lemma_address_ext(a, *candidate);
            }
            a == *candidate
        },
        None => false,
    }
}

/// Recomputes the sub-address of `seeds` and compares it with `candidate`:
/// `true` exactly when the seeds derive an address and it is `candidate`.
pub fn validate(candidate: &Address, seeds: &Seeds, program_id: &Address) -> (ok: bool)
    ensures
        ok == matches_derived(*candidate, seeds.address(*program_id)),
{
    is_derived(candidate, derive(seeds, program_id))
}

/// Whether `nonce` is the greatest of the nonces 255 down to 1 with which
/// `label` and `owner` derive an address under `program_id`.
pub open spec fn found_nonce(
    label: Label,
    owner: Option<Address>,
    program_id: Address,
    nonce: u8,
) -> bool {
    &&& nonce >= 1
    &&& (Seeds { label, owner, nonce }).address(program_id) is Some
    &&& forall|n: u8|
        nonce < n ==> (#[trigger] Seeds { label, owner, nonce: n }.address(program_id)) is None
}

/// The address with the given bytes.
pub open spec fn address_of(bytes: Seq<u8>) -> Address {
    choose|a: Address| a@ == bytes
}

/// The sub-address of `label` and `owner` under `program_id` with the
/// greatest nonce that derives one, and that nonce; `None` where no nonce
/// from 255 down to 1 derives an address.
pub open spec fn spec_find(label: Label, owner: Option<Address>, program_id: Address) -> Option<
    (Address, u8),
> {
    if exists|nonce: u8| found_nonce(label, owner, program_id, nonce) {
        let nonce = choose|nonce: u8| found_nonce(label, owner, program_id, nonce);
        Some((address_of((Seeds { label, owner, nonce }).address(program_id)->0), nonce))
    } else {
        None
    }
}

/// Searches the nonces from 255 down to 1 for the first that derives an
/// address, and returns that address with the nonce. The nonce 0 is never
/// tried, as the host never tries it in its own search.
pub fn find(label: Label, owner: Option<Address>, program_id: &Address) -> (found: Option<
    (Address, u8),
>)
    ensures
        found == spec_find(label, owner, *program_id),
{
    let mut nonce: u8 = 255;
    while nonce >= 1
        invariant
            forall|n: u8|
                nonce < n ==> (#[trigger] Seeds { label, owner, nonce: n }.address(*program_id))
                    is None,
        decreases nonce,
    {
        match derive(&Seeds { label, owner, nonce }, program_id) {
            Some(a) => {
                proof {
                    // No other nonce is the greatest that derives an address.
                    assert(found_nonce(label, owner, *program_id, nonce));
                    let chosen = choose|n: u8| found_nonce(label, owner, *program_id, n);
                    assert(chosen == nonce);
                    lemma_address_ext(address_of(a@), a);
                }
                return Some((a, nonce));
            },
            None => {},
        }
        nonce -= 1;
    }
    None
}

/// The seeds of the mint authority: its label and a nonce, no owner.
pub open spec fn spec_mint_authority_seeds(nonce: u8) -> Seeds {
    Seeds { label: Label::MintAuthority, owner: None, nonce }
}

/// The seeds of the mint authority: its label and a nonce, no owner.
#[verifier::when_used_as_spec(spec_mint_authority_seeds)]
pub fn mint_authority_seeds(nonce: u8) -> (seeds: Seeds)
    ensures
        seeds == spec_mint_authority_seeds(nonce),
{
    Seeds { label: Label::MintAuthority, owner: None, nonce }
}

/// The seeds of the escrow of the order at `order`.
pub open spec fn spec_escrow_seeds(label: Label, order: Address, nonce: u8) -> Seeds {
    Seeds { label, owner: Some(order), nonce }
}

/// The seeds of the escrow of the order at `order`: the label of a
/// collateral escrow or of a claim escrow, the order's address and a nonce.
#[verifier::when_used_as_spec(spec_escrow_seeds)]
pub fn escrow_seeds(label: Label, order: Address, nonce: u8) -> (seeds: Seeds)
    ensures
        seeds == spec_escrow_seeds(label, order, nonce),
{
    Seeds { label, owner: Some(order), nonce }
}

} // verus!
