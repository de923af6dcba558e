//! Why an instruction is refused.

use vstd::prelude::*;

verus! {

/// The reasons for which a handler refuses an instruction. A refusal leaves
/// nothing to carry out: the host discards the instruction as a whole.
#[derive(Clone, Copy, Debug, PartialEq, Eq, Structural)]
pub enum SearchMarketError {
    /// The account list is shorter than the instruction's layout.
    NotEnoughAccountKeys,
    /// The record to create is not empty.
    AlreadyInitialized,
    /// A signature is missing, or the signer is not the expected authority.
    Unauthorized,
    /// An escrow or mint-authority address is not the one its seeds derive.
    InvalidDerivedAddress,
    /// Two records that must refer to each other do not.
    CrossReference,
    /// The market's deadline has passed.
    Expired,
    /// The market has no decision yet. No handler raises it: an undecided
    /// market redeems claims in pairs instead of refusing.
    NotYetDecided,
    /// The market has a decision already, and deciding is set to happen once.
    AlreadyDecided,
    /// The buy order's limit is below the sell order's.
    PriceMismatch,
    /// An argument is not usable: a URL that does not parse, a zero amount.
    MalformedInput,
    /// A record or an escrow is owned by another program than expected.
    IllegalOwner,
    /// A well-known program or sysvar account is not the one supplied.
    IncorrectProgramId,
    /// An account does not hold the kind of record that its position asks for.
    InvalidAccountData,
    /// An amount of collateral does not fit in 64 bits.
    Overflow,
}

} // verus!
