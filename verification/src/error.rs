//! Error taxonomy of the bond ledger.
//!
//! Every operation either completes or aborts with one of these errors; the
//! host discards all writes of an aborted operation, so an error always
//! leaves the ledger unchanged.
use vstd::prelude::*;

verus! {

/// All the ways an operation on the bond ledger can fail.
#[derive(Clone, Copy, Debug, PartialEq, Eq, Structural)]
pub enum TestudoBondsError {
    /// Error deserializing an account record.
    DeserializationError,
    /// Error serializing an account record.
    SerializationError,
    /// The account is not owned by the expected program.
    InvalidProgramOwner,
    /// The supplied address does not match the canonical derived address.
    InvalidPda,
    /// An account expected to be empty holds data.
    ExpectedEmptyAccount,
    /// An account expected to hold data is empty.
    ExpectedNonEmptyAccount,
    /// A required signature is missing.
    ExpectedSignerAccount,
    /// The account is not writable.
    ExpectedWritableAccount,
    /// Two addresses that had to match did not.
    AccountMismatch,
    /// The account's key byte is not the expected one.
    InvalidAccountKey,
    /// A checked arithmetic step overflowed.
    NumericalOverflow,
    /// The deposit source holds too few tokens.
    InsufficientTokens,
    /// The claimed index is not among the owner's active bonds.
    InvalidBondIndex,
    /// A token account failed validation.
    InvalidTokenAccounts,
    /// The accrued reward is zero.
    NoRewardsToClaim,
    /// The rewards pool holds less than the computed reward.
    InsufficientRewards,
    /// The bond is not active.
    BondNotActive,
    /// The owner already holds the maximum number of bonds.
    MaxBondsReached,
    /// Bond operations are paused by the authority.
    BondOperationsPaused,
    /// The bond is active where an inactive one was expected.
    BondIsActive,
}

impl TestudoBondsError {
    /// The stable small-integer code of each error, as persisted hosts
    /// report it.
    pub fn code(&self) -> (c: u32)
        ensures
            c == self.code_spec(),
    {
        match self {
            TestudoBondsError::DeserializationError => 0,
            TestudoBondsError::SerializationError => 1,
            TestudoBondsError::InvalidProgramOwner => 2,
            TestudoBondsError::InvalidPda => 3,
            TestudoBondsError::ExpectedEmptyAccount => 4,
            TestudoBondsError::ExpectedNonEmptyAccount => 5,
            TestudoBondsError::ExpectedSignerAccount => 6,
            TestudoBondsError::ExpectedWritableAccount => 7,
            TestudoBondsError::AccountMismatch => 8,
            TestudoBondsError::InvalidAccountKey => 9,
            TestudoBondsError::NumericalOverflow => 10,
            TestudoBondsError::InsufficientTokens => 11,
            TestudoBondsError::InvalidBondIndex => 12,
            TestudoBondsError::InvalidTokenAccounts => 13,
            TestudoBondsError::NoRewardsToClaim => 14,
            TestudoBondsError::InsufficientRewards => 15,
            TestudoBondsError::BondNotActive => 16,
            TestudoBondsError::MaxBondsReached => 17,
            TestudoBondsError::BondOperationsPaused => 18,
            TestudoBondsError::BondIsActive => 19,
        }
    }

    /// Specification of [`Self::code`].
    pub open spec fn code_spec(&self) -> u32 {
        match self {
            TestudoBondsError::DeserializationError => 0,
            TestudoBondsError::SerializationError => 1,
            TestudoBondsError::InvalidProgramOwner => 2,
            TestudoBondsError::InvalidPda => 3,
            TestudoBondsError::ExpectedEmptyAccount => 4,
            TestudoBondsError::ExpectedNonEmptyAccount => 5,
            TestudoBondsError::ExpectedSignerAccount => 6,
            TestudoBondsError::ExpectedWritableAccount => 7,
            TestudoBondsError::AccountMismatch => 8,
            TestudoBondsError::InvalidAccountKey => 9,
            TestudoBondsError::NumericalOverflow => 10,
            TestudoBondsError::InsufficientTokens => 11,
            TestudoBondsError::InvalidBondIndex => 12,
            TestudoBondsError::InvalidTokenAccounts => 13,
            TestudoBondsError::NoRewardsToClaim => 14,
            TestudoBondsError::InsufficientRewards => 15,
            TestudoBondsError::BondNotActive => 16,
            TestudoBondsError::MaxBondsReached => 17,
            TestudoBondsError::BondOperationsPaused => 18,
            TestudoBondsError::BondIsActive => 19,
        }
    }
}

} // verus!
