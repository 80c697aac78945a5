//! The named failures of the market's rules.

use vstd::prelude::*;

verus! {

/// Why an instruction was rejected by the market's own rules.
#[derive(Clone, Copy, Debug, PartialEq, Eq, Structural)]
pub enum AkashicErrors {
    /// The market record already exists.
    VowAlreadyInitialised,
    /// The call came on the wrong side of the deadline.
    DeadlinePassed,
    /// The market is not resolved: a claim found a success that is not
    /// flagged resolved, or the pending outcome was submitted.
    VowNotResolved,
    /// An outcome was submitted for a market that already has one.
    VowAlreadyResolved,
    /// The amount is zero.
    InvalidAmount,
    /// A short-token balance, or the vault's value at a claim, is too small.
    InsufficientShortTokens,
    /// The recorded outcome is a failure or still pending.
    InvalidClaim,
    /// The payout does not fit in 64 bits.
    ArithmeticOverflow,
}

/// The code of the first variant; the others follow in declaration order.
pub const ERROR_CODE_OFFSET: u32 = 6000;

impl AkashicErrors {
    /// Position of the variant in the declaration, from zero.
    pub open spec fn ordinal(self) -> nat {
        match self {
            AkashicErrors::VowAlreadyInitialised => 0,
            AkashicErrors::DeadlinePassed => 1,
            AkashicErrors::VowNotResolved => 2,
            AkashicErrors::VowAlreadyResolved => 3,
            AkashicErrors::InvalidAmount => 4,
            AkashicErrors::InsufficientShortTokens => 5,
            AkashicErrors::InvalidClaim => 6,
            AkashicErrors::ArithmeticOverflow => 7,
        }
    }

    /// The text shown to a caller for each failure.
    pub open spec fn spec_message(self) -> Seq<char> {
        match self {
            AkashicErrors::VowAlreadyInitialised => "Vow is already initialised"@,
            AkashicErrors::DeadlinePassed => "Deadline has passed"@,
            AkashicErrors::VowNotResolved => "Vow is not yet resolved"@,
            AkashicErrors::VowAlreadyResolved => "Vow is already resolved"@,
            AkashicErrors::InvalidAmount => "Invalid amount"@,
            AkashicErrors::InsufficientShortTokens => "Insufficient short tokens in vault"@,
            AkashicErrors::InvalidClaim => "Cannot claim - wrong outcome"@,
            AkashicErrors::ArithmeticOverflow => "Arithmetic overflow"@,
        }
    }

    /// The numeric code under which the failure is reported.
    pub fn code(self) -> (c: u32)
        ensures
            c == ERROR_CODE_OFFSET + self.ordinal(),
    {
        match self {
            AkashicErrors::VowAlreadyInitialised => ERROR_CODE_OFFSET,
            AkashicErrors::DeadlinePassed => ERROR_CODE_OFFSET + 1,
            AkashicErrors::VowNotResolved => ERROR_CODE_OFFSET + 2,
            AkashicErrors::VowAlreadyResolved => ERROR_CODE_OFFSET + 3,
            AkashicErrors::InvalidAmount => ERROR_CODE_OFFSET + 4,
            AkashicErrors::InsufficientShortTokens => ERROR_CODE_OFFSET + 5,
            AkashicErrors::InvalidClaim => ERROR_CODE_OFFSET + 6,
            AkashicErrors::ArithmeticOverflow => ERROR_CODE_OFFSET + 7,
        }
    }

    /// The failure's message as an owned string.
    pub fn message(self) -> (s: String)
        ensures
            s@ == self.spec_message(),
    {
        match self {
            AkashicErrors::VowAlreadyInitialised => "Vow is already initialised".to_owned(),
            AkashicErrors::DeadlinePassed => "Deadline has passed".to_owned(),
            AkashicErrors::VowNotResolved => "Vow is not yet resolved".to_owned(),
            AkashicErrors::VowAlreadyResolved => "Vow is already resolved".to_owned(),
            AkashicErrors::InvalidAmount => "Invalid amount".to_owned(),
            AkashicErrors::InsufficientShortTokens => "Insufficient short tokens in vault".to_owned(),
            AkashicErrors::InvalidClaim => "Cannot claim - wrong outcome".to_owned(),
            AkashicErrors::ArithmeticOverflow => "Arithmetic overflow".to_owned(),
        }
    }
}

} // verus!
