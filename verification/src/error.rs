//! The ways in which an operation of the protocol is refused.

use vstd::prelude::*;

verus! {

/// Why an operation was refused. A refused operation changes nothing.
#[derive(Clone, Copy, Debug, PartialEq, Eq, Structural)]
pub enum CreditError {
    /// An amount that must be positive was zero.
    InvalidAmount,
    /// The collateral type is unset, or differs from the one the loan is
    /// pinned to.
    InvalidCollateralType,
    /// The term is not one of the offered durations, or the due time cannot
    /// be represented, or does not lie after the start.
    InvalidTimestamp,
    /// The asset offered is not the one the loan was opened with.
    InvalidCollateralMint,
    /// A counter or an amount would leave its range.
    AmountOverflow,
    /// The borrower has defaulted before.
    UserHasDefaults,
    /// The borrower has no loan on record.
    NoActiveLoans,
}

impl CreditError {
    /// The text shown to a caller for this error.
    pub open spec fn message_text(self) -> Seq<char> {
        match self {
            CreditError::InvalidAmount => "Invalid amount: must be greater than zero"@,
            CreditError::InvalidCollateralType => "Invalid collateral type"@,
            CreditError::InvalidTimestamp => "Invalid timestamp: start time must be before due time"@,
            CreditError::InvalidCollateralMint => "Invalid collateral mint: does not match loan collateral mint"@,
            CreditError::AmountOverflow => "Overflow error: amount exceeds maximum value"@,
            CreditError::UserHasDefaults => "User has defaults: disbursement refused"@,
            CreditError::NoActiveLoans => "No active loans for this user"@,
        }
    }

    /// Returns the text shown to a caller for this error.
    pub fn message(&self) -> (text: &'static str)
        ensures
            text@ == self.message_text(),
    {
        match self {
            CreditError::InvalidAmount => "Invalid amount: must be greater than zero",
            CreditError::InvalidCollateralType => "Invalid collateral type",
            CreditError::InvalidTimestamp => "Invalid timestamp: start time must be before due time",
            CreditError::InvalidCollateralMint => "Invalid collateral mint: does not match loan collateral mint",
            CreditError::AmountOverflow => "Overflow error: amount exceeds maximum value",
            CreditError::UserHasDefaults => "User has defaults: disbursement refused",
            CreditError::NoActiveLoans => "No active loans for this user",
        }
    }
}

} // verus!
