//! Releasing the collateral held for a loan.

use vstd::prelude::*;
use crate::error::CreditError;
use crate::identity::Identity;
use crate::loan::{Escrow, Loan, LoanList};
use crate::user::UserProfile;
use crate::vault::{Signatory, Transfer};

verus! {

/// The records and accounts that a release reads.
#[derive(Clone, Debug, PartialEq, Eq)]
pub struct Withdrawl {
    /// The borrower.
    pub user: Identity,
    pub user_profile: UserProfile,
    pub loan_list: LoanList,
    /// The address of the escrow, in whose name the vault is held.
    pub escrow_key: Identity,
    pub escrow: Escrow,
    /// The borrower's own account of the asset.
    pub user_token_account: Identity,
    /// The escrow's account of the asset.
    pub vault: Identity,
    pub loan: Loan,
}

/// Why a release is refused, if it is: a borrower who has defaulted gets
/// none, whatever else holds; nor does one without a loan on record.
pub open spec fn release_refusal(profile: UserProfile, loans: Seq<Identity>) -> Option<CreditError> {
    if profile.total_defaults != 0 {
        Some(CreditError::UserHasDefaults)
    } else if loans.len() == 0 {
        Some(CreditError::NoActiveLoans)
    } else {
        None
    }
}

impl Withdrawl {
    /// The movement of funds that a release calls for: the loan's whole
    /// collateral, from the vault to the borrower's account, signed by the
    /// borrower's escrow.
    pub open spec fn release(self) -> Transfer {
        Transfer {
            from: self.vault,
            to: self.user_token_account,
            authority: self.escrow_key,
            amount: self.loan.collateral_amount,
            signed_by: Signatory::Escrow { borrower: self.user, bump: self.escrow.bump },
        }
    }

    /// Whether `post` and `result` are what a release makes of the records
    /// in `self`: no record changes, and the result is the movement of funds
    /// out of the vault or the reason why there is none.
    pub open spec fn release_outcome(self, post: Withdrawl, result: Result<Transfer, CreditError>) -> bool {
        &&& post == self
        &&& match release_refusal(self.user_profile, self.loan_list.loan_list@) {
            Some(e) => result == Err::<Transfer, CreditError>(e),
            None => result == Ok::<Transfer, CreditError>(self.release()),
        }
    }

    /// Decides whether the collateral held for the loan is released to the
    /// borrower, and returns the movement of funds if it is. No record
    /// changes either way: the loan keeps its status and its collateral
    /// amount.
    pub fn issue_loan_amount(&mut self) -> (result: Result<Transfer, CreditError>)
        ensures
            old(self).release_outcome(*final(self), result),
    {
        if self.user_profile.total_defaults != 0 {
            return Err(CreditError::UserHasDefaults);
        }
        if self.loan_list.loan_list.len() == 0 {
            return Err(CreditError::NoActiveLoans);
        }
        Ok(
            Transfer {
                from: self.vault,
                to: self.user_token_account,
                authority: self.escrow_key,
                amount: self.loan.collateral_amount,
                signed_by: Signatory::Escrow { borrower: self.user, bump: self.escrow.bump },
            },
        )
    }
}

} // verus!
