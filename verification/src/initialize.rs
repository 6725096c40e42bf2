//! Opening a loan.

use vstd::prelude::*;
use crate::error::CreditError;
use crate::identity::Identity;
use crate::loan::{recorded, CollateralType, Escrow, Loan, LoanList, LoanStatus};
use crate::user::UserProfile;

verus! {

/// The records that opening a loan reads and writes, all of them the
/// borrower's own.
#[derive(Clone, Debug, PartialEq, Eq)]
pub struct Initialize {
    /// The borrower, who signs the call.
    pub user: Identity,
    pub escrow: Escrow,
    /// The address of the loan record.
    pub loan_key: Identity,
    pub loan: Loan,
    pub user_profile: UserProfile,
    pub loan_list: LoanList,
}

/// The nonces with which the addresses of the borrower's escrow and loan
/// list were derived, as the ledger found them.
#[derive(Clone, Copy, Debug, PartialEq, Eq)]
pub struct InitializeBumps {
    pub escrow: u8,
    pub loan_list: u8,
}

/// Whether `duration`, in seconds, is one of the terms on offer.
pub open spec fn is_offered_duration(duration: u32) -> bool {
    duration == 60 || duration == 300 || duration == 1200 || duration == 3600 || duration == 7200
}

/// The number of loans that a credit record counts before a new one is
/// opened: none for a record that has not been opened yet.
pub open spec fn loans_taken_so_far(profile: UserProfile) -> u32 {
    if profile.user.is_empty() {
        0
    } else {
        profile.total_loans_taken
    }
}

/// Why a loan cannot be opened at time `clock`, if it cannot. The checks are
/// made in this order, and the first that fails decides.
pub open spec fn initialize_refusal(
    profile: UserProfile,
    clock: i64,
    principal: u64,
    collateral_amount: u64,
    due_ts: u32,
) -> Option<CreditError> {
    if !is_offered_duration(due_ts) {
        Some(CreditError::InvalidTimestamp)
    } else if clock + due_ts > i64::MAX {
        Some(CreditError::InvalidTimestamp)
    } else if principal == 0 || collateral_amount == 0 {
        Some(CreditError::InvalidAmount)
    } else if loans_taken_so_far(profile) == u32::MAX {
        Some(CreditError::AmountOverflow)
    } else {
        None
    }
}

/// The loan record that a successful opening writes: requested, with no
/// lender and no collateral type yet, due `due_ts` seconds after `clock`.
pub open spec fn opened_loan(
    borrower: Identity,
    clock: i64,
    principal: u64,
    interest_bps: u16,
    collateral_mint: Identity,
    collateral_amount: u64,
    due_ts: u32,
    existing_user: bool,
) -> Loan {
    Loan {
        borrower,
        lender: Identity::empty(),
        principal,
        interest_bps,
        collateral_mint,
        collateral_amount,
        start_ts: clock,
        due_ts: (clock + due_ts) as i64,
        status: LoanStatus::Requested,
        collateral_type: CollateralType::YetToSet,
        existing_user,
    }
}

/// The credit record after a loan was opened at time `clock` by `borrower`:
/// a record not yet opened starts from zero under the borrower's name, and
/// in either case one more loan is counted and the time noted.
pub open spec fn profile_after_opening(profile: UserProfile, borrower: Identity, clock: i64) -> UserProfile {
    if profile.user.is_empty() {
        UserProfile {
            user: borrower,
            total_loans_taken: 1,
            total_loans_repaid: 0,
            total_defaults: 0,
            reputation_score: 0,
            last_loan_ts: clock,
        }
    } else {
        UserProfile {
            total_loans_taken: (profile.total_loans_taken + 1) as u32,
            last_loan_ts: clock,
            ..profile
        }
    }
}

impl Initialize {
    /// Whether `post` holds the loan, the credit record and the list of
    /// loans that opening a loan at time `clock` makes of those in `self`,
    /// for the same borrower and loan address. The two nonces are left open.
    pub open spec fn opens_into(
        self,
        post: Initialize,
        clock: i64,
        principal: u64,
        interest_bps: u16,
        collateral_mint: Identity,
        collateral_amount: u64,
        due_ts: u32,
        existing_user: bool,
    ) -> bool {
        &&& post.user == self.user
        &&& post.loan_key == self.loan_key
        &&& post.loan == opened_loan(
            self.user,
            clock,
            principal,
            interest_bps,
            collateral_mint,
            collateral_amount,
            due_ts,
            existing_user,
        )
        &&& post.user_profile == profile_after_opening(self.user_profile, self.user, clock)
        &&& post.loan_list.loan_list@ == recorded(self.loan_list.loan_list@, self.loan_key)
    }

    /// Whether `post` and `result` are what opening a loan at time `clock`
    /// makes of the records in `self`: either the opening is refused and
    /// nothing changes, or the loan is written, the credit record counts it,
    /// the list holds its address, and the nonces stay as they were.
    pub open spec fn initialize_outcome(
        self,
        post: Initialize,
        result: Result<(), CreditError>,
        clock: i64,
        principal: u64,
        interest_bps: u16,
        collateral_mint: Identity,
        collateral_amount: u64,
        due_ts: u32,
        existing_user: bool,
    ) -> bool {
        match initialize_refusal(self.user_profile, clock, principal, collateral_amount, due_ts) {
            Some(e) => result == Err::<(), CreditError>(e) && post == self,
            None => {
                &&& result is Ok
                &&& self.opens_into(
                    post,
                    clock,
                    principal,
                    interest_bps,
                    collateral_mint,
                    collateral_amount,
                    due_ts,
                    existing_user,
                )
                &&& post.escrow == self.escrow
                &&& post.loan_list.loan_list_bump == self.loan_list.loan_list_bump
            },
        }
    }

    /// Opens a loan for the borrower at time `clock`, for one of the terms
    /// on offer (`due_ts`, in seconds).
    ///
    /// On success the loan record is overwritten with the requested loan,
    /// which falls due `due_ts` seconds after `clock`; the credit record
    /// counts one more loan; and the loan's address is on the borrower's
    /// list. When the opening is refused, no record changes.
    pub fn initialize_loan(
        &mut self,
        clock: i64,
        principal: u64,
        interest_bps: u16,
        collateral_mint: Identity,
        collateral_amount: u64,
        due_ts: u32,
        existing_user: bool,
    ) -> (result: Result<(), CreditError>)
        ensures
            old(self).initialize_outcome(
                *final(self),
                result,
                clock,
                principal,
                interest_bps,
                collateral_mint,
                collateral_amount,
                due_ts,
                existing_user,
            ),
    {
        let due_in_seconds: i64 = match due_ts {
            60 | 300 | 1200 | 3600 | 7200 => due_ts as i64,
            _ => return Err(CreditError::InvalidTimestamp),
        };
        let due: i64 = match clock.checked_add(due_in_seconds) {
            Some(due) => due,
            None => return Err(CreditError::InvalidTimestamp),
        };
        if principal == 0 {
            return Err(CreditError::InvalidAmount);
        }
        if collateral_amount == 0 {
            return Err(CreditError::InvalidAmount);
        }
        // Every term on offer is positive, so the due time lies after the
        // start; the order is tested all the same.
        if clock >= due {
            return Err(CreditError::InvalidTimestamp);
        }
        let first_loan: bool = self.user_profile.user.is_unset();
        let taken_so_far: u32 = if first_loan { 0 } else { self.user_profile.total_loans_taken };
        let taken: u32 = match taken_so_far.checked_add(1) {
            Some(taken) => taken,
            None => return Err(CreditError::AmountOverflow),
        };

        self.loan = Loan {
            borrower: self.user,
            lender: Identity::default(),
            principal,
            interest_bps,
            collateral_mint,
            collateral_amount,
            start_ts: clock,
            due_ts: due,
            status: LoanStatus::Requested,
            collateral_type: CollateralType::YetToSet,
            existing_user,
        };
        if first_loan {
            self.user_profile.user = self.user;
            self.user_profile.total_loans_repaid = 0;
            self.user_profile.total_defaults = 0;
            self.user_profile.reputation_score = 0;
        }
        self.user_profile.total_loans_taken = taken;
        self.user_profile.last_loan_ts = clock;
        self.loan_list.record(self.loan_key);
        Ok(())
    }
}

} // verus!
