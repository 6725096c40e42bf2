//! The records kept for a borrower: the loan, the escrow that holds its
//! collateral, and the list of the borrower's loans.

use vstd::prelude::*;
use crate::identity::Identity;

verus! {

/// Where a loan stands in its life.
#[derive(Clone, Copy, Debug, PartialEq, Eq, Structural)]
pub enum LoanStatus {
    Requested,
    Active,
    Repaid,
    Defaulted,
    Liquidated,
}

/// The kind of asset that secures a loan. `YetToSet` until the first deposit.
#[derive(Clone, Copy, Debug, PartialEq, Eq, Structural)]
pub enum CollateralType {
    SOL,
    USDC,
    AkshToken,
    YetToSet,
}

/// A borrower's loan.
#[derive(Clone, Copy, Debug, PartialEq, Eq)]
pub struct Loan {
    pub borrower: Identity,
    pub lender: Identity,
    pub principal: u64,
    /// Interest in basis points.
    pub interest_bps: u16,
    /// The asset that secures the loan; fixed when the loan is opened.
    pub collateral_mint: Identity,
    pub collateral_amount: u64,
    /// Seconds since the epoch at which the loan was opened.
    pub start_ts: i64,
    /// Seconds since the epoch at which the loan falls due.
    pub due_ts: i64,
    pub status: LoanStatus,
    pub collateral_type: CollateralType,
    pub existing_user: bool,
}

/// The authority over a borrower's vault.
#[derive(Clone, Copy, Debug, PartialEq, Eq)]
pub struct Escrow {
    /// The nonce with which the escrow's address was derived.
    pub bump: u8,
}

/// The addresses of a borrower's loan records, in the order in which they
/// were first recorded.
#[derive(Clone, Debug, PartialEq, Eq)]
pub struct LoanList {
    pub loan_list: Vec<Identity>,
    /// The nonce with which the list's address was derived.
    pub loan_list_bump: u8,
}

/// The entries after `key` has been recorded in a list that held `entries`:
/// unchanged where it was there already, else with `key` at the end.
pub open spec fn recorded(entries: Seq<Identity>, key: Identity) -> Seq<Identity> {
    if entries.contains(key) {
        entries
    } else {
        entries.push(key)
    }
}

impl LoanList {
    /// Tells whether `key` is on the list.
    pub fn contains(&self, key: &Identity) -> (found: bool)
        ensures
            found == self.loan_list@.contains(*key),
    {
        let mut i: usize = 0;
        while i < self.loan_list.len()
            invariant
                i <= self.loan_list@.len(),
                forall|j: int| 0 <= j < i ==> self.loan_list@[j] != *key,
            decreases self.loan_list@.len() - i,
        {
            if self.loan_list[i] == *key {
                return true;
            }
            i = i + 1;
        }
        false
    }

    /// Records `key` unless it is on the list already. A list without
    /// repetitions stays so.
    pub fn record(&mut self, key: Identity)
        ensures
            final(self).loan_list@ == recorded(old(self).loan_list@, key),
            final(self).loan_list_bump == old(self).loan_list_bump,
            old(self).loan_list@.no_duplicates() ==> final(self).loan_list@.no_duplicates(),
    {
        if !self.contains(&key) {
            self.loan_list.push(key);
        }
    }
}

} // verus!
