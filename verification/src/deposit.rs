//! Depositing collateral.

use vstd::prelude::*;
use crate::error::CreditError;
use crate::identity::Identity;
use crate::loan::{CollateralType, Escrow, Loan};
use crate::vault::{Signatory, Transfer};

verus! {

/// The records and accounts that a deposit reads and writes.
#[derive(Clone, Copy, Debug, PartialEq, Eq)]
pub struct Deposit {
    /// The depositor, who signs the call.
    pub user: Identity,
    /// The asset that is being deposited.
    pub mint: Identity,
    pub escrow: Escrow,
    /// The depositor's own account of that asset.
    pub user_token_account: Identity,
    /// The escrow's account of that asset.
    pub vault: Identity,
    pub loan: Loan,
}

/// The nonce with which the address of the depositor's escrow was derived,
/// as the ledger found it.
#[derive(Clone, Copy, Debug, PartialEq, Eq)]
pub struct DepositBumps {
    pub escrow: u8,
}

/// Why a deposit of `amount` units of `mint`, declared as `collateral_type`,
/// is refused for `loan`, if it is. The checks are made in this order, and
/// the first that fails decides.
pub open spec fn deposit_refusal(
    loan: Loan,
    mint: Identity,
    amount: u64,
    collateral_type: CollateralType,
) -> Option<CreditError> {
    if amount == 0 {
        Some(CreditError::InvalidAmount)
    } else if collateral_type == CollateralType::YetToSet {
        Some(CreditError::InvalidCollateralType)
    } else if loan.collateral_mint != mint {
        Some(CreditError::InvalidCollateralMint)
    } else if loan.collateral_type != CollateralType::YetToSet && loan.collateral_type
        != collateral_type {
        Some(CreditError::InvalidCollateralType)
    } else if loan.collateral_amount + amount > u64::MAX {
        Some(CreditError::AmountOverflow)
    } else {
        None
    }
}

/// The loan after an accepted deposit: `amount` more collateral, of the
/// declared type.
pub open spec fn loan_after_deposit(loan: Loan, amount: u64, collateral_type: CollateralType) -> Loan {
    Loan {
        collateral_amount: (loan.collateral_amount + amount) as u64,
        collateral_type,
        ..loan
    }
}

impl Deposit {
    /// The movement of funds that goes with an accepted deposit: from the
    /// depositor's account into the vault, signed by the depositor.
    pub open spec fn funding(self, amount: u64) -> Transfer {
        Transfer {
            from: self.user_token_account,
            to: self.vault,
            authority: self.user,
            amount,
            signed_by: Signatory::Owner,
        }
    }

    /// Whether `post` and `result` are what a deposit makes of the records
    /// in `self`: either it is refused and nothing changes, or the loan holds
    /// `amount` more collateral of the declared type and the result is the
    /// movement of funds into the vault.
    pub open spec fn deposit_outcome(
        self,
        post: Deposit,
        result: Result<Transfer, CreditError>,
        amount: u64,
        collateral_type: CollateralType,
    ) -> bool {
        match deposit_refusal(self.loan, self.mint, amount, collateral_type) {
            Some(e) => result == Err::<Transfer, CreditError>(e) && post == self,
            None => {
                &&& result == Ok::<Transfer, CreditError>(self.funding(amount))
                &&& post == (Deposit {
                    loan: loan_after_deposit(self.loan, amount, collateral_type),
                    ..self
                })
            },
        }
    }

    /// Adds `amount` units of collateral of the given type to the loan.
    ///
    /// An accepted deposit raises the loan's collateral by exactly `amount`,
    /// pins the loan to `collateral_type`, and returns the movement of funds
    /// that belongs to it; the two take effect together or not at all. When
    /// the deposit is refused, no record changes.
    pub fn deposit(&mut self, amount: u64, collateral_type: CollateralType) -> (result: Result<
        Transfer,
        CreditError,
    >)
        ensures
            old(self).deposit_outcome(*final(self), result, amount, collateral_type),
    {
        if amount == 0 {
            return Err(CreditError::InvalidAmount);
        }
        if collateral_type == CollateralType::YetToSet {
            return Err(CreditError::InvalidCollateralType);
        }
        if self.loan.collateral_mint != self.mint {
            return Err(CreditError::InvalidCollateralMint);
        }
        if !(self.loan.collateral_type == CollateralType::YetToSet || self.loan.collateral_type
            == collateral_type) {
            return Err(CreditError::InvalidCollateralType);
        }
        let total: u64 = match self.loan.collateral_amount.checked_add(amount) {
            Some(total) => total,
            None => return Err(CreditError::AmountOverflow),
        };
        self.loan.collateral_amount = total;
        self.loan.collateral_type = collateral_type;
        Ok(
            Transfer {
                from: self.user_token_account,
                to: self.vault,
                authority: self.user,
                amount,
                signed_by: Signatory::Owner,
            },
        )
    }
}

} // verus!
