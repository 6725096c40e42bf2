//! The three operations that the protocol offers. Each either takes effect
//! as a whole or is refused and changes nothing.

use vstd::prelude::*;
use anchor_lang::prelude::ProgramError;
use crate::clock::unix_timestamp;
use crate::deposit::{deposit_refusal, loan_after_deposit, Deposit, DepositBumps};
use crate::error::CreditError;
use crate::identity::Identity;
use crate::initialize::{initialize_refusal, Initialize, InitializeBumps};
use crate::loan::{CollateralType, Escrow};
use crate::vault::Transfer;
use crate::withdraw::Withdrawl;

verus! {

/// Why a loan was not opened.
#[derive(Debug, PartialEq, Eq)]
pub enum InitializeError {
    /// The ledger's clock could not be read.
    ClockUnavailable(ProgramError),
    /// The clock was read, and the opening was refused.
    Refused(CreditError),
}

/// Opens a loan at time `clock` and notes the nonces of the borrower's
/// escrow and loan list.
///
/// The opening is refused exactly when `initialize_refusal` gives a reason,
/// and then nothing changes.
pub fn initialize_loan_at(
    accounts: &mut Initialize,
    bumps: InitializeBumps,
    clock: i64,
    principal: u64,
    interest_bps: u16,
    collateral_mint: Identity,
    collateral_amount: u64,
    due_ts: u32,
    existing_user: bool,
) -> (result: Result<(), CreditError>)
    ensures
        match initialize_refusal(old(accounts).user_profile, clock, principal, collateral_amount, due_ts) {
            Some(e) => result == Err::<(), CreditError>(e) && *final(accounts) == *old(accounts),
            None => {
                &&& result is Ok
                &&& old(accounts).opens_into(
                    *final(accounts),
                    clock,
                    principal,
                    interest_bps,
                    collateral_mint,
                    collateral_amount,
                    due_ts,
                    existing_user,
                )
                &&& final(accounts).escrow == (Escrow { bump: bumps.escrow })
                &&& final(accounts).loan_list.loan_list_bump == bumps.loan_list
            },
        },
{
    match accounts.initialize_loan(
        clock,
        principal,
        interest_bps,
        collateral_mint,
        collateral_amount,
        due_ts,
        existing_user,
    ) {
        Ok(()) => {
            accounts.escrow.bump = bumps.escrow;
            accounts.loan_list.loan_list_bump = bumps.loan_list;
            Ok(())
        },
        Err(e) => Err(e),
    }
}

/// Opens a loan at the time that the ledger's clock shows.
///
/// Whatever time the clock gave becomes the loan's start, and the call does
/// what `initialize_loan_at` does at that time. Where no clock can be read,
/// nothing changes.
pub fn initialize_loan(
    accounts: &mut Initialize,
    bumps: InitializeBumps,
    principal: u64,
    interest_bps: u16,
    collateral_mint: Identity,
    collateral_amount: u64,
    due_ts: u32,
    existing_user: bool,
) -> (result: Result<(), InitializeError>)
    ensures
        match result {
            Ok(()) => {
                &&& initialize_refusal(
                    old(accounts).user_profile,
                    final(accounts).loan.start_ts,
                    principal,
                    collateral_amount,
                    due_ts,
                ) is None
                &&& old(accounts).opens_into(
                    *final(accounts),
                    final(accounts).loan.start_ts,
                    principal,
                    interest_bps,
                    collateral_mint,
                    collateral_amount,
                    due_ts,
                    existing_user,
                )
                &&& final(accounts).escrow == (Escrow { bump: bumps.escrow })
                &&& final(accounts).loan_list.loan_list_bump == bumps.loan_list
            },
            Err(InitializeError::Refused(e)) => {
                &&& *final(accounts) == *old(accounts)
                &&& exists|clock: i64|
                    initialize_refusal(
                        old(accounts).user_profile,
                        clock,
                        principal,
                        collateral_amount,
                        due_ts,
                    ) == Some(e)
            },
            Err(InitializeError::ClockUnavailable(_)) => *final(accounts) == *old(accounts),
        },
{
    let clock: i64 = match unix_timestamp() {
        Ok(clock) => clock,
        Err(e) => return Err(InitializeError::ClockUnavailable(e)),
    };
    match initialize_loan_at(
        accounts,
        bumps,
        clock,
        principal,
        interest_bps,
        collateral_mint,
        collateral_amount,
        due_ts,
        existing_user,
    ) {
        Ok(()) => Ok(()),
        Err(e) => Err(InitializeError::Refused(e)),
    }
}

/// Deposits collateral and notes the nonce of the depositor's escrow.
///
/// An accepted deposit returns the movement of funds that belongs to it,
/// from the depositor into the vault. When the deposit is refused, nothing
/// changes.
pub fn deposite(
    accounts: &mut Deposit,
    bumps: DepositBumps,
    amount: u64,
    collateral_type: CollateralType,
) -> (result: Result<Transfer, CreditError>)
    ensures
        match deposit_refusal(old(accounts).loan, old(accounts).mint, amount, collateral_type) {
            Some(e) => result == Err::<Transfer, CreditError>(e) && *final(accounts) == *old(accounts),
            None => {
                &&& result == Ok::<Transfer, CreditError>(old(accounts).funding(amount))
                &&& *final(accounts) == (Deposit {
                    loan: loan_after_deposit(old(accounts).loan, amount, collateral_type),
                    escrow: Escrow { bump: bumps.escrow },
                    ..*old(accounts)
                })
            },
        },
{
    match accounts.deposit(amount, collateral_type) {
        Ok(transfer) => {
            accounts.escrow.bump = bumps.escrow;
            Ok(transfer)
        },
        Err(e) => Err(e),
    }
}

/// Releases the collateral held for the borrower's loan: returns the
/// movement of funds from the vault to the borrower, or the reason why there
/// is none. No record changes.
pub fn withdraw_loan(accounts: &mut Withdrawl) -> (result: Result<Transfer, CreditError>)
    ensures
        old(accounts).release_outcome(*final(accounts), result),
{
    accounts.issue_loan_amount()
}

} // verus!
