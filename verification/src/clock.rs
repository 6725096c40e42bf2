//! The ledger's clock.

use vstd::prelude::*;
use anchor_lang::prelude::{Clock, ProgramError};
use anchor_lang::solana_program::sysvar::Sysvar;

verus! {

/// The ledger's own error type, carried through unread.
#[verifier::external_type_specification]
#[verifier::external_body]
pub struct ExProgramError(ProgramError);

/// Reads the ledger's clock with `Clock::get` and hands back its
/// `unix_timestamp`, in seconds since the epoch, or the ledger's error where
/// no clock can be read. Nothing is claimed of the time that comes back: it
/// is whatever the ledger says it is.
#[verifier::external_body]
pub(crate) fn unix_timestamp() -> (now: Result<i64, ProgramError>) {
    match Clock::get() {
        Ok(clock) => Ok(clock.unix_timestamp),
        Err(e) => Err(e),
    }
}

} // verus!
