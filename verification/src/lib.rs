//! Loan, escrow and collateral-accounting rules of a collateralized
//! micro-lending protocol, with machine-checked contracts.

pub mod clock;
pub mod deposit;
pub mod error;
pub mod identity;
pub mod initialize;
pub mod laws;
pub mod loan;
pub mod protocol;
pub mod user;
pub mod vault;
pub mod withdraw;
