use anchor_lang::prelude::ProgramError;
use credit_protocol::error::CreditError;
use credit_protocol::identity::Identity;
use credit_protocol::initialize::{Initialize, InitializeBumps};
use credit_protocol::loan::{CollateralType, Escrow, Loan, LoanList, LoanStatus};
use credit_protocol::protocol::{initialize_loan, initialize_loan_at, InitializeError};
use credit_protocol::user::UserProfile;

fn opening_id(tag: u8) -> Identity {
    let mut bytes = [0u8; 32];
    bytes[0] = tag;
    bytes[31] = tag;
    Identity::new(bytes)
}

fn opening_blank_loan() -> Loan {
    Loan {
        borrower: Identity::default(),
        lender: Identity::default(),
        principal: 0,
        interest_bps: 0,
        collateral_mint: Identity::default(),
        collateral_amount: 0,
        start_ts: 0,
        due_ts: 0,
        status: LoanStatus::Requested,
        collateral_type: CollateralType::YetToSet,
        existing_user: false,
    }
}

fn opening_blank_profile() -> UserProfile {
    UserProfile {
        user: Identity::default(),
        total_loans_taken: 0,
        total_loans_repaid: 0,
        total_defaults: 0,
        reputation_score: 0,
        last_loan_ts: 0,
    }
}

fn opening_fresh_accounts() -> Initialize {
    Initialize {
        user: opening_id(1),
        escrow: Escrow { bump: 0 },
        loan_key: opening_id(2),
        loan: opening_blank_loan(),
        user_profile: opening_blank_profile(),
        loan_list: LoanList { loan_list: Vec::new(), loan_list_bump: 0 },
    }
}

#[test]
fn every_offered_term_opens_a_loan_due_that_much_later() {
    for term in [60u32, 300, 1200, 3600, 7200] {
        let mut accounts = opening_fresh_accounts();
        let result = accounts.initialize_loan(1_700_000_000, 1000, 250, opening_id(9), 500, term, true);
        assert_eq!(result, Ok(()));
        assert_eq!(accounts.loan.start_ts, 1_700_000_000);
        assert_eq!(accounts.loan.due_ts, 1_700_000_000 + term as i64);
    }
}

#[test]
fn opening_writes_the_requested_loan() {
    let mut accounts = opening_fresh_accounts();
    let result = accounts.initialize_loan(1_000, 1000, 250, opening_id(9), 500, 3600, true);
    assert_eq!(result, Ok(()));
    assert_eq!(
        accounts.loan,
        Loan {
            borrower: opening_id(1),
            lender: Identity::default(),
            principal: 1000,
            interest_bps: 250,
            collateral_mint: opening_id(9),
            collateral_amount: 500,
            start_ts: 1_000,
            due_ts: 4_600,
            status: LoanStatus::Requested,
            collateral_type: CollateralType::YetToSet,
            existing_user: true,
        }
    );
    assert_eq!(accounts.user, opening_id(1));
    assert_eq!(accounts.loan_key, opening_id(2));
    assert_eq!(accounts.escrow, Escrow { bump: 0 });
}

#[test]
fn terms_not_on_offer_are_refused_and_change_nothing() {
    for term in [0u32, 1, 59, 61, 299, 301, 1199, 3599, 3601, 7199, 7201, 86_400, u32::MAX] {
        let mut accounts = opening_fresh_accounts();
        let before = accounts.clone();
        let result = accounts.initialize_loan(1_000, 1000, 250, opening_id(9), 500, term, false);
        assert_eq!(result, Err(CreditError::InvalidTimestamp));
        assert_eq!(accounts, before);
    }
}

#[test]
fn a_term_not_on_offer_is_judged_before_the_amounts() {
    let mut accounts = opening_fresh_accounts();
    let before = accounts.clone();
    let result = accounts.initialize_loan(1_000, 0, 250, opening_id(9), 0, 61, false);
    assert_eq!(result, Err(CreditError::InvalidTimestamp));
    assert_eq!(accounts, before);
}

#[test]
fn zero_principal_is_refused_and_changes_nothing() {
    let mut accounts = opening_fresh_accounts();
    let before = accounts.clone();
    let result = accounts.initialize_loan(1_000, 0, 250, opening_id(9), 500, 3600, false);
    assert_eq!(result, Err(CreditError::InvalidAmount));
    assert_eq!(accounts, before);
}

#[test]
fn zero_collateral_is_refused_and_changes_nothing() {
    let mut accounts = opening_fresh_accounts();
    let before = accounts.clone();
    let result = accounts.initialize_loan(1_000, 1000, 250, opening_id(9), 0, 3600, false);
    assert_eq!(result, Err(CreditError::InvalidAmount));
    assert_eq!(accounts, before);
}

#[test]
fn a_due_time_beyond_the_range_is_refused() {
    let mut accounts = opening_fresh_accounts();
    let before = accounts.clone();
    let result = accounts.initialize_loan(i64::MAX - 59, 1000, 250, opening_id(9), 500, 60, false);
    assert_eq!(result, Err(CreditError::InvalidTimestamp));
    assert_eq!(accounts, before);
}

#[test]
fn the_last_representable_due_time_is_accepted() {
    let mut accounts = opening_fresh_accounts();
    let result = accounts.initialize_loan(i64::MAX - 60, 1000, 250, opening_id(9), 500, 60, false);
    assert_eq!(result, Ok(()));
    assert_eq!(accounts.loan.due_ts, i64::MAX);
}

#[test]
fn a_negative_clock_is_taken_as_it_is() {
    let mut accounts = opening_fresh_accounts();
    let result = accounts.initialize_loan(-100, 1, 0, opening_id(9), 1, 60, false);
    assert_eq!(result, Ok(()));
    assert_eq!(accounts.loan.start_ts, -100);
    assert_eq!(accounts.loan.due_ts, -40);
}

#[test]
fn the_first_loan_opens_the_credit_record() {
    let mut accounts = opening_fresh_accounts();
    accounts.user_profile.total_loans_taken = 7;
    accounts.user_profile.total_loans_repaid = 3;
    accounts.user_profile.total_defaults = 2;
    accounts.user_profile.reputation_score = 900;
    accounts.user_profile.last_loan_ts = 5;
    let result = accounts.initialize_loan(1_000, 1000, 250, opening_id(9), 500, 300, false);
    assert_eq!(result, Ok(()));
    assert_eq!(
        accounts.user_profile,
        UserProfile {
            user: opening_id(1),
            total_loans_taken: 1,
            total_loans_repaid: 0,
            total_defaults: 0,
            reputation_score: 0,
            last_loan_ts: 1_000,
        }
    );
}

#[test]
fn a_later_loan_counts_up_and_keeps_the_rest_of_the_record() {
    let mut accounts = opening_fresh_accounts();
    accounts.user_profile = UserProfile {
        user: opening_id(1),
        total_loans_taken: 7,
        total_loans_repaid: 3,
        total_defaults: 2,
        reputation_score: 900,
        last_loan_ts: 5,
    };
    let result = accounts.initialize_loan(2_000, 1000, 250, opening_id(9), 500, 1200, false);
    assert_eq!(result, Ok(()));
    assert_eq!(
        accounts.user_profile,
        UserProfile {
            user: opening_id(1),
            total_loans_taken: 8,
            total_loans_repaid: 3,
            total_defaults: 2,
            reputation_score: 900,
            last_loan_ts: 2_000,
        }
    );
}

#[test]
fn a_full_loan_counter_is_refused_and_changes_nothing() {
    let mut accounts = opening_fresh_accounts();
    accounts.user_profile.user = opening_id(1);
    accounts.user_profile.total_loans_taken = u32::MAX;
    let before = accounts.clone();
    let result = accounts.initialize_loan(1_000, 1000, 250, opening_id(9), 500, 3600, false);
    assert_eq!(result, Err(CreditError::AmountOverflow));
    assert_eq!(accounts, before);
}

#[test]
fn a_full_counter_on_a_record_not_yet_opened_does_not_count() {
    let mut accounts = opening_fresh_accounts();
    accounts.user_profile.total_loans_taken = u32::MAX;
    let result = accounts.initialize_loan(1_000, 1000, 250, opening_id(9), 500, 3600, false);
    assert_eq!(result, Ok(()));
    assert_eq!(accounts.user_profile.total_loans_taken, 1);
}

#[test]
fn the_loan_address_is_listed_once() {
    let mut accounts = opening_fresh_accounts();
    assert_eq!(accounts.initialize_loan(1_000, 1000, 250, opening_id(9), 500, 3600, false), Ok(()));
    assert_eq!(accounts.loan_list.loan_list, vec![opening_id(2)]);
    assert_eq!(accounts.initialize_loan(2_000, 10, 0, opening_id(9), 5, 60, true), Ok(()));
    assert_eq!(accounts.loan_list.loan_list, vec![opening_id(2)]);
    assert_eq!(accounts.user_profile.total_loans_taken, 2);
}

#[test]
fn a_new_loan_address_goes_to_the_end_of_the_list() {
    let mut accounts = opening_fresh_accounts();
    accounts.loan_list.loan_list = vec![opening_id(5), opening_id(6)];
    accounts.loan_list.loan_list_bump = 77;
    assert_eq!(accounts.initialize_loan(1_000, 1000, 250, opening_id(9), 500, 3600, false), Ok(()));
    assert_eq!(accounts.loan_list.loan_list, vec![opening_id(5), opening_id(6), opening_id(2)]);
    assert_eq!(accounts.loan_list.loan_list_bump, 77);
}

#[test]
fn opening_at_a_given_time_notes_the_nonces() {
    let mut accounts = opening_fresh_accounts();
    let bumps = InitializeBumps { escrow: 254, loan_list: 253 };
    let result = initialize_loan_at(&mut accounts, bumps, 1_000, 1000, 250, opening_id(9), 500, 7200, false);
    assert_eq!(result, Ok(()));
    assert_eq!(accounts.escrow, Escrow { bump: 254 });
    assert_eq!(accounts.loan_list.loan_list_bump, 253);
    assert_eq!(accounts.loan.due_ts, 8_200);
    assert_eq!(accounts.loan_list.loan_list, vec![opening_id(2)]);
}

#[test]
fn a_refused_opening_notes_no_nonce() {
    let mut accounts = opening_fresh_accounts();
    let before = accounts.clone();
    let bumps = InitializeBumps { escrow: 254, loan_list: 253 };
    let result = initialize_loan_at(&mut accounts, bumps, 1_000, 0, 250, opening_id(9), 500, 7200, false);
    assert_eq!(result, Err(CreditError::InvalidAmount));
    assert_eq!(accounts, before);
}

#[test]
fn without_a_ledger_clock_nothing_is_opened() {
    let mut accounts = opening_fresh_accounts();
    let before = accounts.clone();
    let bumps = InitializeBumps { escrow: 254, loan_list: 253 };
    let result = initialize_loan(&mut accounts, bumps, 1000, 250, opening_id(9), 500, 3600, false);
    assert_eq!(result, Err(InitializeError::ClockUnavailable(ProgramError::UnsupportedSysvar)));
    assert_eq!(accounts, before);
}
