//! What holds of the operations on every input, proved from their outcomes.

use vstd::prelude::*;
use crate::deposit::Deposit;
use crate::error::CreditError;
use crate::identity::Identity;
use crate::initialize::{is_offered_duration, loans_taken_so_far, Initialize};
use crate::loan::{CollateralType, Loan};
use crate::vault::{escrow_label, Signatory, Transfer};
use crate::withdraw::Withdrawl;

verus! {

/// The sum of a sequence of amounts.
pub open spec fn total(amounts: Seq<u64>) -> int
    decreases amounts.len(),
{
    if amounts.len() == 0 {
        0
    } else {
        total(amounts.drop_last()) + amounts.last()
    }
}

/// A loan opened for a term on offer falls due exactly that many seconds
/// after it starts, and it starts at the time of the call. The opening
/// succeeds whenever the principal and the collateral are positive, the due
/// time can be represented, and the credit record can count one more loan.
pub proof fn law_offered_term_opens_loan(
    pre: Initialize,
    post: Initialize,
    result: Result<(), CreditError>,
    clock: i64,
    principal: u64,
    interest_bps: u16,
    collateral_mint: Identity,
    collateral_amount: u64,
    due_ts: u32,
    existing_user: bool,
)
    requires
        pre.initialize_outcome(
            post,
            result,
            clock,
            principal,
            interest_bps,
            collateral_mint,
            collateral_amount,
            due_ts,
            existing_user,
        ),
        is_offered_duration(due_ts),
        principal > 0,
        collateral_amount > 0,
        clock + due_ts <= i64::MAX,
        loans_taken_so_far(pre.user_profile) < u32::MAX,
    ensures
        result is Ok,
        post.loan.start_ts == clock,
        post.loan.due_ts == post.loan.start_ts + due_ts,
{
}

/// A term that is not on offer is refused as an invalid timestamp, whatever
/// the other arguments and records are, and nothing changes.
pub proof fn law_other_term_is_refused(
    pre: Initialize,
    post: Initialize,
    result: Result<(), CreditError>,
    clock: i64,
    principal: u64,
    interest_bps: u16,
    collateral_mint: Identity,
    collateral_amount: u64,
    due_ts: u32,
    existing_user: bool,
)
    requires
        pre.initialize_outcome(
            post,
            result,
            clock,
            principal,
            interest_bps,
            collateral_mint,
            collateral_amount,
            due_ts,
            existing_user,
        ),
        !is_offered_duration(due_ts),
    ensures
        result == Err::<(), CreditError>(CreditError::InvalidTimestamp),
        post == pre,
{
}

/// A loan without principal or without collateral is refused as an invalid
/// amount, and nothing changes. This is stated for a term on offer whose due
/// time can be represented: the term is judged first.
pub proof fn law_zero_amount_is_refused(
    pre: Initialize,
    post: Initialize,
    result: Result<(), CreditError>,
    clock: i64,
    principal: u64,
    interest_bps: u16,
    collateral_mint: Identity,
    collateral_amount: u64,
    due_ts: u32,
    existing_user: bool,
)
    requires
        pre.initialize_outcome(
            post,
            result,
            clock,
            principal,
            interest_bps,
            collateral_mint,
            collateral_amount,
            due_ts,
            existing_user,
        ),
        principal == 0 || collateral_amount == 0,
        is_offered_duration(due_ts),
        clock + due_ts <= i64::MAX,
    ensures
        result == Err::<(), CreditError>(CreditError::InvalidAmount),
        post == pre,
{
}

/// Opening a loan only ever adds to the borrower's list, at its end, and at
/// most the loan's own address; a list without repetitions stays so.
pub proof fn law_loan_list_only_grows(
    pre: Initialize,
    post: Initialize,
    result: Result<(), CreditError>,
    clock: i64,
    principal: u64,
    interest_bps: u16,
    collateral_mint: Identity,
    collateral_amount: u64,
    due_ts: u32,
    existing_user: bool,
)
    requires
        pre.initialize_outcome(
            post,
            result,
            clock,
            principal,
            interest_bps,
            collateral_mint,
            collateral_amount,
            due_ts,
            existing_user,
        ),
    ensures
        pre.loan_list.loan_list@.is_prefix_of(post.loan_list.loan_list@),
        post.loan_list.loan_list@.len() <= pre.loan_list.loan_list@.len() + 1,
        result is Ok ==> post.loan_list.loan_list@.contains(pre.loan_key),
        pre.loan_list.loan_list@.no_duplicates() ==> post.loan_list.loan_list@.no_duplicates(),
{
    let before = pre.loan_list.loan_list@;
    let after = post.loan_list.loan_list@;
    if result is Ok && !before.contains(pre.loan_key) {
        assert(after == before.push(pre.loan_key));
        assert(after[before.len() as int] == pre.loan_key);
    }
}

/// Deposits of one collateral type add up: after any number of accepted
/// deposits the loan holds exactly what it held before plus the sum of the
/// amounts, and that sum never left the range of an amount on the way.
///
/// `states` are the records before the first deposit, between the deposits
/// and after the last; `results` are what the deposits returned.
pub proof fn law_deposits_accumulate(
    states: Seq<Deposit>,
    results: Seq<Result<Transfer, CreditError>>,
    amounts: Seq<u64>,
    collateral_type: CollateralType,
)
    requires
        states.len() == amounts.len() + 1,
        results.len() == amounts.len(),
        forall|i: int|
            0 <= i < amounts.len() ==> (#[trigger] states[i]).deposit_outcome(
                states[i + 1],
                results[i],
                amounts[i],
                collateral_type,
            ),
        forall|i: int| 0 <= i < amounts.len() ==> (#[trigger] results[i]) is Ok,
    ensures
        states.last().loan.collateral_amount == states[0].loan.collateral_amount + total(amounts),
        states[0].loan.collateral_amount + total(amounts) <= u64::MAX,
        amounts.len() > 0 ==> states.last().loan.collateral_type == collateral_type,
    decreases amounts.len(),
{
    if amounts.len() > 0 {
        let n = amounts.len() as int;
        let earlier = states.drop_last();
        assert forall|i: int| 0 <= i < n - 1 implies (#[trigger] earlier[i]).deposit_outcome(
            earlier[i + 1],
            results.drop_last()[i],
            amounts.drop_last()[i],
            collateral_type,
        ) by {
            assert(states[i].deposit_outcome(states[i + 1], results[i], amounts[i], collateral_type));
        }
        assert forall|i: int| 0 <= i < n - 1 implies (#[trigger] results.drop_last()[i]) is Ok by {
            assert(results[i] is Ok);
        }
        law_deposits_accumulate(earlier, results.drop_last(), amounts.drop_last(), collateral_type);
        assert(states[n - 1].deposit_outcome(states[n], results[n - 1], amounts[n - 1], collateral_type));
        assert(results[n - 1] is Ok);
        assert(earlier.last() == states[n - 1]);
        assert(earlier[0] == states[0]);
    }
}

/// A deposit that would take the collateral out of the range of an amount is
/// never accepted, and the collateral stays what it was.
pub proof fn law_deposit_never_wraps(
    pre: Deposit,
    post: Deposit,
    result: Result<Transfer, CreditError>,
    amount: u64,
    collateral_type: CollateralType,
)
    requires
        pre.deposit_outcome(post, result, amount, collateral_type),
        pre.loan.collateral_amount + amount > u64::MAX,
    ensures
        result is Err,
        post == pre,
{
}

/// A deposit changes nothing of a loan but the amount of its collateral,
/// which never falls, and its collateral type, which changes only while it
/// is not set.
pub proof fn law_deposit_keeps_loan_terms(
    pre: Deposit,
    post: Deposit,
    result: Result<Transfer, CreditError>,
    amount: u64,
    collateral_type: CollateralType,
)
    requires
        pre.deposit_outcome(post, result, amount, collateral_type),
    ensures
        post.loan.collateral_mint == pre.loan.collateral_mint,
        post.loan.collateral_amount >= pre.loan.collateral_amount,
        pre.loan.collateral_type != CollateralType::YetToSet ==> post.loan.collateral_type
            == pre.loan.collateral_type,
        post.loan == (Loan {
            collateral_amount: post.loan.collateral_amount,
            collateral_type: post.loan.collateral_type,
            ..pre.loan
        }),
{
}

/// Once a loan is pinned to a collateral type, a deposit of another type is
/// refused as an invalid collateral type and the collateral stays what it
/// was. This is stated for a positive amount and, where a type is declared
/// at all, for the loan's own asset: those are judged first.
pub proof fn law_other_collateral_type_is_refused(
    pre: Deposit,
    post: Deposit,
    result: Result<Transfer, CreditError>,
    amount: u64,
    collateral_type: CollateralType,
)
    requires
        pre.deposit_outcome(post, result, amount, collateral_type),
        pre.loan.collateral_type != CollateralType::YetToSet,
        pre.loan.collateral_type != collateral_type,
        amount > 0,
        collateral_type == CollateralType::YetToSet || pre.loan.collateral_mint == pre.mint,
    ensures
        result == Err::<Transfer, CreditError>(CreditError::InvalidCollateralType),
        post == pre,
        post.loan.collateral_amount == pre.loan.collateral_amount,
{
}

/// A deposit of an asset other than the loan's own is refused as an invalid
/// collateral mint, and nothing changes. This is stated for a positive
/// amount of a declared type: those are judged first.
pub proof fn law_other_asset_is_refused(
    pre: Deposit,
    post: Deposit,
    result: Result<Transfer, CreditError>,
    amount: u64,
    collateral_type: CollateralType,
)
    requires
        pre.deposit_outcome(post, result, amount, collateral_type),
        pre.loan.collateral_mint != pre.mint,
        amount > 0,
        collateral_type != CollateralType::YetToSet,
    ensures
        result == Err::<Transfer, CreditError>(CreditError::InvalidCollateralMint),
        post == pre,
{
}

/// An accepted deposit moves exactly the deposited amount out of the
/// depositor's account into the vault, in the depositor's name and under the
/// depositor's own signature.
pub proof fn law_deposit_moves_funds_into_vault(
    pre: Deposit,
    post: Deposit,
    result: Result<Transfer, CreditError>,
    amount: u64,
    collateral_type: CollateralType,
)
    requires
        pre.deposit_outcome(post, result, amount, collateral_type),
        result is Ok,
    ensures
        result->Ok_0.from == pre.user_token_account,
        result->Ok_0.to == pre.vault,
        result->Ok_0.amount == amount,
        result->Ok_0.authority == pre.user,
        result->Ok_0.signed_by == Signatory::Owner,
        post.loan.collateral_amount == pre.loan.collateral_amount + amount,
{
}

/// A borrower who has defaulted is refused a release, whatever else the
/// records hold.
pub proof fn law_defaults_bar_release(
    pre: Withdrawl,
    post: Withdrawl,
    result: Result<Transfer, CreditError>,
)
    requires
        pre.release_outcome(post, result),
        pre.user_profile.total_defaults > 0,
    ensures
        result == Err::<Transfer, CreditError>(CreditError::UserHasDefaults),
        post == pre,
{
}

/// A borrower without a loan on record is refused a release. This is stated
/// for a borrower who has not defaulted: defaults are judged first.
pub proof fn law_empty_loan_list_bars_release(
    pre: Withdrawl,
    post: Withdrawl,
    result: Result<Transfer, CreditError>,
)
    requires
        pre.release_outcome(post, result),
        pre.loan_list.loan_list@.len() == 0,
        pre.user_profile.total_defaults == 0,
    ensures
        result == Err::<Transfer, CreditError>(CreditError::NoActiveLoans),
        post == pre,
{
}

/// A release moves the loan's whole collateral out of the vault into the
/// borrower's account, in the escrow's name and with the escrow's seeds, and
/// leaves every record as it was.
pub proof fn law_release_moves_collateral_to_borrower(
    pre: Withdrawl,
    post: Withdrawl,
    result: Result<Transfer, CreditError>,
)
    requires
        pre.release_outcome(post, result),
        result is Ok,
    ensures
        result->Ok_0.from == pre.vault,
        result->Ok_0.to == pre.user_token_account,
        result->Ok_0.amount == pre.loan.collateral_amount,
        result->Ok_0.authority == pre.escrow_key,
        result->Ok_0.signed_by.seeds_of() == seq![
            escrow_label(),
            pre.user.bytes@,
            seq![pre.escrow.bump],
        ],
        post == pre,
{
}

} // verus!
