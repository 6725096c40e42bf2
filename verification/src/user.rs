//! The per-borrower credit record and the tier derived from it.

use vstd::prelude::*;
use crate::identity::Identity;

verus! {

/// A borrower's credit record. A record whose `user` is the empty identity
/// has not been opened yet.
#[derive(Clone, Copy, Debug, PartialEq, Eq)]
pub struct UserProfile {
    pub user: Identity,
    pub total_loans_taken: u32,
    pub total_loans_repaid: u32,
    pub total_defaults: u32,
    pub reputation_score: u32,
    /// Seconds since the epoch at which the latest loan was opened.
    pub last_loan_ts: i64,
}

/// Coarse reputation bucket derived from a reputation score.
#[derive(Clone, Copy, Debug, PartialEq, Eq, Structural)]
pub enum UserTier {
    Tier0,
    Tier1,
    Tier2,
    Tier3,
}

/// The tier that a reputation score falls into: up to 200 the lowest, up to
/// 500 the next, up to 800 the third, above that the highest.
pub open spec fn tier_of_score(score: u32) -> UserTier {
    if score <= 200 {
        UserTier::Tier0
    } else if score <= 500 {
        UserTier::Tier1
    } else if score <= 800 {
        UserTier::Tier2
    } else {
        UserTier::Tier3
    }
}

/// Computes the tier of a borrower from the reputation score on record.
/// Nothing else in the record matters.
pub fn calculate_user_tier(profile: &UserProfile) -> (tier: UserTier)
    ensures
        tier == tier_of_score(profile.reputation_score),
{
    let score: u32 = profile.reputation_score;
    if score <= 200 {
        UserTier::Tier0
    } else if score <= 500 {
        UserTier::Tier1
    } else if score <= 800 {
        UserTier::Tier2
    } else {
        UserTier::Tier3
    }
}

} // verus!
