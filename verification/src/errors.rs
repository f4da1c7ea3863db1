//! The error kinds an operation can surface.
//!
//! Every operation fails fast: the first violated precondition aborts the
//! whole operation with one of these kinds, and no record is mutated.

use vstd::prelude::*;

verus! {

/// Why an operation was refused. Each operation's contract says exactly
/// which inputs produce which kind.
#[derive(Clone, Copy, PartialEq, Eq, Structural, Debug)]
pub enum SubscriptionError {
    /// The requested period ends less than a minimum period after its start.
    PeriodTooShort,
    /// Reserved: a live record already exists for the pair.
    AlreadySubscribed,
    /// Reserved: the payment would not cover the fees.
    InsufficientPayment,
    /// The supplied credential account is not at the expected address.
    InvalidTokenAccount,
    /// The credential account is not owned by the provider, or holds nothing.
    InvalidNFTHolder,
    /// No live subscription record exists for the pair.
    SubscriptionNotFound,
    /// A quality score above the maximum of 100.
    QualityOutOfRange,
    /// Cancellation was attempted at or after the subscription's end.
    SubscriptionAlreadyEnded,
    /// Ending was attempted while the subscription is still running.
    ActiveSubscription,
    /// A configuration change by an identity other than the stored owner.
    NotOwner,
}

} // verus!
