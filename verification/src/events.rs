//! Events recorded on success.
//!
//! Every mutating operation that succeeds describes itself as one event
//! value, returned to the caller, who appends it to the ledger's log. Events
//! are plain data: the contracts of the operations pin every field.

use vstd::prelude::*;
use crate::account::AccountId;

verus! {

/// A subscription was created.
#[derive(Clone, Debug)]
pub struct SubscriptionCreatedEvent {
    pub data_provider: AccountId,
    pub subscriber: AccountId,
    pub recipient: String,
    pub end_time: i64,
    pub timestamp: i64,
}

/// A subscription was renewed.
#[derive(Clone, Debug)]
pub struct SubscriptionRenewedEvent {
    pub data_provider: AccountId,
    pub subscriber: AccountId,
    pub new_recipient: String,
    pub new_end_time: i64,
    pub timestamp: i64,
}

/// An active subscription was cancelled by its subscriber.
#[derive(Clone, Copy, PartialEq, Eq, Structural, Debug)]
pub struct SubscriptionCancelledEvent {
    pub data_provider: AccountId,
    pub subscriber: AccountId,
}

/// An expired subscription was closed.
#[derive(Clone, Copy, PartialEq, Eq, Structural, Debug)]
pub struct SubscriptionEndedEvent {
    pub data_provider: AccountId,
    pub subscriber: AccountId,
}

/// The owner changed the per-day rate.
#[derive(Clone, Copy, PartialEq, Eq, Structural, Debug)]
pub struct FeePerDayUpdatedEvent {
    pub new_fee_per_day: u64,
}

/// The owner changed the flat collector fee.
#[derive(Clone, Copy, PartialEq, Eq, Structural, Debug)]
pub struct CollectorFeeUpdatedEvent {
    pub new_collector_fee: u64,
}

/// A quality score was reported for a provider.
#[derive(Clone, Copy, PartialEq, Eq, Structural, Debug)]
pub struct QualityProvidedEvent {
    pub data_provider: AccountId,
    pub subscriber: AccountId,
    pub quality: u8,
}

} // verus!
