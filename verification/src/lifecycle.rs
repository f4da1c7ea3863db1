//! The subscription state machine.
//!
//! One record exists per (subscriber, provider) pair. Its `end_time` encodes
//! the state: zero means no live record, a positive time in the future means
//! active, a positive time at or before now means expired. The operations
//! here validate a transition against the current time, derive the fees, and
//! mutate the records they were handed; the caller moves the returned
//! amounts and appends the returned event within the same atomic unit, so a
//! failed transfer can still abandon the whole operation.

use vstd::prelude::*;
use crate::account::AccountId;
use crate::config::State;
use crate::directory::{record_subscriber, SubscribersList};
use crate::errors::SubscriptionError;
use crate::events::{
    SubscriptionCancelledEvent,
    SubscriptionCreatedEvent,
    SubscriptionEndedEvent,
    SubscriptionRenewedEvent,
};
use crate::fees::{calculate_provider_fee, spec_provider_fee, MIN_SUBSCRIPTION_PERIOD};
use crate::credential::{ata_of, credential_ok, verify_provider_credential, TokenAccountInfo};
use crate::quality::{store_quality_record, QualityInfo, QualityRecord, MAX_QUALITY_SCORE};

verus! {

/// One subscriber's record with one provider. `end_time` zero encodes "no
/// live record"; `recipient` is the free-form delivery label the subscriber
/// chose.
#[derive(Clone, Debug)]
pub struct Subscription {
    pub end_time: i64,
    pub recipient: String,
}

impl Subscription {
    /// No live record.
    pub open spec fn is_inactive(self) -> bool {
        self.end_time == 0
    }

    /// A live record exists, running or expired.
    pub open spec fn has_record(self) -> bool {
        self.end_time > 0
    }

    /// A live record that has not yet reached its end.
    pub open spec fn is_active(self, now: int) -> bool {
        self.end_time > now
    }

    /// A live record whose end has been reached.
    pub open spec fn is_expired(self, now: int) -> bool {
        self.has_record() && now >= self.end_time
    }
}

/// Builds the record encoding "no live record".
pub fn new_subscription() -> (s: Subscription)
    ensures
        s.is_inactive(),
        s.recipient@ == Seq::<char>::empty(),
{
    Subscription { end_time: 0, recipient: String::new() }
}

/// The amounts one successful operation charges the subscriber, to be moved
/// in the configured payment asset within the same atomic unit: the flat
/// platform cut to the owner and the duration-proportional fee to the
/// provider.
#[derive(Clone, Copy, PartialEq, Eq, Structural, Debug)]
pub struct FeeTransfer {
    pub to_owner: u64,
    pub to_provider: u64,
}

/// The timestamp a renewal's added period is measured from: the old end for
/// a still-running record, the present moment for an expired one.
pub open spec fn spec_renewal_base(end_time: int, now: int) -> int {
    if end_time > now {
        end_time
    } else {
        now
    }
}

/// Creates a subscription: checks the provider's credential, checks the
/// period, derives the fees, fills the record, and appends the subscriber to
/// the provider's directory. Succeeds exactly when the credential is valid
/// and the period is at least the minimum; any failure leaves both records
/// unchanged.
pub fn subscribe(
    state: &State,
    subscription: &mut Subscription,
    subscribers_list: &mut SubscribersList,
    nft_token_account: &TokenAccountInfo,
    subscriber: AccountId,
    data_provider: AccountId,
    recipient: String,
    end_time: i64,
    now: i64,
) -> (r: Result<(FeeTransfer, SubscriptionCreatedEvent), SubscriptionError>)
    requires
        old(subscription).is_inactive(),
        now + MIN_SUBSCRIPTION_PERIOD <= i64::MAX,
        end_time >= now + MIN_SUBSCRIPTION_PERIOD ==> end_time - now <= i64::MAX && (end_time
            - now) * state.fee_per_day <= i64::MAX,
    ensures
        r is Ok <==> credential_ok(data_provider, state.nft_program_id, *nft_token_account)
            && end_time >= now + MIN_SUBSCRIPTION_PERIOD,
        r is Err ==> *final(subscription) == *old(subscription) && *final(subscribers_list)
            == *old(subscribers_list),
        nft_token_account.address@ != ata_of(data_provider@, state.nft_program_id@) ==> r == Err::<
            (FeeTransfer, SubscriptionCreatedEvent),
            SubscriptionError,
        >(SubscriptionError::InvalidTokenAccount),
        nft_token_account.address@ == ata_of(data_provider@, state.nft_program_id@) && !(
        nft_token_account.owner == data_provider && nft_token_account.amount > 0) ==> r == Err::<
            (FeeTransfer, SubscriptionCreatedEvent),
            SubscriptionError,
        >(SubscriptionError::InvalidNFTHolder),
        credential_ok(data_provider, state.nft_program_id, *nft_token_account) && end_time < now
            + MIN_SUBSCRIPTION_PERIOD ==> r == Err::<
            (FeeTransfer, SubscriptionCreatedEvent),
            SubscriptionError,
        >(SubscriptionError::PeriodTooShort),
        r matches Ok(ok) ==> {
            &&& ok.0.to_owner == state.collector_fee
            &&& ok.0.to_provider == spec_provider_fee(end_time - now, state.fee_per_day as int)
            &&& final(subscription).end_time == end_time
            &&& final(subscription).recipient@ == recipient@
            &&& final(subscribers_list).subscribers@ == old(
                subscribers_list,
            ).subscribers@.push(subscriber)
            &&& ok.1.data_provider == data_provider
            &&& ok.1.subscriber == subscriber
            &&& ok.1.recipient@ == recipient@
            &&& ok.1.end_time == end_time
            &&& ok.1.timestamp == now
        },
{
    match verify_provider_credential(data_provider, state.nft_program_id, nft_token_account) {
        Err(e) => {
            return Err(e);
        },
        Ok(()) => {},
    }
    if end_time < now + MIN_SUBSCRIPTION_PERIOD {
        return Err(SubscriptionError::PeriodTooShort);
    }
    let duration = end_time - now;
    let provider_fee = calculate_provider_fee(duration, state.fee_per_day);
    subscription.end_time = end_time;
    let event_recipient = recipient.clone();
    subscription.recipient = recipient;
    record_subscriber(subscribers_list, subscriber);
    Ok(
        (
            FeeTransfer { to_owner: state.collector_fee, to_provider: provider_fee },
            SubscriptionCreatedEvent {
                data_provider,
                subscriber,
                recipient: event_recipient,
                end_time,
                timestamp: now,
            },
        ),
    )
}

/// Renews a subscription: the added period runs from the renewal base — the
/// old end while the record still runs, the present moment once it has
/// expired — and the fee covers only that added time. The caller's quality
/// report is written into the provider's log. Succeeds exactly when the
/// score is in range, a record exists, and the new end is at least the
/// minimum period past the base; any failure leaves both records unchanged.
pub fn renew_subscription(
    state: &State,
    subscription: &mut Subscription,
    quality_info: &mut QualityInfo,
    subscriber: AccountId,
    data_provider: AccountId,
    new_recipient: String,
    new_end_time: i64,
    quality: u8,
    now: i64,
) -> (r: Result<(FeeTransfer, SubscriptionRenewedEvent), SubscriptionError>)
    requires
        old(quality_info).wf(),
        old(subscription).end_time + MIN_SUBSCRIPTION_PERIOD <= i64::MAX,
        now + MIN_SUBSCRIPTION_PERIOD <= i64::MAX,
        quality <= MAX_QUALITY_SCORE && old(subscription).has_record() && new_end_time
            >= spec_renewal_base(old(subscription).end_time as int, now as int)
            + MIN_SUBSCRIPTION_PERIOD ==> new_end_time - spec_renewal_base(
            old(subscription).end_time as int,
            now as int,
        ) <= i64::MAX && (new_end_time - spec_renewal_base(
            old(subscription).end_time as int,
            now as int,
        )) * state.fee_per_day <= i64::MAX,
    ensures
        final(quality_info).wf(),
        r is Ok <==> quality <= MAX_QUALITY_SCORE && old(subscription).has_record() && new_end_time
            >= spec_renewal_base(old(subscription).end_time as int, now as int)
            + MIN_SUBSCRIPTION_PERIOD,
        r is Err ==> *final(subscription) == *old(subscription) && *final(quality_info) == *old(
            quality_info,
        ),
        quality > MAX_QUALITY_SCORE ==> r == Err::<
            (FeeTransfer, SubscriptionRenewedEvent),
            SubscriptionError,
        >(SubscriptionError::QualityOutOfRange),
        quality <= MAX_QUALITY_SCORE && !old(subscription).has_record() ==> r == Err::<
            (FeeTransfer, SubscriptionRenewedEvent),
            SubscriptionError,
        >(SubscriptionError::SubscriptionNotFound),
        quality <= MAX_QUALITY_SCORE && old(subscription).has_record() && new_end_time
            < spec_renewal_base(old(subscription).end_time as int, now as int)
            + MIN_SUBSCRIPTION_PERIOD ==> r == Err::<
            (FeeTransfer, SubscriptionRenewedEvent),
            SubscriptionError,
        >(SubscriptionError::PeriodTooShort),
        r matches Ok(ok) ==> {
            &&& ok.0.to_owner == state.collector_fee
            &&& ok.0.to_provider == spec_provider_fee(
                new_end_time - spec_renewal_base(old(subscription).end_time as int, now as int),
                state.fee_per_day as int,
            )
            &&& final(subscription).end_time == new_end_time
            &&& final(subscription).recipient@ == new_recipient@
            &&& final(quality_info).qualities@ == old(quality_info).qualities@.update(
                old(quality_info).current_index as int,
                QualityRecord { provider: subscriber, quality },
            )
            &&& final(quality_info).current_index as int == (old(quality_info).current_index as int
                + 1) % (crate::quality::MAX_QUALITY_RECORDS as int)
            &&& final(quality_info).subscriber == old(quality_info).subscriber
            &&& final(quality_info).quality == old(quality_info).quality
            &&& ok.1.data_provider == data_provider
            &&& ok.1.subscriber == subscriber
            &&& ok.1.new_recipient@ == new_recipient@
            &&& ok.1.new_end_time == new_end_time
            &&& ok.1.timestamp == now
        },
{
    if quality > MAX_QUALITY_SCORE {
        return Err(SubscriptionError::QualityOutOfRange);
    }
    if subscription.end_time <= 0 {
        return Err(SubscriptionError::SubscriptionNotFound);
    }
    let renewal_time = if subscription.end_time > now {
        subscription.end_time
    } else {
        now
    };
    if new_end_time < renewal_time + MIN_SUBSCRIPTION_PERIOD {
        return Err(SubscriptionError::PeriodTooShort);
    }
    let extended_duration = new_end_time - renewal_time;
    let additional_fee = calculate_provider_fee(extended_duration, state.fee_per_day);
    store_quality_record(quality_info, subscriber, quality);
    subscription.end_time = new_end_time;
    let event_recipient = new_recipient.clone();
    subscription.recipient = new_recipient;
    Ok(
        (
            FeeTransfer { to_owner: state.collector_fee, to_provider: additional_fee },
            SubscriptionRenewedEvent {
                data_provider,
                subscriber,
                new_recipient: event_recipient,
                new_end_time,
                timestamp: now,
            },
        ),
    )
}

/// Cancels a still-running subscription: writes the caller's quality report
/// and clears the record. No transfer occurs. Succeeds exactly when the
/// score is in range, a record exists, and its end lies strictly in the
/// future; at or after the end it fails `SubscriptionAlreadyEnded`. Any
/// failure leaves both records unchanged.
pub fn cancel_subscription(
    subscription: &mut Subscription,
    quality_info: &mut QualityInfo,
    subscriber: AccountId,
    data_provider: AccountId,
    quality: u8,
    now: i64,
) -> (r: Result<SubscriptionCancelledEvent, SubscriptionError>)
    requires
        old(quality_info).wf(),
    ensures
        final(quality_info).wf(),
        r is Ok <==> quality <= MAX_QUALITY_SCORE && old(subscription).has_record() && old(
            subscription,
        ).is_active(now as int),
        r is Err ==> *final(subscription) == *old(subscription) && *final(quality_info) == *old(
            quality_info,
        ),
        quality > MAX_QUALITY_SCORE ==> r == Err::<SubscriptionCancelledEvent, SubscriptionError>(
            SubscriptionError::QualityOutOfRange,
        ),
        quality <= MAX_QUALITY_SCORE && !old(subscription).has_record() ==> r == Err::<
            SubscriptionCancelledEvent,
            SubscriptionError,
        >(SubscriptionError::SubscriptionNotFound),
        quality <= MAX_QUALITY_SCORE && old(subscription).has_record() && now >= old(
            subscription,
        ).end_time ==> r == Err::<SubscriptionCancelledEvent, SubscriptionError>(
            SubscriptionError::SubscriptionAlreadyEnded,
        ),
        r is Ok ==> {
            &&& r == Ok::<SubscriptionCancelledEvent, SubscriptionError>(
                SubscriptionCancelledEvent { data_provider, subscriber },
            )
            &&& final(subscription).is_inactive()
            &&& final(subscription).recipient@ == Seq::<char>::empty()
            &&& final(quality_info).qualities@ == old(quality_info).qualities@.update(
                old(quality_info).current_index as int,
                QualityRecord { provider: subscriber, quality },
            )
            &&& final(quality_info).current_index as int == (old(quality_info).current_index as int
                + 1) % (crate::quality::MAX_QUALITY_RECORDS as int)
            &&& final(quality_info).subscriber == old(quality_info).subscriber
            &&& final(quality_info).quality == old(quality_info).quality
        },
{
    if quality > MAX_QUALITY_SCORE {
        return Err(SubscriptionError::QualityOutOfRange);
    }
    if subscription.end_time <= 0 {
        return Err(SubscriptionError::SubscriptionNotFound);
    }
    if now >= subscription.end_time {
        return Err(SubscriptionError::SubscriptionAlreadyEnded);
    }
    store_quality_record(quality_info, subscriber, quality);
    subscription.recipient = String::new();
    subscription.end_time = 0;
    Ok(SubscriptionCancelledEvent { data_provider, subscriber })
}

/// Closes a subscription that has reached its end: writes the caller's
/// quality report and clears the record. Succeeds exactly when the score is
/// in range, a record exists, and its end has been reached; before the end
/// it fails `ActiveSubscription`. Any failure leaves both records unchanged.
pub fn end_subscription(
    subscription: &mut Subscription,
    quality_info: &mut QualityInfo,
    subscriber: AccountId,
    data_provider: AccountId,
    quality: u8,
    now: i64,
) -> (r: Result<SubscriptionEndedEvent, SubscriptionError>)
    requires
        old(quality_info).wf(),
    ensures
        final(quality_info).wf(),
        r is Ok <==> quality <= MAX_QUALITY_SCORE && old(subscription).is_expired(now as int),
        r is Err ==> *final(subscription) == *old(subscription) && *final(quality_info) == *old(
            quality_info,
        ),
        quality > MAX_QUALITY_SCORE ==> r == Err::<SubscriptionEndedEvent, SubscriptionError>(
            SubscriptionError::QualityOutOfRange,
        ),
        quality <= MAX_QUALITY_SCORE && !old(subscription).has_record() ==> r == Err::<
            SubscriptionEndedEvent,
            SubscriptionError,
        >(SubscriptionError::SubscriptionNotFound),
        quality <= MAX_QUALITY_SCORE && old(subscription).has_record() && now < old(
            subscription,
        ).end_time ==> r == Err::<SubscriptionEndedEvent, SubscriptionError>(
            SubscriptionError::ActiveSubscription,
        ),
        r is Ok ==> {
            &&& r == Ok::<SubscriptionEndedEvent, SubscriptionError>(
                SubscriptionEndedEvent { data_provider, subscriber },
            )
            &&& final(subscription).is_inactive()
            &&& final(subscription).recipient@ == Seq::<char>::empty()
            &&& final(quality_info).qualities@ == old(quality_info).qualities@.update(
                old(quality_info).current_index as int,
                QualityRecord { provider: subscriber, quality },
            )
            &&& final(quality_info).current_index as int == (old(quality_info).current_index as int
                + 1) % (crate::quality::MAX_QUALITY_RECORDS as int)
            &&& final(quality_info).subscriber == old(quality_info).subscriber
            &&& final(quality_info).quality == old(quality_info).quality
        },
{
    if quality > MAX_QUALITY_SCORE {
        return Err(SubscriptionError::QualityOutOfRange);
    }
    if subscription.end_time <= 0 {
        return Err(SubscriptionError::SubscriptionNotFound);
    }
    if now < subscription.end_time {
        return Err(SubscriptionError::ActiveSubscription);
    }
    store_quality_record(quality_info, subscriber, quality);
    subscription.recipient = String::new();
    subscription.end_time = 0;
    Ok(SubscriptionEndedEvent { data_provider, subscriber })
}

} // verus!
