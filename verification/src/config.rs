//! The global configuration record and its owner-only setters.
//!
//! One configuration record exists for the whole system. It names the owner,
//! the credential authority, and the payment asset, and carries the two fee
//! parameters the fee calculator consumes. Only the stored owner may change
//! the fees.

use vstd::prelude::*;
use crate::account::AccountId;
use crate::errors::SubscriptionError;
use crate::events::{CollectorFeeUpdatedEvent, FeePerDayUpdatedEvent};

verus! {

/// The global configuration record.
#[derive(Clone, Copy, PartialEq, Eq, Structural, Debug)]
pub struct State {
    /// The identity allowed to change the fee parameters.
    pub owner: AccountId,
    /// The authority whose credential token marks valid data providers.
    pub nft_program_id: AccountId,
    /// The asset all fees are paid in.
    pub payment_spl_token: AccountId,
    /// The provider's rate for one full day of subscription.
    pub fee_per_day: u64,
    /// The flat platform cut taken once per subscribe or renew.
    pub collector_fee: u64,
}

/// Creates the configuration record, owned by `owner`, with both fee
/// parameters starting at one unit.
pub fn initialize(
    owner: AccountId,
    nft_program_id: AccountId,
    payment_spl_token: AccountId,
) -> (s: State)
    ensures
        s == (State { owner, nft_program_id, payment_spl_token, fee_per_day: 1, collector_fee: 1 }),
{
    State { owner, nft_program_id, payment_spl_token, fee_per_day: 1, collector_fee: 1 }
}

/// Sets the per-day provider rate. Succeeds exactly when the caller is the
/// stored owner; any other caller fails `NotOwner` and changes nothing.
pub fn set_fee_per_day(state: &mut State, caller: AccountId, new_fee: u64) -> (r: Result<
    FeePerDayUpdatedEvent,
    SubscriptionError,
>)
    ensures
        caller == old(state).owner ==> r == Ok::<FeePerDayUpdatedEvent, SubscriptionError>(
            FeePerDayUpdatedEvent { new_fee_per_day: new_fee },
        ) && *final(state) == (State { fee_per_day: new_fee, ..*old(state) }),
        caller != old(state).owner ==> r == Err::<FeePerDayUpdatedEvent, SubscriptionError>(
            SubscriptionError::NotOwner,
        ) && *final(state) == *old(state),
{
    if !(caller == state.owner) {
        return Err(SubscriptionError::NotOwner);
    }
    state.fee_per_day = new_fee;
    Ok(FeePerDayUpdatedEvent { new_fee_per_day: new_fee })
}

/// Sets the flat collector fee. Succeeds exactly when the caller is the
/// stored owner; any other caller fails `NotOwner` and changes nothing.
pub fn set_collector_fee(state: &mut State, caller: AccountId, new_fee: u64) -> (r: Result<
    CollectorFeeUpdatedEvent,
    SubscriptionError,
>)
    ensures
        caller == old(state).owner ==> r == Ok::<CollectorFeeUpdatedEvent, SubscriptionError>(
            CollectorFeeUpdatedEvent { new_collector_fee: new_fee },
        ) && *final(state) == (State { collector_fee: new_fee, ..*old(state) }),
        caller != old(state).owner ==> r == Err::<CollectorFeeUpdatedEvent, SubscriptionError>(
            SubscriptionError::NotOwner,
        ) && *final(state) == *old(state),
{
    if !(caller == state.owner) {
        return Err(SubscriptionError::NotOwner);
    }
    state.collector_fee = new_fee;
    Ok(CollectorFeeUpdatedEvent { new_collector_fee: new_fee })
}

} // verus!
