//! The fee calculator.
//!
//! A subscription pays two amounts per operation: a duration-proportional
//! provider fee and a flat collector fee for the platform owner. The provider
//! fee is the per-day rate scaled by the paid duration in seconds and divided
//! by the seconds in a day, truncating: fractional days are never rounded up,
//! so the provider can be undercharged by up to one unit per period.

use vstd::prelude::*;

verus! {

/// The shortest period a subscription may be created or extended by, in
/// seconds: one day.
pub const MIN_SUBSCRIPTION_PERIOD: i64 = 86400;

/// The provider fee owed for `duration` seconds at `fee_per_day`: whole and
/// fractional days scaled by the rate, truncated to a whole number of units.
pub open spec fn spec_provider_fee(duration: int, fee_per_day: int) -> int {
    duration * fee_per_day / (MIN_SUBSCRIPTION_PERIOD as int)
}

/// Computes the provider fee for a paid period.
pub fn calculate_provider_fee(duration: i64, fee_per_day: u64) -> (fee: u64)
    requires
        duration >= MIN_SUBSCRIPTION_PERIOD,
        duration * fee_per_day <= u64::MAX,
    ensures
        fee == spec_provider_fee(duration as int, fee_per_day as int),
{
    let duration_days_scaled: u64 = duration as u64;
    duration_days_scaled * fee_per_day / (MIN_SUBSCRIPTION_PERIOD as u64)
}

/// The provider fee truncates: it never exceeds the exact proportional
/// amount, falls short of it by less than one whole period's rate, and is
/// never negative.
pub proof fn lemma_provider_fee_truncates(duration: int, fee_per_day: int)
    requires
        duration >= MIN_SUBSCRIPTION_PERIOD,
        fee_per_day >= 0,
    ensures
        spec_provider_fee(duration, fee_per_day) >= 0,
        spec_provider_fee(duration, fee_per_day) * (MIN_SUBSCRIPTION_PERIOD as int) <= duration
            * fee_per_day,
        duration * fee_per_day < (spec_provider_fee(duration, fee_per_day) + 1) * (
        MIN_SUBSCRIPTION_PERIOD as int),
{
    let paid = duration * fee_per_day;
    vstd::arithmetic::mul::lemma_mul_nonnegative(duration, fee_per_day);
    vstd::arithmetic::div_mod::lemma_fundamental_div_mod(paid, MIN_SUBSCRIPTION_PERIOD as int);
    vstd::arithmetic::div_mod::lemma_mod_bound(paid, MIN_SUBSCRIPTION_PERIOD as int);
    vstd::arithmetic::div_mod::lemma_div_pos_is_pos(paid, MIN_SUBSCRIPTION_PERIOD as int);
}

} // verus!
