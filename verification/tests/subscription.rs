use subscription_manager::account::AccountId;
use subscription_manager::config::{initialize, set_collector_fee, set_fee_per_day, State};
use subscription_manager::directory::{get_subscribers, new_subscribers_list};
use subscription_manager::errors::SubscriptionError;
use subscription_manager::fees::calculate_provider_fee;
use subscription_manager::credential::{verify_provider_credential, TokenAccountInfo};
use subscription_manager::lifecycle::{
    cancel_subscription, end_subscription, new_subscription, renew_subscription, subscribe,
    Subscription,
};
use subscription_manager::quality::{initialize_quality_info, store_data_quality};

use anchor_lang::prelude::Pubkey;
use anchor_spl::associated_token::get_associated_token_address;

fn id(n: u64) -> AccountId {
    AccountId::from_words(n, 0, 0, 0)
}

fn id_to_pubkey(a: &AccountId) -> Pubkey {
    let mut bytes = [0u8; 32];
    let words = [a.w0, a.w1, a.w2, a.w3];
    for i in 0..4 {
        bytes[i * 8..i * 8 + 8].copy_from_slice(&words[i].to_le_bytes());
    }
    Pubkey::new_from_array(bytes)
}

fn id_from_pubkey(pk: &Pubkey) -> AccountId {
    let b = pk.to_bytes();
    let mut words = [0u64; 4];
    for i in 0..4 {
        words[i] = u64::from_le_bytes(b[i * 8..i * 8 + 8].try_into().unwrap());
    }
    AccountId::from_words(words[0], words[1], words[2], words[3])
}

/// The address the credential check must accept for `provider` under `authority`,
/// computed independently of the library's own wrapper.
fn derived_credential_address(provider: &AccountId, authority: &AccountId) -> AccountId {
    let derived =
        get_associated_token_address(&id_to_pubkey(provider), &id_to_pubkey(authority));
    id_from_pubkey(&derived)
}

fn test_state() -> State {
    initialize(id(1), id(4), id(5))
}

fn valid_credential(provider: &AccountId, state: &State) -> TokenAccountInfo {
    TokenAccountInfo {
        address: derived_credential_address(provider, &state.nft_program_id),
        owner: *provider,
        amount: 1,
    }
}

#[test]
fn initialize_sets_unit_fees() {
    let s = test_state();
    assert_eq!(s.owner, id(1));
    assert_eq!(s.nft_program_id, id(4));
    assert_eq!(s.payment_spl_token, id(5));
    assert_eq!(s.fee_per_day, 1);
    assert_eq!(s.collector_fee, 1);
}

#[test]
fn provider_fee_exact_day() {
    assert_eq!(calculate_provider_fee(86400, 1), 1);
}

#[test]
fn provider_fee_two_days() {
    assert_eq!(calculate_provider_fee(172800, 1), 2);
}

#[test]
fn provider_fee_truncates_never_rounds_up() {
    // one second short of two days still pays for one day
    assert_eq!(calculate_provider_fee(172799, 1), 1);
    // one and a half days at rate two pays exactly three
    assert_eq!(calculate_provider_fee(129600, 2), 3);
    // zero rate charges nothing
    assert_eq!(calculate_provider_fee(86400, 0), 0);
}

#[test]
fn credential_check_accepts_derived_account() {
    let state = test_state();
    let provider = id(2);
    let cred = valid_credential(&provider, &state);
    assert_eq!(
        verify_provider_credential(provider, state.nft_program_id, &cred),
        Ok(())
    );
}

#[test]
fn credential_check_rejects_wrong_address() {
    // the provider's own wallet is not the derived credential account, so
    // supplying it must fail on the address check
    let state = test_state();
    let provider = id(2);
    let cred = TokenAccountInfo { address: provider, owner: provider, amount: 1 };
    assert_eq!(
        verify_provider_credential(provider, state.nft_program_id, &cred),
        Err(SubscriptionError::InvalidTokenAccount)
    );
}

#[test]
fn credential_check_rejects_foreign_owner_and_empty_account() {
    let state = test_state();
    let provider = id(2);
    let mut cred = valid_credential(&provider, &state);
    cred.owner = id(77);
    assert_eq!(
        verify_provider_credential(provider, state.nft_program_id, &cred),
        Err(SubscriptionError::InvalidNFTHolder)
    );
    let mut empty = valid_credential(&provider, &state);
    empty.amount = 0;
    assert_eq!(
        verify_provider_credential(provider, state.nft_program_id, &empty),
        Err(SubscriptionError::InvalidNFTHolder)
    );
}

#[test]
fn subscribe_exact_day_charges_two_units() {
    let state = test_state();
    let provider = id(2);
    let subscriber = id(3);
    let mut sub = new_subscription();
    let mut list = new_subscribers_list();
    let cred = valid_credential(&provider, &state);
    let now: i64 = 1_000_000;
    let (charge, event) = subscribe(
        &state,
        &mut sub,
        &mut list,
        &cred,
        subscriber,
        provider,
        "feed".to_string(),
        now + 86400,
        now,
    )
    .unwrap();
    assert_eq!(charge.to_provider, 1);
    assert_eq!(charge.to_owner, 1);
    assert_eq!(charge.to_owner + charge.to_provider, 2);
    assert_eq!(sub.end_time, now + 86400);
    assert_eq!(sub.recipient, "feed");
    assert_eq!(get_subscribers(&list), vec![subscriber]);
    assert_eq!(event.data_provider, provider);
    assert_eq!(event.subscriber, subscriber);
    assert_eq!(event.recipient, "feed");
    assert_eq!(event.end_time, now + 86400);
    assert_eq!(event.timestamp, now);
}

#[test]
fn subscribe_two_days_charges_two_provider_units() {
    let state = test_state();
    let provider = id(2);
    let mut sub = new_subscription();
    let mut list = new_subscribers_list();
    let cred = valid_credential(&provider, &state);
    let (charge, _) = subscribe(
        &state,
        &mut sub,
        &mut list,
        &cred,
        id(3),
        provider,
        String::new(),
        172800,
        0,
    )
    .unwrap();
    assert_eq!(charge.to_provider, 2);
}

#[test]
fn subscribe_short_period_fails_and_mutates_nothing() {
    let state = test_state();
    let provider = id(2);
    let mut sub = new_subscription();
    let mut list = new_subscribers_list();
    let cred = valid_credential(&provider, &state);
    let now: i64 = 1_000_000;
    let r = subscribe(
        &state,
        &mut sub,
        &mut list,
        &cred,
        id(3),
        provider,
        "x".to_string(),
        now + 86399,
        now,
    );
    assert_eq!(r.unwrap_err(), SubscriptionError::PeriodTooShort);
    assert_eq!(sub.end_time, 0);
    assert_eq!(sub.recipient, "");
    assert!(get_subscribers(&list).is_empty());
}

#[test]
fn renew_active_extends_from_old_end() {
    let state = test_state();
    let now: i64 = 10_000;
    let mut sub = Subscription { end_time: now + 500, recipient: "a".to_string() };
    let mut qi = initialize_quality_info();
    let (charge, event) = renew_subscription(
        &state,
        &mut sub,
        &mut qi,
        id(3),
        id(2),
        "b".to_string(),
        now + 500 + 86400,
        50,
        now,
    )
    .unwrap();
    assert_eq!(charge.to_provider, 1);
    assert_eq!(charge.to_owner, 1);
    assert_eq!(sub.end_time, now + 500 + 86400);
    assert_eq!(sub.recipient, "b");
    assert_eq!(event.new_end_time, now + 500 + 86400);
    assert_eq!(event.timestamp, now);
    // the quality report lands in slot 0, attributed to the acting subscriber
    assert_eq!(qi.qualities[0].provider, id(3));
    assert_eq!(qi.qualities[0].quality, 50);
    assert_eq!(qi.current_index, 1);
}

#[test]
fn renew_expired_starts_from_now() {
    let state = test_state();
    // expired ten days ago; the gap is never charged
    let now: i64 = 86400 * 20;
    let mut sub = Subscription { end_time: 86400 * 10, recipient: String::new() };
    let mut qi = initialize_quality_info();
    let (charge, _) = renew_subscription(
        &state,
        &mut sub,
        &mut qi,
        id(3),
        id(2),
        String::new(),
        now + 86400,
        50,
        now,
    )
    .unwrap();
    assert_eq!(charge.to_provider, 1);
    assert_eq!(sub.end_time, now + 86400);
}

#[test]
fn renew_missing_record_fails_not_found() {
    let state = test_state();
    let mut sub = new_subscription();
    let mut qi = initialize_quality_info();
    let r = renew_subscription(
        &state,
        &mut sub,
        &mut qi,
        id(3),
        id(2),
        String::new(),
        1_000_000,
        50,
        0,
    );
    assert_eq!(r.unwrap_err(), SubscriptionError::SubscriptionNotFound);
    assert_eq!(sub.end_time, 0);
    assert_eq!(qi.current_index, 0);
}

#[test]
fn renew_short_extension_fails_period_too_short() {
    let state = test_state();
    let now: i64 = 10_000;
    let mut sub = Subscription { end_time: now + 500, recipient: String::new() };
    let mut qi = initialize_quality_info();
    let r = renew_subscription(
        &state,
        &mut sub,
        &mut qi,
        id(3),
        id(2),
        String::new(),
        now + 500 + 86399,
        50,
        now,
    );
    assert_eq!(r.unwrap_err(), SubscriptionError::PeriodTooShort);
    assert_eq!(sub.end_time, now + 500);
}

#[test]
fn quality_above_hundred_rejected_everywhere_state_unchanged() {
    let state = test_state();
    let now: i64 = 10_000;
    let mut sub = Subscription { end_time: now + 500, recipient: "keep".to_string() };
    let mut qi = initialize_quality_info();

    let r = renew_subscription(
        &state, &mut sub, &mut qi, id(3), id(2), String::new(), now + 500 + 86400, 101, now,
    );
    assert_eq!(r.unwrap_err(), SubscriptionError::QualityOutOfRange);
    let r = cancel_subscription(&mut sub, &mut qi, id(3), id(2), 101, now);
    assert_eq!(r.unwrap_err(), SubscriptionError::QualityOutOfRange);
    let r = end_subscription(&mut sub, &mut qi, id(3), id(2), 101, now);
    assert_eq!(r.unwrap_err(), SubscriptionError::QualityOutOfRange);
    let r = store_data_quality(&mut qi, id(3), id(2), 101);
    assert_eq!(r.unwrap_err(), SubscriptionError::QualityOutOfRange);

    assert_eq!(sub.end_time, now + 500);
    assert_eq!(sub.recipient, "keep");
    assert_eq!(qi.current_index, 0);
    for rec in &qi.qualities {
        assert_eq!(rec.quality, 0);
        assert_eq!(rec.provider, AccountId::zero());
    }
    // the boundary score of exactly one hundred is accepted
    assert!(store_data_quality(&mut qi, id(3), id(2), 100).is_ok());
    assert_eq!(qi.qualities[0].quality, 100);
}

#[test]
fn cancel_active_clears_record() {
    let now: i64 = 50_000;
    let mut sub = Subscription { end_time: now + 10, recipient: "r".to_string() };
    let mut qi = initialize_quality_info();
    let event = cancel_subscription(&mut sub, &mut qi, id(3), id(2), 40, now).unwrap();
    assert_eq!(sub.end_time, 0);
    assert_eq!(sub.recipient, "");
    assert_eq!(qi.qualities[0].provider, id(3));
    assert_eq!(qi.qualities[0].quality, 40);
    assert_eq!(event.data_provider, id(2));
    assert_eq!(event.subscriber, id(3));
}

#[test]
fn cancel_at_or_after_end_fails_already_ended() {
    let now: i64 = 50_000;
    let mut qi = initialize_quality_info();
    // exactly at the end
    let mut sub = Subscription { end_time: now, recipient: "r".to_string() };
    let r = cancel_subscription(&mut sub, &mut qi, id(3), id(2), 40, now);
    assert_eq!(r.unwrap_err(), SubscriptionError::SubscriptionAlreadyEnded);
    assert_eq!(sub.end_time, now);
    assert_eq!(sub.recipient, "r");
    // after the end
    let mut sub = Subscription { end_time: now - 5, recipient: "r".to_string() };
    let r = cancel_subscription(&mut sub, &mut qi, id(3), id(2), 40, now);
    assert_eq!(r.unwrap_err(), SubscriptionError::SubscriptionAlreadyEnded);
}

#[test]
fn end_before_end_time_fails_active() {
    let now: i64 = 50_000;
    let mut qi = initialize_quality_info();
    let mut sub = Subscription { end_time: now + 1, recipient: "r".to_string() };
    let r = end_subscription(&mut sub, &mut qi, id(3), id(2), 40, now);
    assert_eq!(r.unwrap_err(), SubscriptionError::ActiveSubscription);
    assert_eq!(sub.end_time, now + 1);
}

#[test]
fn end_expired_clears_record() {
    let now: i64 = 50_000;
    let mut qi = initialize_quality_info();
    let mut sub = Subscription { end_time: now, recipient: "r".to_string() };
    let event = end_subscription(&mut sub, &mut qi, id(3), id(2), 40, now).unwrap();
    assert_eq!(sub.end_time, 0);
    assert_eq!(sub.recipient, "");
    assert_eq!(event.data_provider, id(2));
    assert_eq!(event.subscriber, id(3));
    // a cleared record cannot be ended again
    let r = end_subscription(&mut sub, &mut qi, id(3), id(2), 40, now);
    assert_eq!(r.unwrap_err(), SubscriptionError::SubscriptionNotFound);
}

#[test]
fn ring_buffer_keeps_last_ten_reports() {
    let mut qi = initialize_quality_info();
    // eleven standalone reports from distinct reporters, scores 1..=11
    for n in 1..=11u64 {
        let event = store_data_quality(&mut qi, id(n), id(2), n as u8).unwrap();
        assert_eq!(event.subscriber, id(n));
        assert_eq!(event.quality, n as u8);
    }
    // the eleventh wrapped around and overwrote slot 0
    assert_eq!(qi.qualities[0].provider, id(11));
    assert_eq!(qi.qualities[0].quality, 11);
    // slots 1..=9 still hold reporters 2..=10
    for slot in 1..=9usize {
        assert_eq!(qi.qualities[slot].provider, id(slot as u64 + 1));
        assert_eq!(qi.qualities[slot].quality, slot as u8 + 1);
    }
    assert_eq!(qi.current_index, 1);
}

#[test]
fn fresh_quality_log_is_all_default() {
    let qi = initialize_quality_info();
    assert_eq!(qi.current_index, 0);
    assert_eq!(qi.subscriber, AccountId::zero());
    assert_eq!(qi.quality, 0);
    assert_eq!(qi.qualities.len(), 10);
    for rec in &qi.qualities {
        assert_eq!(rec.provider, AccountId::zero());
        assert_eq!(rec.quality, 0);
    }
}

#[test]
fn non_owner_cannot_change_fees() {
    let mut state = test_state();
    let r = set_collector_fee(&mut state, id(99), 5);
    assert_eq!(r.unwrap_err(), SubscriptionError::NotOwner);
    assert_eq!(state.collector_fee, 1);
    let r = set_fee_per_day(&mut state, id(99), 7);
    assert_eq!(r.unwrap_err(), SubscriptionError::NotOwner);
    assert_eq!(state.fee_per_day, 1);
}

#[test]
fn owner_changes_fees() {
    let mut state = test_state();
    let event = set_fee_per_day(&mut state, id(1), 3).unwrap();
    assert_eq!(event.new_fee_per_day, 3);
    assert_eq!(state.fee_per_day, 3);
    let event = set_collector_fee(&mut state, id(1), 9).unwrap();
    assert_eq!(event.new_collector_fee, 9);
    assert_eq!(state.collector_fee, 9);
    assert_eq!(state.owner, id(1));
}

#[test]
fn directory_is_append_only_in_order() {
    let mut list = new_subscribers_list();
    assert!(get_subscribers(&list).is_empty());
    let state = test_state();
    let provider = id(2);
    let cred = valid_credential(&provider, &state);
    for n in [7u64, 8, 7] {
        let mut sub = new_subscription();
        subscribe(
            &state,
            &mut sub,
            &mut list,
            &cred,
            id(n),
            provider,
            String::new(),
            86400,
            0,
        )
        .unwrap();
    }
    // repeat subscribers stay listed once per subscription, in order
    assert_eq!(get_subscribers(&list), vec![id(7), id(8), id(7)]);
}
