//! The subscribers directory.
//!
//! Each provider has an append-only list of every identity that has ever
//! subscribed to it. Entries are never removed, not even when a subscription
//! ends: the directory answers "has ever subscribed", not "is subscribed".

use vstd::prelude::*;
use crate::account::AccountId;

verus! {

/// A provider's append-only directory of past and present subscribers.
#[derive(Clone, Debug)]
pub struct SubscribersList {
    pub subscribers: Vec<AccountId>,
}

/// Creates an empty directory.
pub fn new_subscribers_list() -> (l: SubscribersList)
    ensures
        l.subscribers@ == Seq::<AccountId>::empty(),
{
    SubscribersList { subscribers: Vec::new() }
}

/// Appends one subscriber to the directory. Nothing is ever removed, and a
/// repeat subscriber is appended again.
pub fn record_subscriber(list: &mut SubscribersList, subscriber: AccountId)
    ensures
        final(list).subscribers@ == old(list).subscribers@.push(subscriber),
{
    list.subscribers.push(subscriber);
}

/// The directory's contents in insertion order, oldest first. No filtering
/// by current subscription state happens here: a caller that wants only the
/// active subscribers must cross-reference the subscription records.
pub fn get_subscribers(list: &SubscribersList) -> (r: Vec<AccountId>)
    ensures
        r@ == list.subscribers@,
{
    let mut out: Vec<AccountId> = Vec::new();
    let mut i: usize = 0;
    while i < list.subscribers.len()
        invariant
            i <= list.subscribers@.len(),
            out@ == list.subscribers@.take(i as int),
        decreases list.subscribers@.len() - i as int,
    {
        out.push(list.subscribers[i]);
        i = i + 1;
        proof {
            assert(out@ =~= list.subscribers@.take(i as int));
        }
    }
    proof {
        assert(out@ =~= list.subscribers@);
    }
    out
}

} // verus!
