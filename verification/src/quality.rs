//! The quality ring buffer.
//!
//! Each provider has a fixed-capacity log of quality reports. A write goes to
//! the slot under the next-write index and advances the index modulo the
//! capacity, overwriting the oldest report once the log is full: only the
//! last ten reports are ever retained.
//!
//! As in the ledger's record layout, a report's `provider` field carries the
//! identity of the reporting subscriber, not of the provider being rated; the
//! provider is fixed by which log the report sits in.

use vstd::prelude::*;
use crate::account::AccountId;
use crate::errors::SubscriptionError;
use crate::events::QualityProvidedEvent;

verus! {

/// How many quality reports a provider's log retains.
pub const MAX_QUALITY_RECORDS: usize = 10;

/// The largest admissible quality score.
pub const MAX_QUALITY_SCORE: u8 = 100;

/// One quality report: the reporting identity and a score of at most 100.
#[derive(Clone, Copy, PartialEq, Eq, Structural, Debug)]
pub struct QualityRecord {
    pub provider: AccountId,
    pub quality: u8,
}

/// A provider's quality log: a fixed array of reports plus the index of the
/// slot the next report will overwrite.
#[derive(Clone, Debug)]
pub struct QualityInfo {
    pub subscriber: AccountId,
    pub quality: u8,
    pub current_index: u8,
    pub qualities: Vec<QualityRecord>,
}

impl QualityInfo {
    /// Well-formedness: exactly `MAX_QUALITY_RECORDS` slots, and the
    /// next-write index points at one of them.
    pub open spec fn wf(self) -> bool {
        &&& self.qualities@.len() == MAX_QUALITY_RECORDS as int
        &&& (self.current_index as int) < MAX_QUALITY_RECORDS as int
    }
}

/// Creates a fresh quality log: index zero, every slot holding the all-zero
/// reporter with score zero.
pub fn initialize_quality_info() -> (q: QualityInfo)
    ensures
        q.wf(),
        q.current_index == 0,
        q.subscriber == AccountId::spec_zero(),
        q.quality == 0,
        forall|i: int|
            0 <= i < MAX_QUALITY_RECORDS as int ==> q.qualities@[i] == (QualityRecord {
                provider: AccountId::spec_zero(),
                quality: 0u8,
            }),
{
    let mut qualities: Vec<QualityRecord> = Vec::new();
    let mut i: usize = 0;
    while i < MAX_QUALITY_RECORDS
        invariant
            i <= MAX_QUALITY_RECORDS,
            qualities@.len() == i as int,
            forall|j: int|
                0 <= j < i as int ==> qualities@[j] == (QualityRecord {
                    provider: AccountId::spec_zero(),
                    quality: 0u8,
                }),
        decreases MAX_QUALITY_RECORDS - i,
    {
        qualities.push(QualityRecord { provider: AccountId::zero(), quality: 0 });
        i = i + 1;
    }
    QualityInfo { subscriber: AccountId::zero(), quality: 0, current_index: 0, qualities }
}

/// Writes one report into the slot under the next-write index and advances
/// the index modulo the capacity.
pub fn store_quality_record(quality_info: &mut QualityInfo, reporter: AccountId, quality: u8)
    requires
        old(quality_info).wf(),
        quality <= MAX_QUALITY_SCORE,
    ensures
        final(quality_info).wf(),
        final(quality_info).qualities@ == old(quality_info).qualities@.update(
            old(quality_info).current_index as int,
            QualityRecord { provider: reporter, quality },
        ),
        final(quality_info).current_index as int == (old(quality_info).current_index as int + 1)
            % (MAX_QUALITY_RECORDS as int),
        final(quality_info).subscriber == old(quality_info).subscriber,
        final(quality_info).quality == old(quality_info).quality,
{
    let idx: usize = quality_info.current_index as usize;
    quality_info.qualities.set(idx, QualityRecord { provider: reporter, quality });
    quality_info.current_index = (quality_info.current_index + 1) % (MAX_QUALITY_RECORDS as u8);
}

/// Records a standalone quality report for a provider: no subscription state
/// is consulted, only the score's range. On a score above 100 the log is
/// unchanged and the operation fails `QualityOutOfRange`.
pub fn store_data_quality(
    quality_info: &mut QualityInfo,
    subscriber: AccountId,
    data_provider: AccountId,
    quality: u8,
) -> (r: Result<QualityProvidedEvent, SubscriptionError>)
    requires
        old(quality_info).wf(),
    ensures
        final(quality_info).wf(),
        quality > MAX_QUALITY_SCORE ==> r == Err::<QualityProvidedEvent, SubscriptionError>(
            SubscriptionError::QualityOutOfRange,
        ) && *final(quality_info) == *old(quality_info),
        quality <= MAX_QUALITY_SCORE ==> {
            &&& r == Ok::<QualityProvidedEvent, SubscriptionError>(QualityProvidedEvent {
                data_provider,
                subscriber,
                quality,
            })
            &&& final(quality_info).qualities@ == old(quality_info).qualities@.update(
                old(quality_info).current_index as int,
                QualityRecord { provider: subscriber, quality },
            )
            &&& final(quality_info).current_index as int == (old(quality_info).current_index as int
                + 1) % (MAX_QUALITY_RECORDS as int)
            &&& final(quality_info).subscriber == old(quality_info).subscriber
            &&& final(quality_info).quality == old(quality_info).quality
        },
{
    if quality > MAX_QUALITY_SCORE {
        return Err(SubscriptionError::QualityOutOfRange);
    }
    store_quality_record(quality_info, subscriber, quality);
    Ok(QualityProvidedEvent { data_provider, subscriber, quality })
}

/// The slots and next-write index after a sequence of reports is written
/// into a log, one `store_quality_record` step per report.
pub open spec fn ring_state_after(
    slots: Seq<QualityRecord>,
    index: int,
    reports: Seq<QualityRecord>,
) -> (Seq<QualityRecord>, int)
    decreases reports.len(),
{
    if reports.len() == 0 {
        (slots, index)
    } else {
        ring_state_after(
            slots.update(index, reports[0]),
            (index + 1) % (MAX_QUALITY_RECORDS as int),
            reports.drop_first(),
        )
    }
}

/// Writing one more report is one write-and-advance step on the state the
/// earlier reports left behind.
pub proof fn lemma_ring_state_snoc(
    slots: Seq<QualityRecord>,
    index: int,
    reports: Seq<QualityRecord>,
    rec: QualityRecord,
)
    ensures
        ring_state_after(slots, index, reports.push(rec)) == ({
            let (s, i) = ring_state_after(slots, index, reports);
            (s.update(i, rec), (i + 1) % (MAX_QUALITY_RECORDS as int))
        }),
    decreases reports.len(),
{
    let cap = MAX_QUALITY_RECORDS as int;
    let pushed = reports.push(rec);
    if reports.len() == 0 {
        assert(pushed[0] == rec);
        assert(pushed.drop_first() =~= Seq::<QualityRecord>::empty());
        assert(ring_state_after(slots, index, pushed) == ring_state_after(
            slots.update(index, rec),
            (index + 1) % cap,
            Seq::<QualityRecord>::empty(),
        ));
        assert(ring_state_after(
            slots.update(index, rec),
            (index + 1) % cap,
            Seq::<QualityRecord>::empty(),
        ) == (slots.update(index, rec), (index + 1) % cap));
        assert(ring_state_after(slots, index, reports) == (slots, index));
    } else {
        assert(pushed[0] == reports[0]);
        assert(pushed.drop_first() =~= reports.drop_first().push(rec));
        lemma_ring_state_snoc(
            slots.update(index, reports[0]),
            (index + 1) % cap,
            reports.drop_first(),
            rec,
        );
        assert(ring_state_after(slots, index, pushed) == ring_state_after(
            slots.update(index, reports[0]),
            (index + 1) % cap,
            reports.drop_first().push(rec),
        ));
        assert(ring_state_after(slots, index, reports) == ring_state_after(
            slots.update(index, reports[0]),
            (index + 1) % cap,
            reports.drop_first(),
        ));
    }
}

/// After a full log of reports or more, written from a fresh index, the ring
/// holds exactly the last `MAX_QUALITY_RECORDS` reports: report `j` sits in
/// slot `j % MAX_QUALITY_RECORDS`, and the next-write index equals the report
/// count modulo the capacity. Everything older has been overwritten.
pub proof fn lemma_ring_keeps_last_capacity(
    slots: Seq<QualityRecord>,
    reports: Seq<QualityRecord>,
)
    requires
        slots.len() == MAX_QUALITY_RECORDS as int,
        reports.len() >= MAX_QUALITY_RECORDS as int,
    ensures
        ring_state_after(slots, 0, reports).0.len() == MAX_QUALITY_RECORDS as int,
        ring_state_after(slots, 0, reports).1 == reports.len() as int % (
        MAX_QUALITY_RECORDS as int),
        forall|j: int|
            reports.len() - MAX_QUALITY_RECORDS as int <= j < reports.len()
                ==> ring_state_after(slots, 0, reports).0[j % (MAX_QUALITY_RECORDS as int)]
                == reports[j],
{
    lemma_ring_progress(slots, reports);
}

/// Induction workhorse for `lemma_ring_keeps_last_capacity`, stated for any
/// number of reports.
proof fn lemma_ring_progress(slots: Seq<QualityRecord>, reports: Seq<QualityRecord>)
    requires
        slots.len() == MAX_QUALITY_RECORDS as int,
    ensures
        ring_state_after(slots, 0, reports).0.len() == MAX_QUALITY_RECORDS as int,
        ring_state_after(slots, 0, reports).1 == reports.len() as int % (
        MAX_QUALITY_RECORDS as int),
        forall|j: int|
            0 <= j < reports.len() && reports.len() - MAX_QUALITY_RECORDS as int <= j
                ==> ring_state_after(slots, 0, reports).0[j % (MAX_QUALITY_RECORDS as int)]
                == reports[j],
    decreases reports.len(),
{
    let cap = MAX_QUALITY_RECORDS as int;
    if reports.len() == 0 {
        assert(0int % cap == 0) by {
            vstd::arithmetic::div_mod::lemma_small_mod(0nat, cap as nat);
        }
    } else {
        let n = reports.len() as int;
        let prefix = reports.drop_last();
        let last = reports.last();
        lemma_ring_progress(slots, prefix);
        lemma_ring_state_snoc(slots, 0, prefix, last);
        assert(prefix.push(last) =~= reports);
        let (pslots, pindex) = ring_state_after(slots, 0, prefix);
        let (aslots, aindex) = ring_state_after(slots, 0, reports);
        assert(pindex == (n - 1) % cap);
        assert(aslots == pslots.update(pindex, last));
        lemma_mod_step(n - 1, cap);
        assert(aindex == n % cap);
        vstd::arithmetic::div_mod::lemma_mod_division_less_than_divisor(n - 1, cap);
        assert(aslots[(n - 1) % cap] == last);
        assert forall|j: int| 0 <= j < n - 1 && n - cap <= j implies aslots[j % cap]
            == reports[j] by {
            vstd::arithmetic::div_mod::lemma_mod_division_less_than_divisor(j, cap);
            lemma_mod_distinct_in_window(j, n - 1, cap);
            assert(pslots[j % cap] == prefix[j]);
        }
    }
}

/// Advancing by one step commutes with the modulus: `(a % m + 1) % m` is
/// `(a + 1) % m`.
proof fn lemma_mod_step(a: int, m: int)
    requires
        m > 1,
    ensures
        (a % m + 1) % m == (a + 1) % m,
{
    vstd::arithmetic::div_mod::lemma_add_mod_noop(a, 1, m);
    vstd::arithmetic::div_mod::lemma_small_mod(1nat, m as nat);
    assert((a % m + 1int % m) % m == (a + 1) % m);
}

/// Two distinct numbers less than one modulus apart have distinct residues.
proof fn lemma_mod_distinct_in_window(j: int, k: int, m: int)
    requires
        m > 0,
        j < k,
        k - j < m,
    ensures
        j % m != k % m,
{
    let d = k - j;
    vstd::arithmetic::div_mod::lemma_mod_division_less_than_divisor(j, m);
    vstd::arithmetic::div_mod::lemma_add_mod_noop(j, d, m);
    vstd::arithmetic::div_mod::lemma_small_mod(d as nat, m as nat);
    assert((j % m + d) % m == k % m);
    if j % m + d < m {
        vstd::arithmetic::div_mod::lemma_small_mod((j % m + d) as nat, m as nat);
    } else {
        vstd::arithmetic::div_mod::lemma_mod_sub_multiples_vanish(j % m + d, m);
        vstd::arithmetic::div_mod::lemma_small_mod((j % m + d - m) as nat, m as nat);
    }
}

} // verus!
