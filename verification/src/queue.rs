//! The durable telemetry queue: an append-only FIFO of sampled measurements
//! with transactional batch dequeue.
//!
//! This module holds the queue's state and its whole transition logic; the
//! surrounding program mirrors every committed transition to the durable
//! store, using the record identifiers this type assigns.
use crate::types::Measurement;
use vstd::prelude::*;
use vstd::seq_lib::lemma_multiset_commutative;

verus! {

/// A measurement together with its storage-assigned identifier. The
/// identifier exists only for FIFO ordering and deletion.
pub struct QueueRecord {
    pub id: u64,
    pub measurement: Measurement,
}

/// Append-only FIFO queue of measurements. Records leave only through a
/// batch drain; a measurement whose upload then fails is re-appended as a
/// new record at the tail.
pub struct TelemetryQueue {
    pub records: Vec<QueueRecord>,
    /// The identifier the next appended record receives; strictly larger
    /// than every identifier already in the queue.
    pub next_id: u64,
}

/// The measurements of a record sequence, in record order.
pub open spec fn measurements_of(records: Seq<QueueRecord>) -> Seq<Measurement> {
    records.map_values(|r: QueueRecord| r.measurement)
}

/// How many records one drain call with this batch size removes: every
/// record, up to the batch size.
pub open spec fn drain_count(records: Seq<QueueRecord>, batch_size: int) -> int {
    if records.len() <= batch_size {
        records.len() as int
    } else {
        batch_size
    }
}

impl TelemetryQueue {
    /// Well-formed: identifiers strictly increase along the queue and stay
    /// below the next one to be assigned.
    pub open spec fn wf(self) -> bool {
        &&& forall|i: int, j: int|
            0 <= i < j < self.records@.len() ==> #[trigger] self.records@[i].id < #[trigger] self.records@[j].id
        &&& forall|i: int| 0 <= i < self.records@.len() ==> #[trigger] self.records@[i].id < self.next_id
    }

    /// The queued measurements, oldest first.
    pub open spec fn measurements(self) -> Seq<Measurement> {
        measurements_of(self.records@)
    }

    /// A fresh, empty queue. Identifiers start at 1, as the durable store's
    /// auto-incrementing key does.
    pub fn init() -> (q: TelemetryQueue)
        ensures
            q.wf(),
            q.measurements() =~= Seq::<Measurement>::empty(),
            q.records@ =~= Seq::<QueueRecord>::empty(),
            q.next_id == 1,
    {
        TelemetryQueue { records: Vec::new(), next_id: 1 }
    }

    /// Number of queued records.
    pub fn len(&self) -> (n: usize)
        ensures
            n == self.records@.len(),
    {
        self.records.len()
    }

    /// Durably append one measurement at the tail and return the identifier
    /// of its new record.
    pub fn append_measurement(&mut self, measurement: Measurement) -> (id: u64)
        requires
            old(self).wf(),
            old(self).next_id < u64::MAX,
        ensures
            final(self).wf(),
            id == old(self).next_id,
            final(self).next_id == old(self).next_id + 1,
            final(self).records@ == old(self).records@.push(
                QueueRecord { id: old(self).next_id, measurement },
            ),
            final(self).measurements() =~= old(self).measurements().push(measurement),
    {
        let id = self.next_id;
        self.records.push(QueueRecord { id, measurement });
        self.next_id = id + 1;
        proof {
            assert(self.measurements() =~= old(self).measurements().push(
                self.records@.last().measurement,
            ));
        }
        id
    }

    /// Atomically take the oldest records, up to `batch_size` of them,
    /// delete exactly those, and return their measurements in append order.
    /// Either the whole batch leaves the queue or, had the transaction not
    /// committed, none of it would have.
    pub fn get_and_clear_measurements(&mut self, batch_size: usize) -> (batch: Vec<Measurement>)
        requires
            old(self).wf(),
        ensures
            final(self).wf(),
            final(self).next_id == old(self).next_id,
            batch@ == old(self).measurements().take(
                drain_count(old(self).records@, batch_size as int),
            ),
            final(self).records@ == old(self).records@.skip(
                drain_count(old(self).records@, batch_size as int),
            ),
            final(self).measurements() == old(self).measurements().skip(
                drain_count(old(self).records@, batch_size as int),
            ),
    {
        let k = if self.records.len() <= batch_size {
            self.records.len()
        } else {
            batch_size
        };
        let ghost k_spec = drain_count(old(self).records@, batch_size as int);
        proof {
            assert(k == k_spec);
        }
        let mut batch: Vec<Measurement> = Vec::new();
        let mut i: usize = 0;
        while i < k
            invariant
                i <= k,
                k <= old(self).records@.len(),
                k == k_spec,
                self.next_id == old(self).next_id,
                self.records@ == old(self).records@.skip(i as int),
                batch@ == measurements_of(old(self).records@.take(i as int)),
            decreases k - i,
        {
            let record = self.records.remove(0);
            batch.push(record.measurement);
            proof {
                assert(old(self).records@.skip(i as int).remove(0) =~= old(
                    self,
                ).records@.skip(i + 1));
                assert(measurements_of(old(self).records@.take(i as int)).push(
                    record.measurement,
                ) =~= measurements_of(old(self).records@.take(i + 1)));
            }
            i = i + 1;
        }
        proof {
            assert(batch@ =~= old(self).measurements().take(k_spec));
            assert(self.measurements() =~= old(self).measurements().skip(k_spec));
            assert forall|a: int, b: int|
                0 <= a < b < self.records@.len() implies #[trigger] self.records@[a].id
                < #[trigger] self.records@[b].id by {
                assert(self.records@[a] == old(self).records@[k_spec + a]);
                assert(self.records@[b] == old(self).records@[k_spec + b]);
            }
            assert forall|a: int| 0 <= a < self.records@.len() implies #[trigger] self.records@[a].id
                < self.next_id by {
                assert(self.records@[a] == old(self).records@[k_spec + a]);
            }
        }
        batch
    }
}

/// Law: a drain whose batch size covers the whole queue returns every
/// queued measurement in append order and leaves the store empty.
pub proof fn lemma_fifo_drain_all(q: TelemetryQueue, batch_size: int)
    requires
        q.measurements().len() <= batch_size,
    ensures
        q.measurements().take(drain_count(q.records@, batch_size)) == q.measurements(),
        q.records@.skip(drain_count(q.records@, batch_size)).len() == 0,
{
    assert(q.measurements().take(drain_count(q.records@, batch_size)) =~= q.measurements());
}

/// Law: draining a prefix and re-appending it at the tail keeps the set of
/// queued measurements, with multiplicity, exactly what it was; only their
/// order can change.
pub proof fn lemma_reinsertion_preserves_content(ms: Seq<Measurement>, k: int)
    requires
        0 <= k <= ms.len(),
    ensures
        (ms.skip(k) + ms.take(k)).to_multiset() =~= ms.to_multiset(),
{
    lemma_multiset_commutative(ms.skip(k), ms.take(k));
    lemma_multiset_commutative(ms.take(k), ms.skip(k));
    assert(ms.take(k) + ms.skip(k) =~= ms);
}

} // verus!
