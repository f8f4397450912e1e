//! The replay ledger: the record of every request that was accepted.
//!
//! A request UUID is recorded once, with the time at which it was recorded,
//! and a record never changes. Records leave the ledger only when old
//! records are cleaned up.

use crate::db::error::StoreError;
use crate::db::models::HistoricalRequest;
use crate::util::time::Timestamp;
use crate::util::uuid::Uuid;
use vstd::prelude::*;
use vstd::string::StringExecFns;

verus! {

/// Whether no two records are of one request UUID.
pub open spec fn has_distinct_requests(records: Seq<HistoricalRequest>) -> bool {
    forall|i: int, j: int|
        0 <= i < j < records.len() ==> (#[trigger] records[i]).request_uuid != (
        #[trigger] records[j]).request_uuid
}

/// Whether there is a record of the request UUID.
pub open spec fn is_recorded(records: Seq<HistoricalRequest>, request_uuid: Uuid) -> bool {
    exists|i: int| 0 <= i < records.len() && (#[trigger] records[i]).request_uuid == request_uuid
}

/// The time of each recorded request UUID.
pub open spec fn recorded(records: Seq<HistoricalRequest>) -> Map<Uuid, Timestamp> {
    Map::new(
        |request_uuid: Uuid| is_recorded(records, request_uuid),
        |request_uuid: Uuid|
            records[choose|i: int|
                0 <= i < records.len() && (#[trigger] records[i]).request_uuid
                    == request_uuid].timestamp,
    )
}

/// The records that cleaning up leaves: those that are not older than the
/// cutoff.
pub open spec fn not_older_than(seen: Map<Uuid, Timestamp>, cutoff: Timestamp) -> Map<
    Uuid,
    Timestamp,
> {
    Map::new(
        |request_uuid: Uuid|
            seen.contains_key(request_uuid) && !seen[request_uuid].is_before(cutoff),
        |request_uuid: Uuid| seen[request_uuid],
    )
}

/// Among records of distinct request UUIDs, the time recorded for the UUID
/// of a record is the time of that record.
proof fn lemma_recorded_at(records: Seq<HistoricalRequest>, at: int)
    requires
        has_distinct_requests(records),
        0 <= at < records.len(),
    ensures
        recorded(records).contains_key(records[at].request_uuid),
        recorded(records)[records[at].request_uuid] == records[at].timestamp,
{
}

/// The record of every request that was accepted.
#[derive(Debug)]
pub struct ReplayLedger {
    records: Vec<HistoricalRequest>,
}

impl View for ReplayLedger {
    type V = Map<Uuid, Timestamp>;

    closed spec fn view(&self) -> Map<Uuid, Timestamp> {
        recorded(self.records@)
    }
}

impl ReplayLedger {
    #[verifier::type_invariant]
    spec fn one_record_per_request(&self) -> bool {
        has_distinct_requests(self.records@)
    }

    /// A ledger without records.
    pub fn new() -> (ledger: ReplayLedger)
        ensures
            ledger@ == Map::<Uuid, Timestamp>::empty(),
    {
        let ledger = ReplayLedger { records: Vec::new() };
        ledger
    }

    /// The number of records.
    pub fn len(&self) -> (count: usize)
        ensures
            count == self@.dom().len(),
            self@.dom().finite(),
    {
        proof {
            use_type_invariant(self);
            lemma_recorded_count(self.records@);
        }
        self.records.len()
    }

    /// The position of the record of a request UUID.
    fn position(&self, request_uuid: Uuid) -> (found: Option<usize>)
        ensures
            match found {
                Some(at) => at < self.records@.len() && self.records@[at as int].request_uuid
                    == request_uuid,
                None => !is_recorded(self.records@, request_uuid),
            },
    {
        let mut at: usize = 0;
        while at < self.records.len()
            invariant
                at <= self.records@.len(),
                forall|j: int|
                    0 <= j < at ==> (#[trigger] self.records@[j]).request_uuid != request_uuid,
            decreases self.records@.len() - at,
        {
            if self.records[at].request_uuid == request_uuid {
                return Some(at);
            }
            at = at + 1;
        }
        None
    }

    /// Whether the request UUID is recorded.
    pub fn contains(&self, request_uuid: Uuid) -> (seen: bool)
        ensures
            seen == self@.contains_key(request_uuid),
    {
        self.position(request_uuid).is_some()
    }

    /// The time at which the request UUID was recorded, if it is recorded.
    pub fn seen_at(&self, request_uuid: Uuid) -> (time: Option<Timestamp>)
        ensures
            time == if self@.contains_key(request_uuid) {
                Some(self@[request_uuid])
            } else {
                None
            },
    {
        match self.position(request_uuid) {
            Some(at) => {
                proof {
                    use_type_invariant(self);
                    lemma_recorded_at(self.records@, at as int);
                }
                Some(self.records[at].timestamp)
            },
            None => None,
        }
    }

    /// Records a request UUID with the time `now`, unless it is recorded
    /// already: finding out and recording are one step.
    pub fn insert(&mut self, request_uuid: Uuid, now: Timestamp) -> (inserted: Result<
        (),
        StoreError,
    >)
        ensures
            inserted is Ok <==> !old(self)@.contains_key(request_uuid),
            inserted is Ok ==> final(self)@ == old(self)@.insert(request_uuid, now),
            inserted is Err ==> final(self)@ == old(self)@ && inserted->Err_0 is UniqueViolation,
    {
        proof {
            use_type_invariant(&*self);
        }
        if self.contains(request_uuid) {
            return Err(StoreError::UniqueViolation(String::from_str("request_uuid")));
        }
        let mut records: Vec<HistoricalRequest> = Vec::new();
        core::mem::swap(&mut self.records, &mut records);
        let ghost before = records@;
        records.push(HistoricalRequest { request_uuid, timestamp: now });
        proof {
            let after = records@;
            assert forall|id: Uuid|
                recorded(after).contains_key(id) <==> #[trigger] recorded(before).insert(
                    request_uuid,
                    now,
                ).contains_key(id) by {
                if is_recorded(after, id) {
                    let k = choose|k: int|
                        0 <= k < after.len() && (#[trigger] after[k]).request_uuid == id;
                    if k < before.len() {
                        assert(before[k].request_uuid == id);
                    }
                }
                if is_recorded(before, id) {
                    let k = choose|k: int|
                        0 <= k < before.len() && (#[trigger] before[k]).request_uuid == id;
                    assert(after[k].request_uuid == id);
                }
                if id == request_uuid {
                    assert(after[before.len() as int].request_uuid == id);
                }
            }
        }
        self.records = records;
        Ok(())
    }

    /// Removes the records that are older than the cutoff, and returns how
    /// many there were.
    pub fn remove_older_than(&mut self, cutoff: Timestamp) -> (removed: usize)
        ensures
            final(self)@ == not_older_than(old(self)@, cutoff),
            removed == old(self)@.dom().len() - final(self)@.dom().len(),
    {
        proof {
            use_type_invariant(&*self);
        }
        let mut records: Vec<HistoricalRequest> = Vec::new();
        core::mem::swap(&mut self.records, &mut records);
        let mut kept: Vec<HistoricalRequest> = Vec::new();
        let mut removed: usize = 0;
        let mut at: usize = 0;
        while at < records.len()
            invariant
                at <= records@.len(),
                removed + kept@.len() == at,
                has_distinct_requests(records@),
                has_distinct_requests(kept@),
                forall|k: int|
                    0 <= k < kept@.len() ==> exists|i: int|
                        0 <= i < at && records@[i] == #[trigger] kept@[k],
                forall|i: int|
                    0 <= i < at && !(#[trigger] records@[i]).timestamp.is_before(cutoff)
                        ==> exists|k: int| 0 <= k < kept@.len() && kept@[k] == records@[i],
                forall|k: int|
                    0 <= k < kept@.len() ==> !(#[trigger] kept@[k]).timestamp.is_before(cutoff),
            decreases records@.len() - at,
        {
            let record = records[at];
            if record.timestamp.precedes(&cutoff) {
                removed = removed + 1;
            } else {
                let ghost before = kept@;
                kept.push(record);
                proof {
                    assert forall|i: int|
                        0 <= i < at + 1 && !(#[trigger] records@[i]).timestamp.is_before(
                            cutoff,
                        ) implies exists|k: int|
                        0 <= k < kept@.len() && kept@[k] == records@[i] by {
                        if i < at {
                            let k = choose|k: int|
                                0 <= k < before.len() && before[k] == records@[i];
                            assert(kept@[k] == records@[i]);
                        } else {
                            assert(kept@[before.len() as int] == records@[i]);
                        }
                    }
                }
            }
            at = at + 1;
        }
        proof {
            let all = records@;
            let left = kept@;
            lemma_recorded_count(all);
            lemma_recorded_count(left);
        }
        self.records = kept;
        removed
    }
}

/// Records of distinct request UUIDs record as many UUIDs as there are
/// records.
proof fn lemma_recorded_count(records: Seq<HistoricalRequest>)
    requires
        has_distinct_requests(records),
    ensures
        recorded(records).dom().finite(),
        recorded(records).dom().len() == records.len(),
    decreases records.len(),
{
    if records.len() == 0 {
        assert(recorded(records).dom() =~= Set::<Uuid>::empty());
    } else {
        let front = records.drop_last();
        let last = records.last();
        lemma_recorded_count(front);
        assert(recorded(records).dom() =~= recorded(front).dom().insert(last.request_uuid)) by {
            assert forall|id: Uuid|
                recorded(records).dom().contains(id) <==> recorded(front).dom().insert(
                    last.request_uuid,
                ).contains(id) by {
                if is_recorded(records, id) {
                    let k = choose|k: int|
                        0 <= k < records.len() && (#[trigger] records[k]).request_uuid == id;
                    if k < front.len() {
                        assert(front[k].request_uuid == id);
                    }
                }
                if is_recorded(front, id) {
                    let k = choose|k: int|
                        0 <= k < front.len() && (#[trigger] front[k]).request_uuid == id;
                    assert(records[k].request_uuid == id);
                }
            }
        }
    }
}

} // verus!
