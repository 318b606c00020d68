//! Forwarding the event log's change feed to the outbound stream.
//!
//! Every inserted row of a batch is attempted on its own; a row that fails to decode or to
//! publish is reported by its identifier, and the rows after it are still attempted.

use vstd::prelude::*;
use vstd::utf8::{decode_utf8, valid_utf8};
use crate::event::DomainEvent;
use crate::store::EventLog;
use crate::text::{str_eq, string_from_utf8};

verus! {

/// A row of the event log, as decoded from the change feed's new image.
#[derive(Clone, Debug)]
pub struct EventLogRecord {
    pub aggregate_type_and_id: String,
    pub event_type: String,
    pub aggregate_id: String,
    pub aggregate_type: String,
    pub metadata: Vec<u8>,
    pub payload: Vec<u8>,
    pub event_version: String,
    pub aggregate_id_sequence: usize,
}

/// Publisher errors.
#[derive(Debug, PartialEq, Eq)]
pub enum Error {
    /// An attribute of the record is missing or malformed
    Invalid {
        /// The attribute at fault
        attribute: String,
    },
}

/// An invalid attribute error naming `attribute`.
pub open spec fn spec_is_invalid(e: Error, attribute: Seq<char>) -> bool {
    e matches Error::Invalid { attribute: a } && a@ == attribute
}

/// `d` is the canonical envelope of the event log row `event`.
pub open spec fn spec_envelope_of(event: EventLogRecord, d: DomainEvent) -> bool {
    &&& d.id == event.aggregate_id
    &&& d.entity == event.aggregate_type
    &&& d.sequence == event.aggregate_id_sequence
    &&& d.event_type == event.event_type
    &&& d.event_version == event.event_version
    &&& d.payload@ == decode_utf8(event.payload@)
    &&& d.metadata@ == decode_utf8(event.metadata@)
}

impl DomainEvent {
    /// Builds the canonical envelope of an event log row; its payload and metadata must be
    /// UTF-8 text.
    pub fn try_from(event: EventLogRecord) -> (r: Result<DomainEvent, Error>)
        ensures
            r is Ok <==> valid_utf8(event.payload@) && valid_utf8(event.metadata@),
            !valid_utf8(event.payload@) ==> r is Err && spec_is_invalid(r->Err_0, "Payload"@),
            valid_utf8(event.payload@) && !valid_utf8(event.metadata@) ==> r is Err
                && spec_is_invalid(r->Err_0, "Metadata"@),
            r is Ok ==> spec_envelope_of(event, r->Ok_0),
    {
        let payload = match string_from_utf8(event.payload) {
            Some(s) => s,
            None => return Err(Error::Invalid { attribute: String::from_str("Payload") }),
        };
        let metadata = match string_from_utf8(event.metadata) {
            Some(s) => s,
            None => return Err(Error::Invalid { attribute: String::from_str("Metadata") }),
        };
        Ok(
            DomainEvent::new(
                event.aggregate_id,
                event.aggregate_type,
                event.aggregate_id_sequence,
                event.event_type,
                event.event_version,
                payload,
                metadata,
            ),
        )
    }
}

/// The message to publish for an event log row: the partition key, which is the aggregate
/// type, and the canonical envelope.
pub fn forward_message(record: EventLogRecord) -> (r: Result<(String, DomainEvent), Error>)
    ensures
        r is Ok <==> valid_utf8(record.payload@) && valid_utf8(record.metadata@),
        !valid_utf8(record.payload@) ==> r is Err && spec_is_invalid(r->Err_0, "Payload"@),
        valid_utf8(record.payload@) && !valid_utf8(record.metadata@) ==> r is Err
            && spec_is_invalid(r->Err_0, "Metadata"@),
        r is Ok ==> r->Ok_0.0 == record.aggregate_type && spec_envelope_of(record, r->Ok_0.1),
{
    let key = record.aggregate_type.clone();
    match DomainEvent::try_from(record) {
        Ok(event) => Ok((key, event)),
        Err(e) => Err(e),
    }
}

/// Forwarding keeps sequence numbers gapless: when the rows of a well-formed log are
/// forwarded in commit order, the envelopes that consumers see carry 1, 2, 3, ...
pub proof fn lemma_forwarded_sequences_gapless(
    log: EventLog,
    rows: Seq<EventLogRecord>,
    forwarded: Seq<DomainEvent>,
)
    requires
        log.wf(),
        rows.len() == log.events@.len(),
        forwarded.len() == rows.len(),
        forall|k: int|
            0 <= k < rows.len() ==> (#[trigger] rows[k]).aggregate_id_sequence
                == log.events@[k].sequence && rows[k].aggregate_id == log.aggregate_id,
        forall|k: int| 0 <= k < rows.len() ==> spec_envelope_of(rows[k], #[trigger] forwarded[k]),
    ensures
        forall|k: int|
            0 <= k < forwarded.len() ==> (#[trigger] forwarded[k]).sequence == k + 1
                && forwarded[k].id == log.aggregate_id,
{
    assert forall|k: int| 0 <= k < forwarded.len() implies (#[trigger] forwarded[k]).sequence
        == k + 1 && forwarded[k].id == log.aggregate_id by {
        assert(spec_envelope_of(rows[k], forwarded[k]));
        assert(log.events@[k].sequence == k + 1);
    }
}

/// The header of one change-feed record: its identifier and the kind of change.
#[derive(Clone, Debug, PartialEq, Eq)]
pub struct ChangeRecord {
    pub event_id: String,
    /// `INSERT`, `MODIFY` or `REMOVE`
    pub event_name: String,
}

/// Only inserted rows are forwarded.
pub open spec fn spec_is_insert(r: ChangeRecord) -> bool {
    r.event_name@ == "INSERT"@
}

/// Whether a change-feed record is an inserted row, the only kind that is forwarded.
pub fn is_insert(record: &ChangeRecord) -> (r: bool)
    ensures
        r == spec_is_insert(*record),
{
    str_eq(record.event_name.as_str(), "INSERT")
}

/// The progress of forwarding one batch: the records, the position reached, and the
/// identifiers of the records that failed so far.
pub struct ForwardBatch {
    pub records: Vec<ChangeRecord>,
    pub next: usize,
    pub failures: Vec<String>,
}

impl ForwardBatch {
    pub open spec fn wf(&self) -> bool {
        self.next <= self.records@.len()
    }

    /// A batch at its start, with no failures.
    pub fn new(records: Vec<ChangeRecord>) -> (r: ForwardBatch)
        ensures
            r.wf(),
            r.records == records,
            r.next == 0,
            r.failures@.len() == 0,
    {
        ForwardBatch { records, next: 0, failures: Vec::new() }
    }

    /// Skips the records that are not inserts and returns the position of the next record to
    /// forward, or `None` once the batch is exhausted.
    pub fn next_record(&mut self) -> (r: Option<usize>)
        requires
            old(self).wf(),
        ensures
            final(self).wf(),
            final(self).records == old(self).records,
            final(self).failures == old(self).failures,
            old(self).next <= final(self).next,
            forall|k: int|
                (old(self).next as int) <= k && k < (final(self).next as int) ==> !spec_is_insert(
                    #[trigger] final(self).records@[k],
                ),
            r is Some ==> {
                &&& r->Some_0 == final(self).next
                &&& (final(self).next as int) < (final(self).records@.len() as int)
                &&& spec_is_insert(final(self).records@[final(self).next as int])
            },
            r is None ==> final(self).next == final(self).records@.len(),
    {
        while self.next < self.records.len()
            invariant
                self.wf(),
                self.records == old(self).records,
                self.failures == old(self).failures,
                old(self).next <= self.next,
                forall|k: int|
                    old(self).next <= k < self.next ==> !spec_is_insert(
                        #[trigger] self.records@[k],
                    ),
            decreases self.records.len() - self.next,
        {
            if is_insert(&self.records[self.next]) {
                return Some(self.next);
            }
            self.next = self.next + 1;
        }
        None
    }

    /// Records the outcome of forwarding the current record and moves past it.
    pub fn report(&mut self, ok: bool)
        requires
            old(self).wf(),
            old(self).next < old(self).records@.len(),
        ensures
            final(self).wf(),
            final(self).records == old(self).records,
            final(self).next == old(self).next + 1,
            ok ==> final(self).failures == old(self).failures,
            !ok ==> final(self).failures@ == old(self).failures@.push(
                old(self).records@[old(self).next as int].event_id,
            ),
    {
        let len = self.records.len();
        assert(self.next < len);
        if !ok {
            let id = self.records[self.next].event_id.clone();
            self.failures.push(id);
        }
        self.next = self.next + 1;
    }

    /// The identifiers of the records that failed, in batch order.
    pub fn finish(self) -> (r: Vec<String>)
        ensures
            r == self.failures,
    {
        self.failures
    }
}

} // verus!
