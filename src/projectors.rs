//! Auditing stream batches into durable storage.
//!
//! The records of a batch are written in order. Once one fails, it and every record after it
//! are reported as failed without being attempted, so the audit trail never holds an event
//! while an earlier one of the batch is missing.

use vstd::prelude::*;
use vstd::utf8::{decode_utf8, valid_utf8};
use crate::aggregate::AGGREGATE_TYPE;
use crate::event::DomainEvent;
use crate::events::Event;
use crate::text::{push_decimal, spec_decimal, str_eq, string_from_utf8};
use crate::update::Update;

verus! {

/// Audit errors.
#[derive(Debug, PartialEq, Eq)]
pub enum Error {
    /// The record is not UTF-8 text
    Utf8,
    /// The record or its payload is not a well-formed envelope
    Json(String),
    /// The summary holds the value that this consumer rejects
    InvalidSummary(String),
    /// The blob store refused the write
    S3PutError(String),
}

/// The storage key of an audited event: `events/{entity}/{id}-{sequence}.json`.
pub open spec fn spec_audit_key(e: DomainEvent) -> Seq<char> {
    "events/"@ + e.entity@ + "/"@ + e.id@ + "-"@ + spec_decimal(e.sequence as nat) + ".json"@
}

/// The storage key of an audited event.
pub fn audit_key(event: &DomainEvent) -> (r: String)
    ensures
        r@ == spec_audit_key(*event),
{
    let mut key = String::from_str("events/");
    key.append(event.entity.as_str());
    key.append("/");
    key.append(event.id.as_str());
    key.append("-");
    push_decimal(&mut key, event.sequence);
    key.append(".json");
    key
}

/// The text of a stream record, which must be UTF-8.
pub fn record_text(data: Vec<u8>) -> (r: Result<String, Error>)
    ensures
        r is Ok <==> valid_utf8(data@),
        r is Ok ==> r->Ok_0@ == decode_utf8(data@),
        r is Err ==> r->Err_0 is Utf8,
{
    match string_from_utf8(data) {
        Some(s) => Ok(s),
        None => Err(Error::Utf8),
    }
}

/// Whether the envelope holds a Task event, whose payload is checked before it is audited.
pub fn is_task_event(event: &DomainEvent) -> (r: bool)
    ensures
        r == (event.entity@ == "Task"@),
{
    str_eq(event.entity.as_str(), AGGREGATE_TYPE)
}

/// The summary value that Task events may not carry.
pub open spec fn spec_poison_summary(e: Event) -> bool {
    e matches Event::Updated { update, .. } && update.summary matches Update::Value(s) && s@
        == "5"@
}

/// Checks a Task event before it is audited: an update that sets the summary to `5` is
/// refused.
pub fn validate_task_event(event: &Event) -> (r: Result<(), Error>)
    ensures
        r is Ok <==> !spec_poison_summary(*event),
        r is Err ==> r->Err_0 == Error::InvalidSummary(event->update.summary->Value_0),
{
    if let Event::Updated { update, .. } = event {
        if let Update::Value(summary) = &update.summary {
            if str_eq(summary.as_str(), "5") {
                return Err(Error::InvalidSummary(summary.clone()));
            }
        }
    }
    Ok(())
}

/// Decides what is written for an envelope: its audit key, unless the check supplied for Task
/// events refuses the decoded payload, in which case the check's error is returned. The
/// payload is decoded, and given here, exactly for Task envelopes.
pub fn audit_target<F>(event: &DomainEvent, task_event: Option<&Event>, check: F) -> (r: Result<
    String,
    Error,
>) where F: Fn(&Event) -> Result<(), Error>
    requires
        task_event is Some <==> event.entity@ == "Task"@,
        task_event is Some ==> check.requires((task_event->Some_0,)),
    ensures
        task_event is None ==> r is Ok && r->Ok_0@ == spec_audit_key(*event),
        task_event is Some ==> exists|c: Result<(), Error>|
            #[trigger] check.ensures((task_event->Some_0,), c) && (c is Ok ==> r is Ok
                && r->Ok_0@ == spec_audit_key(*event)) && (c is Err ==> r == Err::<
                String,
                Error,
            >(c->Err_0)),
{
    if let Some(payload) = task_event {
        match check(payload) {
            Ok(()) => {},
            Err(e) => return Err(e),
        }
    }
    Ok(audit_key(event))
}

/// The progress of auditing one batch: the record identifiers, the position reached, and
/// whether the record at that position failed.
pub struct AuditBatch {
    pub ids: Vec<String>,
    pub next: usize,
    pub failed: bool,
}

impl AuditBatch {
    pub open spec fn wf(&self) -> bool {
        &&& self.next <= self.ids@.len()
        &&& self.failed ==> self.next < self.ids@.len()
    }

    /// A batch at its start.
    pub fn new(ids: Vec<String>) -> (r: AuditBatch)
        ensures
            r.wf(),
            r.ids == ids,
            r.next == 0,
            !r.failed,
    {
        AuditBatch { ids, next: 0, failed: false }
    }

    /// The position of the next record to write, or `None` once the batch is exhausted or a
    /// record has failed.
    pub fn next_record(&self) -> (r: Option<usize>)
        requires
            self.wf(),
        ensures
            r == (if !self.failed && self.next < self.ids@.len() {
                Some(self.next)
            } else {
                None::<usize>
            }),
    {
        if !self.failed && self.next < self.ids.len() {
            Some(self.next)
        } else {
            None
        }
    }

    /// Records the outcome of writing the current record: on success the batch moves past
    /// it, on failure it stops there.
    pub fn report(&mut self, ok: bool)
        requires
            old(self).wf(),
            !old(self).failed,
            old(self).next < old(self).ids@.len(),
        ensures
            final(self).wf(),
            final(self).ids == old(self).ids,
            ok ==> final(self).next == old(self).next + 1 && !final(self).failed,
            !ok ==> final(self).next == old(self).next && final(self).failed,
    {
        let len = self.ids.len();
        assert(self.next < len);
        if ok {
            self.next = self.next + 1;
        } else {
            self.failed = true;
        }
    }

    /// The identifiers to redeliver: the failed record and every record after it, or none.
    pub fn failures(&self) -> (r: Vec<String>)
        requires
            self.wf(),
        ensures
            self.failed ==> r@ == self.ids@.subrange(self.next as int, self.ids@.len() as int),
            !self.failed ==> r@.len() == 0,
    {
        let mut r: Vec<String> = Vec::new();
        if self.failed {
            let mut i: usize = self.next;
            while i < self.ids.len()
                invariant
                    self.wf(),
                    self.next <= i <= self.ids@.len(),
                    r@ == self.ids@.subrange(self.next as int, i as int),
                decreases self.ids.len() - i,
            {
                r.push(self.ids[i].clone());
                proof {
                    assert(self.ids@.subrange(self.next as int, i + 1) =~= self.ids@.subrange(
                        self.next as int,
                        i as int,
                    ).push(self.ids@[i as int]));
                }
                i = i + 1;
            }
        }
        r
    }
}

} // verus!
