//! The Task read model, and the fold that keeps it in step with committed events.

use vstd::prelude::*;
use vstd::view::View as _;
use crate::aggregate::{lemma_replay_idempotent, spec_apply, spec_replay, Task, AGGREGATE_TYPE};
use crate::events::Event;
use crate::text::str_eq;

verus! {

/// The denormalized read-model row of a Task.
#[derive(Debug, PartialEq, Eq)]
pub struct View {
    /// The aggregate type, to tell apart the many types kept in one view table
    pub aggregate_type: String,
    /// The id of the last command that touched the row
    pub command_id: String,
    /// The Task id
    pub id: String,
    /// The Task as of the last event folded in
    pub task: Task,
}

/// The write-context token of a view row: the row's key and the version it was read at.
#[derive(Debug, PartialEq, Eq)]
pub struct ViewContext {
    pub view_instance_id: String,
    pub version: i64,
}

/// A committed event with the aggregate it belongs to, its sequence number and its metadata.
#[derive(Debug, PartialEq, Eq)]
pub struct EventEnvelope {
    pub aggregate_id: String,
    pub sequence: usize,
    pub payload: Event,
    /// Key/value pairs, no two with the same key
    pub metadata: Vec<(String, String)>,
}

/// The value of the first pair of `m` whose key is `key`.
pub open spec fn spec_metadata_get(m: Seq<(String, String)>, key: Seq<char>) -> Option<Seq<char>>
    decreases m.len(),
{
    if m.len() == 0 {
        None
    } else if m[0].0@ == key {
        Some(m[0].1@)
    } else {
        spec_metadata_get(m.drop_first(), key)
    }
}

/// No two pairs of `m` share a key.
pub open spec fn spec_unique_keys(m: Seq<(String, String)>) -> bool {
    forall|i: int, j: int| 0 <= i < j < m.len() ==> (#[trigger] m[i]).0@ != (#[trigger] m[j]).0@
}

/// Whether no two pairs share a key.
pub fn has_unique_keys(m: &Vec<(String, String)>) -> (r: bool)
    ensures
        r == spec_unique_keys(m@),
{
    let mut j: usize = 0;
    while j < m.len()
        invariant
            j <= m.len(),
            forall|a: int, b: int| 0 <= a < b < j ==> (#[trigger] m@[a]).0@ != (#[trigger] m@[b]).0@,
        decreases m.len() - j,
    {
        let mut i: usize = 0;
        while i < j
            invariant
                i <= j < m.len(),
                forall|a: int, b: int| 0 <= a < b < j ==> (#[trigger] m@[a]).0@ != (#[trigger] m@[b]).0@,
                forall|a: int| 0 <= a < i ==> (#[trigger] m@[a]).0@ != m@[j as int].0@,
            decreases j - i,
        {
            if str_eq(m[i].0.as_str(), m[j].0.as_str()) {
                return false;
            }
            i = i + 1;
        }
        j = j + 1;
    }
    true
}

/// The command id that metadata carries, or the empty string.
pub open spec fn spec_command_id(m: Seq<(String, String)>) -> Seq<char> {
    match spec_metadata_get(m, "command_id"@) {
        Some(v) => v,
        None => Seq::empty(),
    }
}

/// The events that a sequence of envelopes carries.
pub open spec fn spec_payloads(events: Seq<EventEnvelope>) -> Seq<Event> {
    events.map_values(|e: EventEnvelope| e.payload)
}

/// `w` is the row reached by folding `events`, in order, into row `v`.
pub open spec fn spec_view_after(v: View, w: View, events: Seq<EventEnvelope>) -> bool {
    &&& w.task == spec_replay(v.task, spec_payloads(events))
    &&& events.len() == 0 ==> w.id == v.id && w.aggregate_type == v.aggregate_type && w.command_id
        == v.command_id
    &&& events.len() > 0 ==> w.id == events.last().aggregate_id && w.aggregate_type@ == "Task"@
        && w.command_id@ == spec_command_id(events.last().metadata@)
}

/// Two rows that hold the same text and the same Task.
pub open spec fn spec_same_row(a: View, b: View) -> bool {
    &&& a.aggregate_type@ == b.aggregate_type@
    &&& a.command_id@ == b.command_id@
    &&& a.id@ == b.id@
    &&& a.task == b.task
}

/// Looks up the first value stored under `key`.
pub fn metadata_get(m: &Vec<(String, String)>, key: &str) -> (r: Option<String>)
    ensures
        match r {
            Some(v) => spec_metadata_get(m@, key@) == Some(v@),
            None => spec_metadata_get(m@, key@) is None,
        },
{
    let mut i: usize = 0;
    assert(m@.subrange(0, m.len() as int) =~= m@);
    while i < m.len()
        invariant
            i <= m.len(),
            spec_metadata_get(m@, key@) == spec_metadata_get(m@.subrange(i as int, m.len() as int), key@),
        decreases m.len() - i,
    {
        proof {
            let rest = m@.subrange(i as int, m.len() as int);
            assert(rest.drop_first() =~= m@.subrange(i + 1, m.len() as int));
        }
        if str_eq(m[i].0.as_str(), key) {
            return Some(m[i].1.clone());
        }
        i = i + 1;
    }
    None
}

impl Clone for View {
    fn clone(&self) -> (r: Self)
        ensures
            r == *self,
    {
        View {
            aggregate_type: self.aggregate_type.clone(),
            command_id: self.command_id.clone(),
            id: self.id.clone(),
            task: self.task.clone(),
        }
    }
}

impl View {
    /// Folds one committed event into the row.
    pub fn update(&mut self, event: &EventEnvelope)
        ensures
            final(self).id == event.aggregate_id,
            final(self).aggregate_type@ == "Task"@,
            final(self).command_id@ == spec_command_id(event.metadata@),
            final(self).task == spec_apply(old(self).task, event.payload),
    {
        self.id = event.aggregate_id.clone();
        self.aggregate_type = String::from_str(AGGREGATE_TYPE);
        self.command_id = match metadata_get(&event.metadata, "command_id") {
            Some(v) => v,
            None => String::new(),
        };
        self.task.apply(event.payload.clone());
    }
}

/// A fresh row: empty text fields and a Task that does not exist yet, with zero timestamps.
pub open spec fn spec_is_fresh_row(v: View) -> bool {
    &&& v.aggregate_type@ == Seq::<char>::empty()
    &&& v.command_id@ == Seq::<char>::empty()
    &&& v.id@ == Seq::<char>::empty()
    &&& v.task.id@ == Seq::<char>::empty()
    &&& v.task.created_at.micros == 0
    &&& v.task.updated_at.micros == 0
    &&& v.task.name@ == Seq::<char>::empty()
    &&& v.task.summary is None
    &&& !v.task.done
    &&& !v.task.deleted
}

impl Default for View {
    fn default() -> (r: Self)
        ensures
            spec_is_fresh_row(r),
    {
        View {
            aggregate_type: String::new(),
            command_id: String::new(),
            id: String::new(),
            task: Task::default(),
        }
    }
}

impl ViewContext {
    /// A context for the row `view_instance_id` at `version`.
    pub fn new(view_instance_id: String, version: i64) -> (r: ViewContext)
        ensures
            r.view_instance_id == view_instance_id,
            r.version == version,
    {
        ViewContext { view_instance_id, version }
    }
}

/// The row to fold into: the stored one with its context, or a fresh row at version 0.
pub fn start_view(task_id: &str, loaded: Option<(View, ViewContext)>) -> (r: (View, ViewContext))
    ensures
        loaded is Some ==> r == loaded->Some_0,
        loaded is None ==> spec_is_fresh_row(r.0) && r.1.view_instance_id@ == task_id@
            && r.1.version == 0,
{
    match loaded {
        Some(found) => found,
        None => (View::default(), ViewContext::new(task_id.to_owned(), 0)),
    }
}

/// Folds `events`, in commit order, into the row.
pub fn project_events(view: &mut View, events: &Vec<EventEnvelope>)
    ensures
        spec_view_after(*old(view), *final(view), events@),
{
    let ghost start = *view;
    let mut i: usize = 0;
    while i < events.len()
        invariant
            i <= events.len(),
            spec_view_after(start, *view, events@.subrange(0, i as int)),
        decreases events.len() - i,
    {
        proof {
            let next = events@.subrange(0, i + 1);
            assert(next.drop_last() =~= events@.subrange(0, i as int));
            assert(spec_payloads(next).drop_last() =~= spec_payloads(events@.subrange(0, i as int)));
        }
        view.update(&events[i]);
        i = i + 1;
    }
    proof {
        assert(events@.subrange(0, i as int) =~= events@);
    }
}

/// Delivering the same events twice leaves the row as delivering them once: the fold is
/// idempotent under at-least-once redelivery.
pub proof fn lemma_redelivery_idempotent(v: View, once: View, twice: View, events: Seq<EventEnvelope>)
    requires
        spec_view_after(v, once, events),
        spec_view_after(once, twice, events),
    ensures
        spec_same_row(once, twice),
{
    lemma_replay_idempotent(v.task, spec_payloads(events));
}

} // verus!
