//! The Task aggregate: deciding which events a command produces, and folding events into state.

use vstd::prelude::*;
use crate::commands::Command;
use crate::errors::Error;
use crate::events::Event;
use crate::inputs;
use crate::text::clone_opt_string;
use crate::time::Timestamp;
use crate::update::{spec_apply_update, Update};

verus! {

/// The aggregate type name of Tasks.
pub const AGGREGATE_TYPE: &'static str = "Task";

/// A Task as aggregated from its events.
#[derive(Debug, PartialEq, Eq)]
pub struct Task {
    /// A unique id; empty while the Task does not exist
    pub id: String,
    /// The creation time
    pub created_at: Timestamp,
    /// The time of the last change
    pub updated_at: Timestamp,
    /// A name
    pub name: String,
    /// An optional summary
    pub summary: Option<String>,
    /// The completion flag
    pub done: bool,
    /// Tombstone flag: the Task is deleted but its events remain
    pub deleted: bool,
}

/// Services needed by the Task aggregate (currently none).
#[derive(Clone, Copy, Debug)]
pub struct Services {}

impl Default for Services {
    fn default() -> (r: Self) {
        Services {  }
    }
}

impl Clone for Task {
    fn clone(&self) -> (r: Self)
        ensures
            r == *self,
    {
        Task {
            id: self.id.clone(),
            created_at: self.created_at,
            updated_at: self.updated_at,
            name: self.name.clone(),
            summary: clone_opt_string(&self.summary),
            done: self.done,
            deleted: self.deleted,
        }
    }
}

impl Default for Task {
    fn default() -> (r: Self)
        ensures
            r.id@ == Seq::<char>::empty(),
            r.created_at.micros == 0,
            r.updated_at.micros == 0,
            r.name@ == Seq::<char>::empty(),
            r.summary is None,
            !r.done,
            !r.deleted,
    {
        Task {
            id: String::new(),
            created_at: Timestamp::default(),
            updated_at: Timestamp::default(),
            name: String::new(),
            summary: None,
            done: false,
            deleted: false,
        }
    }
}

/// A Task that does not exist yet.
pub open spec fn spec_is_new(s: Task) -> bool {
    s.id@.len() == 0
}

/// The Task that a `Create` command describes.
pub open spec fn spec_created_task(id: String, input: inputs::Create, now: Timestamp) -> Task {
    Task {
        id,
        created_at: now,
        updated_at: now,
        name: input.name,
        summary: input.summary,
        done: false,
        deleted: false,
    }
}

/// Whether `command` is accepted against state `s`.
pub open spec fn spec_accepts(s: Task, command: Command) -> bool {
    match command {
        Command::Create { .. } => spec_is_new(s),
        _ => !spec_is_new(s) && !s.deleted,
    }
}

/// The events that an accepted command produces at time `now`.
pub open spec fn spec_decide_events(s: Task, command: Command, now: Timestamp) -> Seq<Event> {
    match command {
        Command::Create { id, input } => seq![
            Event::Created { id, created_at: now, task: spec_created_task(id, input, now) },
        ],
        Command::Update(update) => seq![Event::Updated { id: s.id, updated_at: now, update }],
        Command::Delete => seq![Event::Deleted { id: s.id, updated_at: now }],
    }
}

/// A uniqueness conflict on the `id` field.
pub open spec fn spec_is_id_conflict(e: Error) -> bool {
    e matches Error::Uniqueness { field } && field@ == "id"@
}

/// A Task that was not found.
pub open spec fn spec_is_task_not_found(e: Error) -> bool {
    e matches Error::NotFound { entity } && entity@ == "Task"@
}

/// What deciding `command` against `s` at time `now` returns.
pub open spec fn spec_decided(s: Task, command: Command, now: Timestamp, r: Result<Vec<Event>, Error>) -> bool {
    &&& r is Ok <==> spec_accepts(s, command)
    &&& r is Ok ==> r->Ok_0@ == spec_decide_events(s, command, now)
    &&& command is Create && !spec_is_new(s) ==> r is Err && spec_is_id_conflict(r->Err_0)
    &&& !(command is Create) && spec_is_new(s) ==> r is Err && spec_is_task_not_found(r->Err_0)
    &&& !(command is Create) && !spec_is_new(s) && s.deleted ==> r is Err && r->Err_0 is Forbidden
}

/// The state after folding one event into `s`.
pub open spec fn spec_apply(s: Task, e: Event) -> Task {
    match e {
        Event::Created { id, created_at, task } => Task {
            id,
            created_at,
            updated_at: created_at,
            name: task.name,
            summary: task.summary,
            done: task.done,
            deleted: task.deleted,
        },
        Event::Updated { updated_at, update, .. } => Task {
            name: match update.name {
                Some(n) => n,
                None => s.name,
            },
            summary: spec_apply_update(update.summary, s.summary),
            done: match update.done {
                Some(d) => d,
                None => s.done,
            },
            updated_at,
            ..s
        },
        Event::Deleted { updated_at, .. } => Task { deleted: true, updated_at, ..s },
    }
}

/// The state after folding `events`, in order, into `s`.
pub open spec fn spec_replay(s: Task, events: Seq<Event>) -> Task
    decreases events.len(),
{
    if events.len() == 0 {
        s
    } else {
        spec_apply(spec_replay(s, events.drop_last()), events.last())
    }
}

/// The state a command reaches when applied to `s` directly, without events.
pub open spec fn spec_mutate(s: Task, command: Command, now: Timestamp) -> Task {
    match command {
        Command::Create { id, input } => spec_created_task(id, input, now),
        Command::Update(update) => Task {
            name: match update.name {
                Some(n) => n,
                None => s.name,
            },
            summary: spec_apply_update(update.summary, s.summary),
            done: match update.done {
                Some(d) => d,
                None => s.done,
            },
            updated_at: now,
            ..s
        },
        Command::Delete => Task { deleted: true, updated_at: now, ..s },
    }
}

/// Replaying `a` followed by `b` is replaying `a`, then replaying `b` on the result.
pub proof fn lemma_replay_concat(s: Task, a: Seq<Event>, b: Seq<Event>)
    ensures
        spec_replay(s, a + b) == spec_replay(spec_replay(s, a), b),
    decreases b.len(),
{
    if b.len() == 0 {
        assert(a + b =~= a);
    } else {
        assert((a + b).drop_last() =~= a + b.drop_last());
        assert((a + b).last() == b.last());
        lemma_replay_concat(s, a, b.drop_last());
    }
}

/// A `Create` is refused once the Task exists: after a successful creation with a non-empty
/// id, every further `Create` is rejected with a uniqueness conflict on `id`.
pub proof fn lemma_create_twice_rejected(s: Task, first: Command, second: Command, now: Timestamp)
    requires
        first matches Command::Create { id, .. } && id@.len() > 0,
        second is Create,
        spec_accepts(s, first),
    ensures
        !spec_is_new(spec_replay(s, spec_decide_events(s, first, now))),
        !spec_accepts(spec_replay(s, spec_decide_events(s, first, now)), second),
{
    let es = spec_decide_events(s, first, now);
    assert(es.drop_last() =~= Seq::<Event>::empty());
}

/// Once a Task is deleted, every `Update` or `Delete` against it is refused as forbidden.
pub proof fn lemma_deleted_is_terminal(s: Task, command: Command, now: Timestamp)
    requires
        spec_accepts(s, Command::Delete),
        !(command is Create),
    ensures
        spec_replay(s, spec_decide_events(s, Command::Delete, now)).deleted,
        !spec_is_new(spec_replay(s, spec_decide_events(s, Command::Delete, now))),
        !spec_accepts(spec_replay(s, spec_decide_events(s, Command::Delete, now)), command),
{
    let es = spec_decide_events(s, Command::Delete, now);
    assert(es.drop_last() =~= Seq::<Event>::empty());
    assert(spec_replay(s, es.drop_last()) == s);
    assert(spec_replay(s, es) == spec_apply(s, es.last()));
}

/// An `Updated` event whose summary is `Empty`, applied after a `Created` event, leaves no
/// summary, whatever the summary was before.
pub proof fn lemma_empty_summary_clears(s: Task, created: Event, updated: Event)
    requires
        created is Created,
        updated matches Event::Updated { update, .. } && update.summary is Empty,
    ensures
        spec_apply(spec_apply(s, created), updated).summary is None,
{
}

/// An `Updated` event whose summary is `Unchanged` leaves the summary exactly as it was.
pub proof fn lemma_unchanged_summary_kept(s: Task, updated: Event)
    requires
        updated matches Event::Updated { update, .. } && update.summary is Unchanged,
    ensures
        spec_apply(s, updated).summary == s.summary,
{
}

/// Replaying the events that an accepted command produces reaches the same state as applying
/// the command directly.
pub proof fn lemma_replay_matches_direct(s: Task, command: Command, now: Timestamp)
    requires
        spec_accepts(s, command),
    ensures
        spec_replay(s, spec_decide_events(s, command, now)) == spec_mutate(s, command, now),
{
    let es = spec_decide_events(s, command, now);
    assert(es.drop_last() =~= Seq::<Event>::empty());
    assert(spec_replay(s, es.drop_last()) == s);
    assert(spec_replay(s, es) == spec_apply(s, es.last()));
}

/// Whether `e` overwrites the id and the creation time.
pub open spec fn spec_sets_identity(e: Event) -> bool {
    e is Created
}

/// Whether `e` overwrites the name.
pub open spec fn spec_sets_name(e: Event) -> bool {
    match e {
        Event::Created { .. } => true,
        Event::Updated { update, .. } => update.name is Some,
        Event::Deleted { .. } => false,
    }
}

/// Whether `e` overwrites the summary.
pub open spec fn spec_sets_summary(e: Event) -> bool {
    match e {
        Event::Created { .. } => true,
        Event::Updated { update, .. } => !(update.summary is Unchanged),
        Event::Deleted { .. } => false,
    }
}

/// Whether `e` overwrites the completion flag.
pub open spec fn spec_sets_done(e: Event) -> bool {
    match e {
        Event::Created { .. } => true,
        Event::Updated { update, .. } => update.done is Some,
        Event::Deleted { .. } => false,
    }
}

/// Whether `e` overwrites the deletion flag.
pub open spec fn spec_sets_deleted(e: Event) -> bool {
    !(e is Updated)
}

/// Whether some event of `events` satisfies `p`.
pub open spec fn spec_some_event(events: Seq<Event>, p: spec_fn(Event) -> bool) -> bool
    decreases events.len(),
{
    events.len() > 0 && (p(events.last()) || spec_some_event(events.drop_last(), p))
}

/// The fields of `r1` and `r2`, reached by replaying `events` from `t1` and from `t2`: a field
/// that some event overwrites is equal in both, and any other field is the starting one.
pub open spec fn spec_fields_follow(t1: Task, t2: Task, r1: Task, r2: Task, events: Seq<Event>) -> bool {
    &&& if spec_some_event(events, |e: Event| spec_sets_identity(e)) {
        r1.id == r2.id && r1.created_at == r2.created_at
    } else {
        r1.id == t1.id && r2.id == t2.id && r1.created_at == t1.created_at && r2.created_at
            == t2.created_at
    }
    &&& if events.len() > 0 {
        r1.updated_at == r2.updated_at
    } else {
        r1.updated_at == t1.updated_at && r2.updated_at == t2.updated_at
    }
    &&& if spec_some_event(events, |e: Event| spec_sets_name(e)) {
        r1.name == r2.name
    } else {
        r1.name == t1.name && r2.name == t2.name
    }
    &&& if spec_some_event(events, |e: Event| spec_sets_summary(e)) {
        r1.summary == r2.summary
    } else {
        r1.summary == t1.summary && r2.summary == t2.summary
    }
    &&& if spec_some_event(events, |e: Event| spec_sets_done(e)) {
        r1.done == r2.done
    } else {
        r1.done == t1.done && r2.done == t2.done
    }
    &&& if spec_some_event(events, |e: Event| spec_sets_deleted(e)) {
        r1.deleted == r2.deleted
    } else {
        r1.deleted == t1.deleted && r2.deleted == t2.deleted
    }
}

proof fn lemma_replay_fields(t1: Task, t2: Task, events: Seq<Event>)
    ensures
        spec_fields_follow(t1, t2, spec_replay(t1, events), spec_replay(t2, events), events),
    decreases events.len(),
{
    if events.len() > 0 {
        lemma_replay_fields(t1, t2, events.drop_last());
    }
}

/// Replaying the same events a second time changes nothing: delivering a batch of events
/// twice reaches the state of delivering it once.
pub proof fn lemma_replay_idempotent(s: Task, events: Seq<Event>)
    ensures
        spec_replay(spec_replay(s, events), events) == spec_replay(s, events),
{
    lemma_replay_fields(s, spec_replay(s, events), events);
}

impl Task {
    /// The aggregate type name, `Task`.
    pub fn aggregate_type() -> (r: String)
        ensures
            r@ == "Task"@,
    {
        String::from_str(AGGREGATE_TYPE)
    }

    /// Checks that the Task does not exist yet.
    pub fn validate_new(&self) -> (r: Result<(), Error>)
        ensures
            r is Ok <==> spec_is_new(*self),
            r is Err ==> spec_is_id_conflict(r->Err_0),
    {
        if !self.id.as_str().is_empty() {
            return Err(Error::Uniqueness { field: String::from_str("id") });
        }
        Ok(())
    }

    /// Checks that the Task exists and is not deleted.
    pub fn validate_existing(&self) -> (r: Result<(), Error>)
        ensures
            r is Ok <==> !spec_is_new(*self) && !self.deleted,
            spec_is_new(*self) ==> r is Err && spec_is_task_not_found(r->Err_0),
            !spec_is_new(*self) && self.deleted ==> r is Err && r->Err_0 is Forbidden,
    {
        if self.id.as_str().is_empty() {
            return Err(Error::NotFound { entity: String::from_str(AGGREGATE_TYPE) });
        }
        if self.deleted {
            return Err(Error::Forbidden);
        }
        Ok(())
    }

    /// Decides which events `command` produces against this state, stamping them with `now`.
    pub fn decide(&self, command: Command, now: Timestamp) -> (r: Result<Vec<Event>, Error>)
        ensures
            spec_decided(*self, command, now, r),
    {
        match command {
            Command::Create { id, input } => {
                match self.validate_new() {
                    Err(e) => return Err(e),
                    Ok(()) => {},
                }
                let task = Task {
                    id: id.clone(),
                    created_at: now,
                    updated_at: now,
                    name: input.name,
                    summary: input.summary,
                    done: false,
                    deleted: false,
                };
                let events = vec![Event::Created { id, created_at: now, task }];
                proof {
                    assert(events@ =~= spec_decide_events(*self, command, now));
                }
                Ok(events)
            },
            Command::Update(update) => {
                match self.validate_existing() {
                    Err(e) => return Err(e),
                    Ok(()) => {},
                }
                let events = vec![Event::Updated { id: self.id.clone(), updated_at: now, update }];
                proof {
                    assert(events@ =~= spec_decide_events(*self, command, now));
                }
                Ok(events)
            },
            Command::Delete => {
                match self.validate_existing() {
                    Err(e) => return Err(e),
                    Ok(()) => {},
                }
                let events = vec![Event::Deleted { id: self.id.clone(), updated_at: now }];
                proof {
                    assert(events@ =~= spec_decide_events(*self, command, now));
                }
                Ok(events)
            },
        }
    }

    /// Handles a command read at time `now`: the events are stamped with it.
    pub fn handle(&self, command: Command, _services: &Services, now: Timestamp) -> (r: Result<
        Vec<Event>,
        Error,
    >)
        ensures
            spec_decided(*self, command, now, r),
    {
        self.decide(command, now)
    }

    /// Folds one event into this state.
    pub fn apply(&mut self, event: Event)
        ensures
            *final(self) == spec_apply(*old(self), event),
    {
        match event {
            Event::Created { id, task, created_at } => {
                self.id = id;
                self.created_at = created_at;
                self.updated_at = created_at;
                self.name = task.name;
                self.summary = task.summary;
                self.done = task.done;
                self.deleted = task.deleted;
            },
            Event::Updated { update, updated_at, .. } => {
                if let Some(name) = update.name {
                    self.name = name;
                }
                update.summary.update_to(&mut self.summary);
                if let Some(done) = update.done {
                    self.done = done;
                }
                self.updated_at = updated_at;
            },
            Event::Deleted { updated_at, .. } => {
                self.deleted = true;
                self.updated_at = updated_at;
            },
        }
    }

    /// Folds `events`, in order, into this state.
    pub fn apply_all(&mut self, events: &Vec<Event>)
        ensures
            *final(self) == spec_replay(*old(self), events@),
    {
        let mut i: usize = 0;
        while i < events.len()
            invariant
                i <= events.len(),
                *self == spec_replay(*old(self), events@.subrange(0, i as int)),
            decreases events.len() - i,
        {
            proof {
                assert(events@.subrange(0, i + 1).drop_last() =~= events@.subrange(0, i as int));
            }
            self.apply(events[i].clone());
            i = i + 1;
        }
        proof {
            assert(events@.subrange(0, i as int) =~= events@);
        }
    }
}

} // verus!
