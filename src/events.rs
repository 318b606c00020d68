//! Events recorded by the Task aggregate.

use vstd::prelude::*;
use crate::aggregate::Task;
use crate::inputs;
use crate::time::Timestamp;

verus! {

/// Task events.
#[derive(Debug, PartialEq, Eq)]
pub enum Event {
    /// A Task was created
    Created {
        /// The id of the Task that was created
        id: String,
        /// When the Task was created
        created_at: Timestamp,
        /// The created Task
        task: Task,
    },
    /// A Task was updated
    Updated {
        /// The id of the Task that was updated
        id: String,
        /// When the change occurred
        updated_at: Timestamp,
        /// The update, as it was requested
        update: inputs::Update,
    },
    /// A Task was deleted
    Deleted {
        /// The id of the Task that was deleted
        id: String,
        /// When the change occurred
        updated_at: Timestamp,
    },
}

/// The aggregate id an event is about.
pub open spec fn spec_event_id(e: Event) -> Seq<char> {
    match e {
        Event::Created { id, .. } => id@,
        Event::Updated { id, .. } => id@,
        Event::Deleted { id, .. } => id@,
    }
}

/// The type name of an event.
pub open spec fn spec_event_type(e: Event) -> Seq<char> {
    match e {
        Event::Created { .. } => "Task:Created"@,
        Event::Updated { .. } => "Task:Updated"@,
        Event::Deleted { .. } => "Task:Deleted"@,
    }
}

impl Clone for Event {
    fn clone(&self) -> (r: Self)
        ensures
            r == *self,
    {
        match self {
            Event::Created { id, created_at, task } => Event::Created {
                id: id.clone(),
                created_at: *created_at,
                task: task.clone(),
            },
            Event::Updated { id, updated_at, update } => Event::Updated {
                id: id.clone(),
                updated_at: *updated_at,
                update: update.clone(),
            },
            Event::Deleted { id, updated_at } => Event::Deleted {
                id: id.clone(),
                updated_at: *updated_at,
            },
        }
    }
}

impl Event {
    /// The aggregate id.
    pub fn id(&self) -> (r: String)
        ensures
            r@ == spec_event_id(*self),
    {
        match self {
            Event::Created { id, .. } => id.clone(),
            Event::Updated { id, .. } => id.clone(),
            Event::Deleted { id, .. } => id.clone(),
        }
    }

    /// The event type name: `Task:Created`, `Task:Updated` or `Task:Deleted`.
    pub fn event_type(&self) -> (r: String)
        ensures
            r@ == spec_event_type(*self),
    {
        match self {
            Event::Created { .. } => String::from_str("Task:Created"),
            Event::Updated { .. } => String::from_str("Task:Updated"),
            Event::Deleted { .. } => String::from_str("Task:Deleted"),
        }
    }

    /// The event schema version.
    pub fn event_version(&self) -> (r: String)
        ensures
            r@ == "1.0"@,
    {
        String::from_str("1.0")
    }
}

} // verus!
