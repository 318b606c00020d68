//! Input types for Task creation and partial Task updates.

use vstd::prelude::*;
use crate::aggregate::Task;
use crate::text::clone_opt_string;
use crate::update;

verus! {

/// An input type for Task creation.
#[derive(Debug, PartialEq, Eq)]
pub struct Create {
    /// A name
    pub name: String,
    /// An optional summary
    pub summary: Option<String>,
}

/// An input type that supports partial Task updates.
#[derive(Debug, PartialEq, Eq)]
pub struct Update {
    /// A new name, if it changes
    pub name: Option<String>,
    /// The summary: unchanged, cleared, or set
    pub summary: update::Update<String>,
    /// A new completion flag, if it changes
    pub done: Option<bool>,
}

impl Clone for Create {
    fn clone(&self) -> (r: Self)
        ensures
            r == *self,
    {
        Create { name: self.name.clone(), summary: clone_opt_string(&self.summary) }
    }
}

impl Clone for Update {
    fn clone(&self) -> (r: Self)
        ensures
            r == *self,
    {
        let summary = match &self.summary {
            update::Update::Unchanged => update::Update::Unchanged,
            update::Update::Empty => update::Update::Empty,
            update::Update::Value(s) => update::Update::Value(s.clone()),
        };
        Update { name: clone_opt_string(&self.name), summary, done: self.done }
    }
}

impl Default for Create {
    fn default() -> (r: Self)
        ensures
            r.name@ == Seq::<char>::empty(),
            r.summary is None,
    {
        Create { name: String::new(), summary: None }
    }
}

impl Default for Update {
    fn default() -> (r: Self)
        ensures
            r.name is None,
            r.summary is Unchanged,
            r.done is None,
    {
        Update { name: None, summary: update::Update::Unchanged, done: None }
    }
}

impl From<Task> for Create {
    fn from(task: Task) -> (r: Self)
        ensures
            r.name == task.name,
            r.summary == task.summary,
    {
        Create { name: task.name, summary: task.summary }
    }
}

impl vstd::std_specs::convert::FromSpecImpl<Task> for Create {
    open spec fn obeys_from_spec() -> bool {
        true
    }

    open spec fn from_spec(task: Task) -> Self {
        Create { name: task.name, summary: task.summary }
    }
}

} // verus!
