//! Commands accepted by the Task aggregate.

use vstd::prelude::*;
use crate::inputs;

verus! {

/// Task aggregate commands.
#[derive(Debug, PartialEq, Eq)]
pub enum Command {
    /// Create a new Task
    Create {
        /// The Task id to create
        id: String,
        /// The Create input
        input: inputs::Create,
    },
    /// Update an existing Task
    Update(inputs::Update),
    /// Remove an existing Task
    Delete,
}

impl Clone for Command {
    fn clone(&self) -> (r: Self)
        ensures
            r == *self,
    {
        match self {
            Command::Create { id, input } => Command::Create { id: id.clone(), input: input.clone() },
            Command::Update(u) => Command::Update(u.clone()),
            Command::Delete => Command::Delete,
        }
    }
}

} // verus!
