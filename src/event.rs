//! The canonical cross-system envelope of a committed domain event.

use vstd::prelude::*;

verus! {

/// A committed event in the form shared with downstream consumers.
#[derive(Debug, PartialEq, Eq)]
pub struct DomainEvent {
    /// The aggregate id
    pub id: String,
    /// The aggregate type
    pub entity: String,
    /// The event's sequence number within its aggregate, from 1
    pub sequence: usize,
    /// The event type
    pub event_type: String,
    /// The event version
    pub event_version: String,
    /// The serialized event
    pub payload: String,
    /// The serialized metadata
    pub metadata: String,
}

impl Clone for DomainEvent {
    fn clone(&self) -> (r: Self)
        ensures
            r == *self,
    {
        DomainEvent {
            id: self.id.clone(),
            entity: self.entity.clone(),
            sequence: self.sequence,
            event_type: self.event_type.clone(),
            event_version: self.event_version.clone(),
            payload: self.payload.clone(),
            metadata: self.metadata.clone(),
        }
    }
}

impl DomainEvent {
    /// Builds an envelope from its parts.
    pub fn new(
        id: String,
        entity: String,
        sequence: usize,
        event_type: String,
        event_version: String,
        payload: String,
        metadata: String,
    ) -> (r: DomainEvent)
        ensures
            r == (DomainEvent { id, entity, sequence, event_type, event_version, payload, metadata }),
    {
        DomainEvent { id, entity, sequence, event_type, event_version, payload, metadata }
    }
}

} // verus!
