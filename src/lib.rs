//! A small CQRS / event-sourcing core: the Task aggregate, its event log, its read-model
//! projection, and the batch policies used to forward and audit committed events.

pub mod text;
pub mod time;
pub mod update;

pub mod errors;
pub mod inputs;
pub mod commands;
pub mod events;
pub mod aggregate;

pub mod view;
pub mod store;

pub mod event;
pub mod publishers;
pub mod projectors;
