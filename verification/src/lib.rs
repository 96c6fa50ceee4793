//! Core of a desktop client for a cloud task-list service.
//!
//! The crate models the event-mediated synchronization pipeline that
//! decouples user-interface interactions from asynchronous remote calls:
//! the event taxonomy, the dispatch decisions that turn a UI event into a
//! remote call and a remote result into a data event, the conversion of
//! remote task representations into local domain models, and the state
//! transitions the presentation layer applies on incoming data events.
//! Widget construction and the actual I/O live outside this crate.

pub mod dispatch;
pub mod events;
pub mod models;
pub mod remote;
mod trusted;
pub mod ui_state;
