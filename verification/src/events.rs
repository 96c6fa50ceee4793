//! The event taxonomy: two closed sets of tagged variants, one per
//! direction of the pipeline.
//!
//! A `UiEvent` originates from user interaction and is consumed by the
//! dispatch loop; a `DataEvent` originates from a completed backend
//! operation and is consumed by the presentation layer. Each variant
//! carries exactly the payload its handler needs, so no other state ever
//! crosses between the two concurrency domains.

use vstd::prelude::*;

use crate::models::List;
use crate::remote::ToDoTask;

verus! {

/// A message from the presentation layer to the dispatch loop.
#[derive(Debug, Clone, PartialEq)]
pub enum UiEvent {
    /// A sidebar row was activated; carries the row index into the
    /// displayed list collection.
    ListSelected(usize),
    /// The list collection should be retrieved from the remote service.
    Fetch,
    /// A task's completion checkbox was toggled; carries the list id, the
    /// task id and the task's displayed completion state.
    TaskCompleted(String, String, bool),
    /// The login flow should be started.
    Login,
    /// A task row was activated; carries the list id and the task id.
    TaskSelected(String, String),
    /// Text was submitted in the new-task entry; carries the text and the
    /// list the task belongs to.
    AddTaskEntry(String, String),
    /// A deep link delivered a login completion code.
    Uri(String),
    /// Text was submitted in the new-list entry.
    AddListEntry(String),
}

/// A message from the dispatch loop to the presentation layer.
#[derive(Debug, Clone, PartialEq)]
pub enum DataEvent {
    /// Replace the displayed list collection entirely.
    UpdateLists(Vec<List>),
    /// Replace the displayed task collection for the given list id.
    UpdateTasks(String, Vec<ToDoTask>),
    /// Replace the detail panel with the given task of the given list.
    UpdateDetails(String, ToDoTask),
    /// The login flow completed; auth-dependent widgets should refresh.
    Login,
}

} // verus!
