//! The presentation layer's state and how data events change it.
//!
//! The UI binding layer owns the consuming end of the data-event channel
//! on the single-threaded UI context and applies incoming events in
//! arrival order. Each event replaces one group of displayed content
//! wholesale — never a diff or patch — and leaves the others untouched.
//! The user-input callbacks on that same context are the sole producers
//! of UI events; the event constructors they use are here too, so a
//! callback only builds a value and enqueues it, and never performs I/O.

use vstd::prelude::*;

use crate::events::{DataEvent, UiEvent};
use crate::models::List;
use crate::remote::ToDoTask;

verus! {

/// The task collection displayed for one list.
#[derive(Debug, Clone, PartialEq)]
pub struct TaskPane {
    pub list_id: String,
    pub tasks: Vec<ToDoTask>,
}

/// The detail panel's content: one task of one list.
#[derive(Debug, Clone, PartialEq)]
pub struct DetailPane {
    pub list_id: String,
    pub task: ToDoTask,
}

/// Everything the presentation layer displays that data events can
/// change.
#[derive(Debug, Clone, PartialEq)]
pub struct UiState {
    pub lists: Vec<List>,
    pub task_pane: Option<TaskPane>,
    pub detail_pane: Option<DetailPane>,
    pub logged_in: bool,
}

/// What applying one data event to the displayed state yields: the
/// addressed group of content is replaced entirely, the rest is kept.
pub open spec fn apply_spec(s: UiState, event: DataEvent) -> UiState {
    match event {
        DataEvent::UpdateLists(lists) => UiState { lists: lists, ..s },
        DataEvent::UpdateTasks(list_id, tasks) => UiState {
            task_pane: Some(TaskPane { list_id: list_id, tasks: tasks }),
            ..s
        },
        DataEvent::UpdateDetails(list_id, task) => UiState {
            detail_pane: Some(DetailPane { list_id: list_id, task: task }),
            ..s
        },
        DataEvent::Login => UiState { logged_in: true, ..s },
    }
}

impl UiState {
    /// The state before anything was fetched: nothing displayed, not
    /// logged in.
    pub fn new() -> (r: UiState)
        ensures
            r.lists@ == Seq::<List>::empty(),
            r.task_pane is None,
            r.detail_pane is None,
            !r.logged_in,
    {
        UiState { lists: Vec::new(), task_pane: None, detail_pane: None, logged_in: false }
    }

    /// Applies one incoming data event, replacing the group of displayed
    /// content the event addresses.
    pub fn apply_data_event(&mut self, event: DataEvent)
        ensures
            *final(self) == apply_spec(*old(self), event),
    {
        match event {
            DataEvent::UpdateLists(lists) => {
                self.lists = lists;
            },
            DataEvent::UpdateTasks(list_id, tasks) => {
                self.task_pane = Some(TaskPane { list_id, tasks });
            },
            DataEvent::UpdateDetails(list_id, task) => {
                self.detail_pane = Some(DetailPane { list_id, task });
            },
            DataEvent::Login => {
                self.logged_in = true;
            },
        }
    }
}

/// Applying the same data event twice changes nothing over applying it
/// once: each event replaces a group of displayed content with its own
/// payload, so the second application writes what is already there. In
/// particular, a repeated UpdateLists does not accumulate or duplicate
/// entries.
pub proof fn lemma_apply_idempotent(s: UiState, event: DataEvent)
    ensures
        apply_spec(apply_spec(s, event), event) == apply_spec(s, event),
{
}

/// The event the UI emits at startup: a fetch exactly when a token
/// already exists, so a returning user sees their lists without touching
/// anything.
pub fn startup_event(token_exists: bool) -> (r: Option<UiEvent>)
    ensures
        token_exists ==> r == Some(UiEvent::Fetch),
        !token_exists ==> r is None,
{
    if token_exists {
        Some(UiEvent::Fetch)
    } else {
        None
    }
}

/// What the checkbox callback of a task row enqueues: the task's list,
/// the task's id, and the completion state the row displayed when it was
/// toggled.
pub fn task_toggled_event(list_id: &String, task: &ToDoTask) -> (r: UiEvent)
    ensures
        r == UiEvent::TaskCompleted(*list_id, task.id, task.status is Completed),
{
    UiEvent::TaskCompleted(list_id.clone(), task.id.clone(), task.is_completed())
}

/// What the activation callback of a task row enqueues: the task's list
/// and the task's id, asking for the detail panel.
pub fn task_selected_event(list_id: &String, task: &ToDoTask) -> (r: UiEvent)
    ensures
        r == UiEvent::TaskSelected(*list_id, task.id),
{
    UiEvent::TaskSelected(list_id.clone(), task.id.clone())
}

/// What the new-task entry's submission callback enqueues: the entered
/// text, bound to the list whose pane the entry sits in.
pub fn add_task_entry_event(text: String, list_id: &String) -> (r: UiEvent)
    ensures
        r == UiEvent::AddTaskEntry(text, *list_id),
{
    UiEvent::AddTaskEntry(text, list_id.clone())
}

} // verus!
