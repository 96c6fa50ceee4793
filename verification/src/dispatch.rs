//! The dispatch loop's decision core.
//!
//! The loop itself lives on a worker execution context: it dequeues one
//! `UiEvent` at a time, performs the remote call the event requires, and
//! forwards the result as a `DataEvent`. Everything it decides is here,
//! as functions from event and state to the remote call to make, and from
//! a call's outcome to the data event to emit; the surrounding runtime
//! only executes those decisions.

use vstd::prelude::*;

use crate::events::{DataEvent, UiEvent};
use crate::models::List;
use crate::remote::ToDoTask;

verus! {

/// The remote call a UI event requires, with its payload.
#[derive(Debug, Clone, PartialEq)]
pub enum Action {
    /// Retrieve the list-collection delta.
    FetchLists,
    /// Retrieve the tasks of the list with the given id.
    GetTasks(String),
    /// Set the completion state of task (list id, task id) to the flag.
    SetCompleted(String, String, bool),
    /// Start the interactive auth flow.
    DoLogin,
    /// Retrieve the detail of task (list id, task id).
    GetTaskDetail(String, String),
    /// Create a task with the given title in the list with the given id.
    CreateTask(String, String),
    /// Exchange a login completion code for a token.
    ExchangeCode(String),
    /// Create a list with the given name.
    CreateList(String),
}

/// What a remote call came back with. A failed call carries nothing: it
/// is logged and that event's processing ends, without retry and without
/// stopping the loop.
#[derive(Debug, Clone, PartialEq)]
pub enum RemoteOutcome {
    /// A list retrieval succeeded with this collection.
    Lists(Vec<List>),
    /// A task retrieval for the given list id succeeded with these tasks.
    Tasks(String, Vec<ToDoTask>),
    /// A detail retrieval for the given list id succeeded, carrying the
    /// retrieved task.
    TaskDetail(String, ToDoTask),
    /// The auth flow or the code exchange completed.
    LoginCompleted,
    /// A write (completion toggle, task or list creation) was accepted.
    WriteAck,
    /// The call failed; transient and non-fatal.
    RemoteError,
}

/// What remote call a UI event requires, given the displayed list
/// collection. `None` means no call is made: a selection index past the
/// end of the collection, and an empty new-list name, are rejected
/// locally.
pub open spec fn action_of(event: UiEvent, lists: Seq<List>) -> Option<Action> {
    match event {
        UiEvent::ListSelected(i) => if i < lists.len() {
            Some(Action::GetTasks(lists[i as int].id_list))
        } else {
            None
        },
        UiEvent::Fetch => Some(Action::FetchLists),
        UiEvent::TaskCompleted(list_id, task_id, completed) => Some(
            Action::SetCompleted(list_id, task_id, completed),
        ),
        UiEvent::Login => Some(Action::DoLogin),
        UiEvent::TaskSelected(list_id, task_id) => Some(Action::GetTaskDetail(list_id, task_id)),
        UiEvent::AddTaskEntry(text, list_id) => Some(Action::CreateTask(text, list_id)),
        UiEvent::Uri(code) => Some(Action::ExchangeCode(code)),
        UiEvent::AddListEntry(text) => if text@.len() == 0 {
            None
        } else {
            Some(Action::CreateList(text))
        },
    }
}

/// What data event a remote outcome yields. Writes are fire-and-forget
/// and failures are swallowed, so both yield no event.
pub open spec fn data_event_of(outcome: RemoteOutcome) -> Option<DataEvent> {
    match outcome {
        RemoteOutcome::Lists(lists) => Some(DataEvent::UpdateLists(lists)),
        RemoteOutcome::Tasks(list_id, tasks) => Some(DataEvent::UpdateTasks(list_id, tasks)),
        RemoteOutcome::TaskDetail(list_id, task) => Some(DataEvent::UpdateDetails(list_id, task)),
        RemoteOutcome::LoginCompleted => Some(DataEvent::Login),
        RemoteOutcome::WriteAck => None,
        RemoteOutcome::RemoteError => None,
    }
}

/// The dispatch loop's per-event decisions and the deep-link capture.
pub struct Handler {}

impl Handler {
    /// Decides which remote call one dequeued UI event requires, against
    /// the currently displayed list collection (which resolves selection
    /// indices to list ids).
    pub fn handle_event(event: &UiEvent, lists: &Vec<List>) -> (r: Option<Action>)
        ensures
            r == action_of(*event, lists@),
    {
        match event {
            UiEvent::ListSelected(i) => {
                if *i < lists.len() {
                    Some(Action::GetTasks(lists[*i].id_list.clone()))
                } else {
                    None
                }
            },
            UiEvent::Fetch => Some(Action::FetchLists),
            UiEvent::TaskCompleted(list_id, task_id, completed) => Some(
                Action::SetCompleted(list_id.clone(), task_id.clone(), *completed),
            ),
            UiEvent::Login => Some(Action::DoLogin),
            UiEvent::TaskSelected(list_id, task_id) => Some(
                Action::GetTaskDetail(list_id.clone(), task_id.clone()),
            ),
            UiEvent::AddTaskEntry(text, list_id) => Some(
                Action::CreateTask(text.clone(), list_id.clone()),
            ),
            UiEvent::Uri(code) => Some(Action::ExchangeCode(code.clone())),
            UiEvent::AddListEntry(text) => {
                if text.unicode_len() == 0 {
                    None
                } else {
                    Some(Action::CreateList(text.clone()))
                }
            },
        }
    }

    /// The loop's decision pass over a queue of UI events: every queued
    /// event is handled exactly once, in arrival order, and turned into
    /// the remote call it requires.
    pub fn handle_events(events: &Vec<UiEvent>, lists: &Vec<List>) -> (r: Vec<Option<Action>>)
        ensures
            r@.len() == events@.len(),
            forall|i: int| 0 <= i < events@.len() ==> r@[i] == action_of(events@[i], lists@),
    {
        let mut r: Vec<Option<Action>> = Vec::new();
        let mut k: usize = 0;
        while k < events.len()
            invariant
                k <= events@.len(),
                r@.len() == k,
                forall|i: int| 0 <= i < k ==> r@[i] == action_of(events@[i], lists@),
            decreases events@.len() - k,
        {
            r.push(Self::handle_event(&events[k], lists));
            k = k + 1;
        }
        r
    }

    /// Turns a remote call's outcome into the data event to forward, if
    /// the outcome calls for one.
    pub fn outcome_event(outcome: RemoteOutcome) -> (r: Option<DataEvent>)
        ensures
            r == data_event_of(outcome),
    {
        match outcome {
            RemoteOutcome::Lists(lists) => Some(DataEvent::UpdateLists(lists)),
            RemoteOutcome::Tasks(list_id, tasks) => Some(DataEvent::UpdateTasks(list_id, tasks)),
            RemoteOutcome::TaskDetail(list_id, task) => Some(
                DataEvent::UpdateDetails(list_id, task),
            ),
            RemoteOutcome::LoginCompleted => Some(DataEvent::Login),
            RemoteOutcome::WriteAck => None,
            RemoteOutcome::RemoteError => None,
        }
    }

    /// Captures a deep link that completes an in-progress login flow: the
    /// first query pair of the delivered URI carries the completion code.
    /// A URI that does not parse or has no query pair yields no event
    /// rather than a crash.
    pub fn handle_uri(uri_text: &str) -> (r: Option<UiEvent>)
        ensures
            crate::trusted::uri_first_query_value(uri_text@) matches Some(code) ==> (r matches Some(
                e,
            ) && e matches UiEvent::Uri(c) && c@ == code),
            crate::trusted::uri_first_query_value(uri_text@) is None ==> r is None,
    {
        match crate::trusted::first_query_value(uri_text) {
            Some(code) => Some(UiEvent::Uri(code)),
            None => None,
        }
    }
}

/// A Fetch event makes exactly one remote call, the list retrieval; a
/// successful retrieval yields exactly one data event, an UpdateLists
/// carrying the very collection the call returned; and applying that
/// event replaces the displayed lists with exactly that collection. So a
/// successful fetch delivers the collection to the presentation layer
/// without loss or duplication, whatever was displayed before.
pub proof fn lemma_fetch_delivers_lists(displayed: Seq<List>, s: crate::ui_state::UiState, lists: Vec<List>)
    ensures
        action_of(UiEvent::Fetch, displayed) == Some(Action::FetchLists),
        data_event_of(RemoteOutcome::Lists(lists)) == Some(DataEvent::UpdateLists(lists)),
        crate::ui_state::apply_spec(s, DataEvent::UpdateLists(lists)).lists == lists,
{
}

} // verus!
