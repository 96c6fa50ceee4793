//! Local domain models: task lists, tasks, and their plain value types.

use vstd::prelude::*;

verus! {

/// A moment in time, carried as its RFC 3339 text in UTC, exactly as the
/// remote service transmits it. The core never computes with the moment
/// itself, so the text is the whole model; rendering it as a calendar
/// value is the presentation layer's concern.
#[derive(Debug, Clone, PartialEq)]
pub struct Timestamp {
    pub moment: String,
}

/// How urgent a task is.
#[derive(Debug, Clone, Copy, PartialEq, Eq, Structural)]
pub enum TaskImportance {
    Low,
    Normal,
    High,
}

impl Default for TaskImportance {
    /// A task is of normal importance unless said otherwise.
    fn default() -> (r: TaskImportance)
        ensures
            r is Normal,
    {
        TaskImportance::Normal
    }
}

/// The two task states the client distinguishes; the remote service's
/// finer states collapse onto these.
#[derive(Debug, Clone, Copy, PartialEq, Eq, Structural)]
pub enum TaskStatus {
    NotStarted,
    Completed,
}

impl Default for TaskStatus {
    /// A task starts out not started.
    fn default() -> (r: TaskStatus)
        ensures
            r is NotStarted,
    {
        TaskStatus::NotStarted
    }
}

/// A single task. It belongs to exactly one list, referenced by list id
/// where needed, never by embedding.
#[derive(Debug, Clone, PartialEq)]
pub struct Task {
    pub title: String,
    pub body: String,
    pub completed_on: Option<Timestamp>,
    pub due_date: Option<Timestamp>,
    pub importance: TaskImportance,
    pub is_reminder_on: bool,
    pub reminder_date: Option<Timestamp>,
    pub status: TaskStatus,
    pub created_date_time: Timestamp,
    pub last_modified_date_time: Timestamp,
}

impl Task {
    /// Whether the task is done.
    pub fn is_completed(&self) -> (r: bool)
        ensures
            r == (self.status is Completed),
    {
        matches!(self.status, TaskStatus::Completed)
    }
}

/// A task list as displayed in the sidebar.
///
/// `id_list` is an opaque stable identifier: generated locally for new
/// lists, remote-assigned for synced ones. `count` is the informational
/// task count shown beside the name.
#[derive(Debug, Clone, PartialEq)]
pub struct List {
    pub id_list: String,
    pub display_name: String,
    pub is_owner: bool,
    pub count: i32,
    pub icon_name: Option<String>,
}

impl List {
    /// Builds a locally created list: it gets a fresh identifier and the
    /// current user as owner. An empty icon name means no icon.
    pub fn new(display_name: &str, icon_name: &str, count: i32) -> (r: List)
        ensures
            r.id_list@.len() == 36,
            r.display_name@ == display_name@,
            r.is_owner,
            r.count == count,
            icon_name@.len() == 0 ==> r.icon_name is None,
            icon_name@.len() > 0 ==> (r.icon_name matches Some(n) && n@ == icon_name@),
    {
        let icon_name = if icon_name.unicode_len() == 0 {
            None
        } else {
            Some(icon_name.to_string())
        };
        List {
            id_list: crate::trusted::new_list_id(),
            display_name: display_name.to_string(),
            is_owner: true,
            count,
            icon_name,
        }
    }
}

} // verus!
