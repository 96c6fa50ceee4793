//! The remote service's task representation and its conversion into the
//! local domain model.
//!
//! The remote model is richer than the local one: a five-state status and
//! timestamp wrapper fields that may be absent. Conversion collapses the
//! status and demands every timestamp field; a missing one is surfaced as
//! a recoverable error, never a crash of the worker.

use vstd::prelude::*;

use crate::models::{Task, TaskImportance, TaskStatus, Timestamp};

verus! {

/// A timestamp as the remote service sends it: the moment's text and the
/// name of the time zone it is expressed in.
#[derive(Debug, Clone, PartialEq)]
pub struct DateTimeTimeZone {
    pub date_time: String,
    pub time_zone: String,
}

/// A task body as the remote service sends it: free text plus the name of
/// its content type.
#[derive(Debug, Clone, PartialEq)]
pub struct ItemBody {
    pub content: String,
    pub content_type: String,
}

impl Default for ItemBody {
    /// An empty plain-text body.
    fn default() -> (r: ItemBody)
        ensures
            r.content@ == Seq::<char>::empty(),
            r.content_type@ == "text"@,
    {
        ItemBody { content: String::new(), content_type: "text".to_string() }
    }
}

/// The remote service's task status. Finer than the local one: conversion
/// keeps only Completed and collapses everything else to NotStarted.
#[derive(Debug, Clone, Copy, PartialEq, Eq, Structural)]
pub enum ToDoTaskStatus {
    NotStarted,
    Started,
    Completed,
    WaitingOnOthers,
    Deferred,
}

impl Default for ToDoTaskStatus {
    /// A remote task starts out not started.
    fn default() -> (r: ToDoTaskStatus)
        ensures
            r is NotStarted,
    {
        ToDoTaskStatus::NotStarted
    }
}

/// What the local status a remote status maps to is.
pub open spec fn status_of_remote(s: ToDoTaskStatus) -> TaskStatus {
    match s {
        ToDoTaskStatus::Completed => TaskStatus::Completed,
        _ => TaskStatus::NotStarted,
    }
}

/// What the remote status a local status maps back to is.
pub open spec fn remote_of_status(s: TaskStatus) -> ToDoTaskStatus {
    match s {
        TaskStatus::Completed => ToDoTaskStatus::Completed,
        TaskStatus::NotStarted => ToDoTaskStatus::NotStarted,
    }
}

impl ToDoTaskStatus {
    /// Collapses the remote status onto the two states the client keeps.
    pub fn to_local(self) -> (r: TaskStatus)
        ensures
            r == status_of_remote(self),
    {
        match self {
            ToDoTaskStatus::Completed => TaskStatus::Completed,
            _ => TaskStatus::NotStarted,
        }
    }
}

impl TaskStatus {
    /// Expresses the local status in the remote vocabulary.
    pub fn to_remote(self) -> (r: ToDoTaskStatus)
        ensures
            r == remote_of_status(self),
    {
        match self {
            TaskStatus::Completed => ToDoTaskStatus::Completed,
            TaskStatus::NotStarted => ToDoTaskStatus::NotStarted,
        }
    }
}

/// A task as the remote service sends it.
#[derive(Debug, Clone, PartialEq)]
pub struct ToDoTask {
    pub id: String,
    pub body: ItemBody,
    pub completed_date_time: Option<DateTimeTimeZone>,
    pub due_date_time: Option<DateTimeTimeZone>,
    pub importance: TaskImportance,
    pub is_reminder_on: bool,
    pub reminder_date_time: Option<DateTimeTimeZone>,
    pub status: ToDoTaskStatus,
    pub title: String,
    pub created_date_time: Option<DateTimeTimeZone>,
    pub last_modified_date_time: Option<DateTimeTimeZone>,
}

impl Default for ToDoTask {
    /// A blank remote task: empty identifier and title, empty plain-text
    /// body, no timestamps, normal importance, not started.
    fn default() -> (r: ToDoTask)
        ensures
            r.id@ == Seq::<char>::empty(),
            r.body.content@ == Seq::<char>::empty(),
            r.completed_date_time is None,
            r.due_date_time is None,
            r.importance is Normal,
            !r.is_reminder_on,
            r.reminder_date_time is None,
            r.status is NotStarted,
            r.title@ == Seq::<char>::empty(),
            r.created_date_time is None,
            r.last_modified_date_time is None,
    {
        ToDoTask {
            id: String::new(),
            body: ItemBody::default(),
            completed_date_time: None,
            due_date_time: None,
            importance: TaskImportance::default(),
            is_reminder_on: false,
            reminder_date_time: None,
            status: ToDoTaskStatus::default(),
            title: String::new(),
            created_date_time: None,
            last_modified_date_time: None,
        }
    }
}

/// Why a remote task could not be converted: the timestamp field that was
/// absent, though conversion needs every one of them.
#[derive(Debug, Clone, Copy, PartialEq, Eq, Structural)]
pub enum ConversionError {
    MissingCompletedOn,
    MissingDueDate,
    MissingReminderDate,
    MissingCreatedDate,
    MissingLastModifiedDate,
}

/// What converting a remote task yields: the local task when every
/// timestamp field is present, else the first absent field, checked in
/// the order the remote model declares them.
pub open spec fn task_of_remote(t: ToDoTask) -> Result<Task, ConversionError> {
    if t.completed_date_time is None {
        Err(ConversionError::MissingCompletedOn)
    } else if t.due_date_time is None {
        Err(ConversionError::MissingDueDate)
    } else if t.reminder_date_time is None {
        Err(ConversionError::MissingReminderDate)
    } else if t.created_date_time is None {
        Err(ConversionError::MissingCreatedDate)
    } else if t.last_modified_date_time is None {
        Err(ConversionError::MissingLastModifiedDate)
    } else {
        Ok(Task {
            title: t.title,
            body: t.body.content,
            completed_on: Some(Timestamp { moment: t.completed_date_time->Some_0.date_time }),
            due_date: Some(Timestamp { moment: t.due_date_time->Some_0.date_time }),
            importance: t.importance,
            is_reminder_on: t.is_reminder_on,
            reminder_date: Some(Timestamp { moment: t.reminder_date_time->Some_0.date_time }),
            status: status_of_remote(t.status),
            created_date_time: Timestamp { moment: t.created_date_time->Some_0.date_time },
            last_modified_date_time: Timestamp { moment: t.last_modified_date_time->Some_0.date_time },
        })
    }
}

/// What expressing a local task in the remote vocabulary yields. The
/// local model carries no task identifier, no time zone name and no body
/// content type, so the caller supplies those three.
pub open spec fn remote_of_task(t: Task, id: String, zone: String, content_type: String) -> ToDoTask {
    ToDoTask {
        id: id,
        body: ItemBody { content: t.body, content_type: content_type },
        completed_date_time: match t.completed_on {
            Some(ts) => Some(DateTimeTimeZone { date_time: ts.moment, time_zone: zone }),
            None => None,
        },
        due_date_time: match t.due_date {
            Some(ts) => Some(DateTimeTimeZone { date_time: ts.moment, time_zone: zone }),
            None => None,
        },
        importance: t.importance,
        is_reminder_on: t.is_reminder_on,
        reminder_date_time: match t.reminder_date {
            Some(ts) => Some(DateTimeTimeZone { date_time: ts.moment, time_zone: zone }),
            None => None,
        },
        status: remote_of_status(t.status),
        title: t.title,
        created_date_time: Some(DateTimeTimeZone { date_time: t.created_date_time.moment, time_zone: zone }),
        last_modified_date_time: Some(DateTimeTimeZone { date_time: t.last_modified_date_time.moment, time_zone: zone }),
    }
}

impl ToDoTask {
    /// Whether the remote task is done.
    pub fn is_completed(&self) -> (r: bool)
        ensures
            r == (self.status is Completed),
    {
        matches!(self.status, ToDoTaskStatus::Completed)
    }

    /// Converts the remote task into the local model. Fails, recoverably,
    /// when a timestamp field is absent.
    pub fn into_task(self) -> (r: Result<Task, ConversionError>)
        ensures
            r == task_of_remote(self),
    {
        let completed = match self.completed_date_time {
            Some(d) => d,
            None => { return Err(ConversionError::MissingCompletedOn); },
        };
        let due = match self.due_date_time {
            Some(d) => d,
            None => { return Err(ConversionError::MissingDueDate); },
        };
        let reminder = match self.reminder_date_time {
            Some(d) => d,
            None => { return Err(ConversionError::MissingReminderDate); },
        };
        let created = match self.created_date_time {
            Some(d) => d,
            None => { return Err(ConversionError::MissingCreatedDate); },
        };
        let modified = match self.last_modified_date_time {
            Some(d) => d,
            None => { return Err(ConversionError::MissingLastModifiedDate); },
        };
        Ok(Task {
            title: self.title,
            body: self.body.content,
            completed_on: Some(Timestamp { moment: completed.date_time }),
            due_date: Some(Timestamp { moment: due.date_time }),
            importance: self.importance,
            is_reminder_on: self.is_reminder_on,
            reminder_date: Some(Timestamp { moment: reminder.date_time }),
            status: self.status.to_local(),
            created_date_time: Timestamp { moment: created.date_time },
            last_modified_date_time: Timestamp { moment: modified.date_time },
        })
    }
}

impl Task {
    /// Expresses the local task in the remote vocabulary, under the given
    /// task identifier, time zone name and body content type, which the
    /// local model does not carry.
    pub fn into_remote(self, id: String, zone: String, content_type: String) -> (r: ToDoTask)
        ensures
            r == remote_of_task(self, id, zone, content_type),
    {
        ToDoTask {
            id: id,
            body: ItemBody { content: self.body, content_type: content_type },
            completed_date_time: match self.completed_on {
                Some(ts) => Some(DateTimeTimeZone { date_time: ts.moment, time_zone: zone.clone() }),
                None => None,
            },
            due_date_time: match self.due_date {
                Some(ts) => Some(DateTimeTimeZone { date_time: ts.moment, time_zone: zone.clone() }),
                None => None,
            },
            importance: self.importance,
            is_reminder_on: self.is_reminder_on,
            reminder_date_time: match self.reminder_date {
                Some(ts) => Some(DateTimeTimeZone { date_time: ts.moment, time_zone: zone.clone() }),
                None => None,
            },
            status: self.status.to_remote(),
            title: self.title,
            created_date_time: Some(DateTimeTimeZone { date_time: self.created_date_time.moment, time_zone: zone.clone() }),
            last_modified_date_time: Some(DateTimeTimeZone { date_time: self.last_modified_date_time.moment, time_zone: zone }),
        }
    }
}

/// Converting a remote task with every timestamp field present into the
/// local model and back preserves the title, the status (for the two
/// statuses the local model distinguishes) and every timestamp.
pub proof fn lemma_remote_round_trip(t: ToDoTask, id: String, zone: String, content_type: String)
    requires
        task_of_remote(t) is Ok,
        t.status is NotStarted || t.status is Completed,
    ensures
        ({
            let back = remote_of_task(task_of_remote(t)->Ok_0, id, zone, content_type);
            &&& back.title == t.title
            &&& back.status == t.status
            &&& back.completed_date_time->Some_0.date_time == t.completed_date_time->Some_0.date_time
            &&& back.due_date_time->Some_0.date_time == t.due_date_time->Some_0.date_time
            &&& back.reminder_date_time->Some_0.date_time == t.reminder_date_time->Some_0.date_time
            &&& back.created_date_time->Some_0.date_time == t.created_date_time->Some_0.date_time
            &&& back.last_modified_date_time->Some_0.date_time == t.last_modified_date_time->Some_0.date_time
        }),
{
}

} // verus!
