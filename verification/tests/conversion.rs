//! Conversion between the remote task representation and the local model,
//! and the local model types themselves.

use done_core::models::{List, Task, TaskImportance, TaskStatus, Timestamp};
use done_core::remote::{
    ConversionError, DateTimeTimeZone, ItemBody, ToDoTask, ToDoTaskStatus,
};

fn dtz(moment: &str) -> DateTimeTimeZone {
    DateTimeTimeZone {
        date_time: moment.to_string(),
        time_zone: "UTC".to_string(),
    }
}

fn full_remote_task() -> ToDoTask {
    ToDoTask {
        id: "t1".to_string(),
        body: ItemBody {
            content: "buy milk".to_string(),
            content_type: "text".to_string(),
        },
        completed_date_time: Some(dtz("2022-01-03T10:00:00Z")),
        due_date_time: Some(dtz("2022-01-02T09:00:00Z")),
        importance: TaskImportance::High,
        is_reminder_on: true,
        reminder_date_time: Some(dtz("2022-01-02T08:00:00Z")),
        status: ToDoTaskStatus::Completed,
        title: "Milk".to_string(),
        created_date_time: Some(dtz("2022-01-01T07:00:00Z")),
        last_modified_date_time: Some(dtz("2022-01-03T10:00:00Z")),
    }
}

#[test]
fn conversion_with_all_timestamps_present_succeeds() {
    let task = full_remote_task().into_task().unwrap();
    assert_eq!(task.title, "Milk");
    assert_eq!(task.body, "buy milk");
    assert_eq!(task.status, TaskStatus::Completed);
    assert_eq!(task.importance, TaskImportance::High);
    assert!(task.is_reminder_on);
    assert_eq!(task.completed_on.unwrap().moment, "2022-01-03T10:00:00Z");
    assert_eq!(task.due_date.unwrap().moment, "2022-01-02T09:00:00Z");
    assert_eq!(task.reminder_date.unwrap().moment, "2022-01-02T08:00:00Z");
    assert_eq!(task.created_date_time.moment, "2022-01-01T07:00:00Z");
    assert_eq!(task.last_modified_date_time.moment, "2022-01-03T10:00:00Z");
}

#[test]
fn conversion_fails_recoverably_on_each_missing_timestamp() {
    let mut t = full_remote_task();
    t.completed_date_time = None;
    assert_eq!(t.into_task(), Err(ConversionError::MissingCompletedOn));

    let mut t = full_remote_task();
    t.due_date_time = None;
    assert_eq!(t.into_task(), Err(ConversionError::MissingDueDate));

    let mut t = full_remote_task();
    t.reminder_date_time = None;
    assert_eq!(t.into_task(), Err(ConversionError::MissingReminderDate));

    let mut t = full_remote_task();
    t.created_date_time = None;
    assert_eq!(t.into_task(), Err(ConversionError::MissingCreatedDate));

    let mut t = full_remote_task();
    t.last_modified_date_time = None;
    assert_eq!(t.into_task(), Err(ConversionError::MissingLastModifiedDate));
}

#[test]
fn round_trip_preserves_title_status_and_timestamps() {
    let original = full_remote_task();
    let task = original.clone().into_task().unwrap();
    let back = task.into_remote("t1".to_string(), "UTC".to_string(), "text".to_string());
    assert_eq!(back.title, original.title);
    assert_eq!(back.status, original.status);
    assert_eq!(
        back.completed_date_time.unwrap().date_time,
        original.completed_date_time.unwrap().date_time
    );
    assert_eq!(
        back.due_date_time.unwrap().date_time,
        original.due_date_time.unwrap().date_time
    );
    assert_eq!(
        back.reminder_date_time.unwrap().date_time,
        original.reminder_date_time.unwrap().date_time
    );
    assert_eq!(
        back.created_date_time.unwrap().date_time,
        original.created_date_time.unwrap().date_time
    );
    assert_eq!(
        back.last_modified_date_time.unwrap().date_time,
        original.last_modified_date_time.unwrap().date_time
    );
}

#[test]
fn remote_status_collapses_onto_the_two_local_states() {
    assert_eq!(ToDoTaskStatus::Completed.to_local(), TaskStatus::Completed);
    assert_eq!(ToDoTaskStatus::NotStarted.to_local(), TaskStatus::NotStarted);
    assert_eq!(ToDoTaskStatus::Started.to_local(), TaskStatus::NotStarted);
    assert_eq!(
        ToDoTaskStatus::WaitingOnOthers.to_local(),
        TaskStatus::NotStarted
    );
    assert_eq!(ToDoTaskStatus::Deferred.to_local(), TaskStatus::NotStarted);
    assert_eq!(TaskStatus::Completed.to_remote(), ToDoTaskStatus::Completed);
    assert_eq!(TaskStatus::NotStarted.to_remote(), ToDoTaskStatus::NotStarted);
}

#[test]
fn is_completed_reads_the_status() {
    let mut t = full_remote_task();
    assert!(t.is_completed());
    t.status = ToDoTaskStatus::Started;
    assert!(!t.is_completed());
    let local = Task {
        title: "x".to_string(),
        body: "".to_string(),
        completed_on: None,
        due_date: None,
        importance: TaskImportance::Low,
        is_reminder_on: false,
        reminder_date: Some(Timestamp {
            moment: "2022-01-02T08:00:00Z".to_string(),
        }),
        status: TaskStatus::NotStarted,
        created_date_time: Timestamp {
            moment: "2022-01-01T07:00:00Z".to_string(),
        },
        last_modified_date_time: Timestamp {
            moment: "2022-01-03T10:00:00Z".to_string(),
        },
    };
    assert!(!local.is_completed());
}

#[test]
fn defaults_are_the_blank_remote_task() {
    let t = ToDoTask::default();
    assert_eq!(t.id, "");
    assert_eq!(t.title, "");
    assert_eq!(t.body.content, "");
    assert_eq!(t.body.content_type, "text");
    assert_eq!(t.status, ToDoTaskStatus::NotStarted);
    assert_eq!(t.importance, TaskImportance::Normal);
    assert!(!t.is_reminder_on);
    assert!(t.completed_date_time.is_none());
    assert!(t.due_date_time.is_none());
    assert!(t.reminder_date_time.is_none());
    assert!(t.created_date_time.is_none());
    assert!(t.last_modified_date_time.is_none());
}

#[test]
fn new_list_gets_a_fresh_uuid_and_the_given_fields() {
    let l = List::new("Groceries", "", 4);
    assert_eq!(l.display_name, "Groceries");
    assert!(l.is_owner);
    assert_eq!(l.count, 4);
    assert_eq!(l.icon_name, None);
    assert_eq!(l.id_list.chars().count(), 36);
    let m = List::new("Chores", "broom", 0);
    assert_eq!(m.icon_name, Some("broom".to_string()));
    // Fresh identifiers: two locally created lists never collide.
    assert_ne!(l.id_list, m.id_list);
}
