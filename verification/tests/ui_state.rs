//! The presentation layer's state transitions.

use done_core::events::{DataEvent, UiEvent};
use done_core::models::{List, TaskImportance};
use done_core::remote::{ItemBody, ToDoTask, ToDoTaskStatus};
use done_core::ui_state::{
    add_task_entry_event, task_selected_event, task_toggled_event, UiState,
};

fn sample_lists() -> Vec<List> {
    vec![List {
        id_list: "a".to_string(),
        display_name: "Work".to_string(),
        is_owner: true,
        count: 3,
        icon_name: None,
    }]
}

fn sample_task(id: &str, status: ToDoTaskStatus) -> ToDoTask {
    ToDoTask {
        id: id.to_string(),
        body: ItemBody {
            content: "".to_string(),
            content_type: "text".to_string(),
        },
        completed_date_time: None,
        due_date_time: None,
        importance: TaskImportance::Normal,
        is_reminder_on: false,
        reminder_date_time: None,
        status,
        title: "Report".to_string(),
        created_date_time: None,
        last_modified_date_time: None,
    }
}

#[test]
fn applying_the_same_update_lists_twice_leaves_identical_content() {
    let lists = sample_lists();
    let mut state = UiState::new();
    state.apply_data_event(DataEvent::UpdateLists(lists.clone()));
    let after_once = state.clone();
    state.apply_data_event(DataEvent::UpdateLists(lists.clone()));
    assert_eq!(state, after_once);
    assert_eq!(state.lists.len(), 1);
    assert_eq!(state.lists, lists);
}

#[test]
fn update_tasks_replaces_the_task_pane_and_nothing_else() {
    let mut state = UiState::new();
    state.apply_data_event(DataEvent::UpdateLists(sample_lists()));
    let tasks = vec![sample_task("t1", ToDoTaskStatus::NotStarted)];
    state.apply_data_event(DataEvent::UpdateTasks("a".to_string(), tasks.clone()));
    let pane = state.task_pane.clone().unwrap();
    assert_eq!(pane.list_id, "a");
    assert_eq!(pane.tasks, tasks);
    assert_eq!(state.lists, sample_lists());
    assert!(state.detail_pane.is_none());

    // A second update for another list replaces the pane wholesale.
    let other = vec![sample_task("t9", ToDoTaskStatus::Completed)];
    state.apply_data_event(DataEvent::UpdateTasks("b".to_string(), other.clone()));
    let pane = state.task_pane.clone().unwrap();
    assert_eq!(pane.list_id, "b");
    assert_eq!(pane.tasks, other);
}

#[test]
fn update_details_replaces_the_detail_pane() {
    let mut state = UiState::new();
    let task = sample_task("t1", ToDoTaskStatus::NotStarted);
    state.apply_data_event(DataEvent::UpdateDetails("a".to_string(), task.clone()));
    let pane = state.detail_pane.clone().unwrap();
    assert_eq!(pane.list_id, "a");
    assert_eq!(pane.task, task);
    assert!(state.task_pane.is_none());
}

#[test]
fn callback_events_carry_exactly_their_payload() {
    let list_id = "a".to_string();
    let task = sample_task("t1", ToDoTaskStatus::Completed);
    assert_eq!(
        task_toggled_event(&list_id, &task),
        UiEvent::TaskCompleted("a".to_string(), "t1".to_string(), true)
    );
    let open = sample_task("t2", ToDoTaskStatus::Started);
    assert_eq!(
        task_toggled_event(&list_id, &open),
        UiEvent::TaskCompleted("a".to_string(), "t2".to_string(), false)
    );
    assert_eq!(
        task_selected_event(&list_id, &task),
        UiEvent::TaskSelected("a".to_string(), "t1".to_string())
    );
    assert_eq!(
        add_task_entry_event("write report".to_string(), &list_id),
        UiEvent::AddTaskEntry("write report".to_string(), "a".to_string())
    );
}
