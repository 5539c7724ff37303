use taskdb::store::TaskTable;
use taskdb::task::{ApiError, Task, TaskReq};

fn req(task: &str, time: &str, subject: &str) -> TaskReq {
    TaskReq {
        task: Some(task.to_string()),
        time: Some(time.to_string()),
        subject: Some(subject.to_string()),
    }
}

fn assert_task_eq(a: &Task, b: &Task) {
    assert_eq!(a.id, b.id);
    assert_eq!(a.task, b.task);
    assert_eq!(a.time, b.time);
    assert_eq!(a.subject, b.subject);
}

#[test]
fn round_trip_create_then_get() {
    let mut table = TaskTable::new();
    let created = table.insert_task(req("A", "B", "C"));
    assert_eq!(created.len(), 1);
    let id = created[0].id;
    assert_ne!(id, 0);
    let got = table.get_task_by_id(id);
    assert_eq!(got.len(), 1);
    assert_eq!(got[0].id, id);
    assert_eq!(got[0].task, Some("A".to_string()));
    assert_eq!(got[0].time, Some("B".to_string()));
    assert_eq!(got[0].subject, Some("C".to_string()));
}

#[test]
fn list_twice_identical() {
    let mut table = TaskTable::new();
    table.insert_task(req("one", "1 min", "x"));
    table.insert_task(req("two", "2 min", "y"));
    let first = table.list_tasks();
    let second = table.list_tasks();
    assert_eq!(first.len(), 2);
    assert_eq!(first.len(), second.len());
    for (a, b) in first.iter().zip(second.iter()) {
        assert_task_eq(a, b);
    }
}

#[test]
fn get_missing_id_is_empty_not_error() {
    let mut table = TaskTable::new();
    table.insert_task(req("one", "1 min", "x"));
    let got = table.get_task_by_id(999999);
    assert_eq!(got.len(), 0);
}

#[test]
fn get_on_empty_table_is_empty() {
    let table = TaskTable::new();
    assert_eq!(table.get_task_by_id(999999).len(), 0);
}

#[test]
fn update_missing_id_echoes_and_changes_nothing() {
    let mut table = TaskTable::new();
    table.insert_task(req("one", "1 min", "x"));
    let before = table.list_tasks();
    let probe = Task {
        id: 999999,
        task: Some("ghost".to_string()),
        time: None,
        subject: None,
    };
    let echoed = table.update_task(probe);
    assert_eq!(echoed.len(), 1);
    assert_eq!(echoed[0].id, 999999);
    assert_eq!(echoed[0].task, Some("ghost".to_string()));
    assert_eq!(echoed[0].time, None);
    let after = table.list_tasks();
    assert_eq!(before.len(), after.len());
    for (a, b) in before.iter().zip(after.iter()) {
        assert_task_eq(a, b);
    }
}

#[test]
fn update_existing_id_replaces_fields() {
    let mut table = TaskTable::new();
    let created = table.insert_task(req("old", "old time", "old subject"));
    let id = created[0].id;
    table.insert_task(req("other", "t", "s"));
    let replacement = Task {
        id,
        task: Some("new".to_string()),
        time: None,
        subject: Some("new subject".to_string()),
    };
    table.update_task(replacement);
    let got = table.get_task_by_id(id);
    assert_eq!(got.len(), 1);
    assert_eq!(got[0].task, Some("new".to_string()));
    assert_eq!(got[0].time, None);
    assert_eq!(got[0].subject, Some("new subject".to_string()));
    let other = table.get_task_by_id(2);
    assert_eq!(other.len(), 1);
    assert_eq!(other[0].task, Some("other".to_string()));
}

#[test]
fn sequential_creates_get_distinct_ids() {
    let mut table = TaskTable::new();
    let mut ids: Vec<u32> = Vec::new();
    for i in 0..5 {
        let created = table.insert_task(req(&format!("t{}", i), "", ""));
        ids.push(created[0].id);
    }
    for i in 0..ids.len() {
        for j in (i + 1)..ids.len() {
            assert_ne!(ids[i], ids[j]);
        }
    }
}

#[test]
fn nullable_fields_survive_round_trip() {
    let mut table = TaskTable::new();
    let created = table.insert_task(TaskReq { task: None, time: None, subject: None });
    let id = created[0].id;
    let got = table.get_task_by_id(id);
    assert_eq!(got.len(), 1);
    assert_eq!(got[0].task, None);
    assert_eq!(got[0].time, None);
    assert_eq!(got[0].subject, None);
}

#[test]
fn default_task_holds_the_sample() {
    let t = Task::default();
    assert_eq!(t.id, 0);
    assert_eq!(t.task, Some("Do my homework".to_string()));
    assert_eq!(t.time, Some("50 min".to_string()));
    assert_eq!(t.subject, Some("math".to_string()));
}

#[test]
fn request_becomes_task_with_unassigned_id() {
    let r = req("X", "Y", "Z");
    let t = r.into_task();
    assert_eq!(t.id, 0);
    assert_eq!(t.task, Some("X".to_string()));
    assert_eq!(t.time, Some("Y".to_string()));
    assert_eq!(t.subject, Some("Z".to_string()));
}

#[test]
fn status_message_is_fixed() {
    assert_eq!(taskdb::task::status_message(), "Server is running");
}

#[test]
fn error_status_codes() {
    assert_eq!(ApiError::StorageUnavailable.status_code(), 500);
    assert_eq!(ApiError::QueryFailed.status_code(), 500);
    assert_eq!(ApiError::MalformedInput.status_code(), 400);
}
