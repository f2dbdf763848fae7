use tmgr::model::{CommandResult, Task, TaskErrorKind, TaskPriority, TmgrError, TmgrErrorKind};

#[test]
fn builder_sets_every_field() {
    let t = Task::builder()
        .id("task:xyz".to_string())
        .name("n".to_string())
        .priority(TaskPriority::High)
        .description("d".to_string())
        .work_note_path("/p.md".to_string())
        .created_at("c".to_string())
        .completed_at("e".to_string())
        .build();
    assert_eq!(*t.raw_id(), Some("task:xyz".to_string()));
    assert_eq!(t.name(), "n");
    assert_eq!(*t.priority(), TaskPriority::High);
    assert_eq!(*t.description(), Some("d".to_string()));
    assert_eq!(*t.work_note_path(), Some("/p.md".to_string()));
    assert_eq!(t.created_at(), "c");
    assert_eq!(*t.completed_at(), Some("e".to_string()));
}

#[test]
fn default_task_is_empty_and_low() {
    let t = Task::default();
    assert_eq!(t.name(), "");
    assert_eq!(*t.priority(), TaskPriority::Low);
    assert_eq!(*t.raw_id(), None);
    assert_eq!(TaskPriority::default(), TaskPriority::Low);
}

#[test]
fn id_strips_the_task_prefix() {
    let t = Task::builder().id("task:abc123".to_string()).build();
    assert_eq!(t.id().unwrap(), "abc123");
}

#[test]
fn id_without_prefix_is_an_error() {
    let t = Task::builder().id("abc123".to_string()).build();
    let e = t.id().unwrap_err();
    assert_eq!(e.kind(), TaskErrorKind::BadPrefix);
    assert_eq!(
        e.to_string(),
        "Task ID from database is not prefixed with 'task:'. Expected 'task:<id>', but got 'abc123' (task error: Bad prefix)"
    );
}

#[test]
fn missing_id_is_an_error() {
    let e = Task::builder().build().id().unwrap_err();
    assert_eq!(e.kind(), TaskErrorKind::NoId);
    assert_eq!(e.to_string(), "Task ID is not set (task error: No id)");
}

#[test]
fn table_rows_follow_the_fields() {
    let t = Task::builder().id("task:1".to_string()).name("n".to_string()).build();
    let rows = t.to_table_rows();
    let names: Vec<String> = rows.iter().map(|r| r.0.clone()).collect();
    assert_eq!(names, Task::fields());
    assert_eq!(rows[0].1, "1");
    assert_eq!(rows[2].1, "Low");
    assert_eq!(rows[3].1, "None");
    assert_eq!(rows[5].1, "In Progress");
    let picked = t.to_table_rows_filtered(&["name".to_string(), "id".to_string()]);
    assert_eq!(picked, vec![("name".to_string(), "n".to_string()), ("id".to_string(), "1".to_string())]);
}

#[test]
fn bad_id_shows_as_error_in_tables() {
    let t = Task::builder().id("1".to_string()).build();
    assert_eq!(t.field_value("id"), "Error getting ID");
}

#[test]
fn priority_names() {
    assert_eq!(TaskPriority::Low.to_string(), "Low");
    assert_eq!(TaskPriority::Medium.to_string(), "Medium");
    assert_eq!(TaskPriority::High.to_string(), "High");
}

#[test]
fn tmgr_error_text() {
    let e = TmgrError::new(TmgrErrorKind::Tmgr, "m".to_string());
    assert_eq!(e.kind(), TmgrErrorKind::Tmgr);
    assert_eq!(e.to_string(), "m (tmgr error: Tmgr error)");
}

#[test]
fn command_result_holds_message_and_data() {
    let r = CommandResult::new("done".to_string(), 5);
    assert_eq!(r.message(), "done");
    assert_eq!(*r.result(), 5);
}
