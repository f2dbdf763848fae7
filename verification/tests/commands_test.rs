use tmgr::cli::model::TmgrVersion;
use tmgr::commands::add::{new_task, report as add_report, AddErrorKind};
use tmgr::commands::complete::{plan as complete_plan, report as complete_report, CompleteErrorKind};
use tmgr::commands::delete::{plan as delete_plan, report as delete_report, DeleteErrorKind};
use tmgr::commands::list::{list_headers, list_rows, run as list_run};
use tmgr::commands::migrate::{major_of, migration_steps, report as migrate_report, MigrateErrorKind};
use tmgr::commands::note::{editor_failed, editor_lost, editor_of, NoteErrorKind};
use tmgr::commands::note::{note_contents, path_from_id, plan as note_plan, report as note_report, NotePlan};
use tmgr::commands::status::{count_tasks, report as status_report};
use tmgr::commands::update::{plan as update_plan, report as update_report};
use tmgr::commands::view::{run as view_run, view_headers, view_rows, ViewErrorKind};
use tmgr::model::{Task, TaskPriority, TmgrErrorKind};

fn task(id: &str, name: &str) -> Task {
    Task::builder()
        .id(format!("task:{}", id))
        .name(name.to_string())
        .priority(TaskPriority::Medium)
        .description("some description".to_string())
        .created_at("1970-01-01T00:00:00Z".to_string())
        .build()
}

fn done_task(id: &str, name: &str) -> Task {
    Task::builder()
        .id(format!("task:{}", id))
        .name(name.to_string())
        .created_at("2025-01-01T00:00:00Z".to_string())
        .completed_at("2025-01-02T00:00:00Z".to_string())
        .build()
}

#[test]
fn new_task_defaults_to_low_priority() {
    let t = new_task("test", None, None);
    assert_eq!(t.name(), "test");
    assert_eq!(*t.priority(), TaskPriority::Low);
    assert_eq!(*t.description(), None);
    assert_eq!(*t.raw_id(), None);
}

#[test]
fn new_task_keeps_priority_and_description() {
    let t = new_task("test", Some(TaskPriority::Medium), Some("some description".to_string()));
    assert_eq!(*t.priority(), TaskPriority::Medium);
    assert_eq!(*t.description(), Some("some description".to_string()));
}

#[test]
fn add_reports_the_created_task() {
    let stored = task("abc", "test");
    assert_eq!(add_report("test", Ok(Some(stored))).unwrap(), "Task 'abc' created successfully");
    let e = add_report("test", Ok(None)).unwrap_err();
    assert_eq!(e.kind(), AddErrorKind::FailedToCreateTask);
    assert_eq!(e.to_string(), "Database did not return a task for 'test'. (add error: Failed to create task)");
    let e = add_report("test", Err(())).unwrap_err();
    assert_eq!(e.kind(), AddErrorKind::DatabaseError);
    assert_eq!(e.to_string(), "Failed to create task: 'test'. (add error: Database error)");
    let bad = Task::builder().id("abc".to_string()).name("test".to_string()).build();
    let e = add_report("test", Ok(Some(bad))).unwrap_err();
    assert_eq!(e.kind(), AddErrorKind::BadTaskId);
    assert_eq!(e.to_tmgr_error().kind(), TmgrErrorKind::AddCommand);
}

#[test]
fn complete_finds_the_task_by_partial_id() {
    let tasks = vec![task("one", "one task"), task("two", "two task")];
    assert_eq!(complete_plan(&tasks, "on").unwrap(), "one");
    assert_eq!(complete_report("one", true).unwrap(), "Successfully updated task 'one' to completed");
    let e = complete_report("one", false).unwrap_err();
    assert_eq!(e.kind(), CompleteErrorKind::DatabaseError);
    assert_eq!(e.to_string(), "Failed to set task to complete (complete error: Database error)");
}

#[test]
fn complete_without_matching_task_fails() {
    let e = complete_plan(&Vec::new(), "test").unwrap_err();
    assert_eq!(e.kind(), CompleteErrorKind::DatabaseError);
    assert_eq!(
        e.to_string(),
        "Task starting with id 'test' was not found (db error: No tasks found) (complete error: Database error)"
    );
}

#[test]
fn delete_gives_the_id_and_note_path() {
    let with_note = Task::builder()
        .id("task:n1".to_string())
        .name("noted".to_string())
        .work_note_path("/notes/n1.md".to_string())
        .build();
    let tasks = vec![with_note, task("x", "other")];
    assert_eq!(delete_plan(&tasks, "n").unwrap(), ("n1".to_string(), Some("/notes/n1.md".to_string())));
    assert_eq!(delete_plan(&tasks, "x").unwrap(), ("x".to_string(), None));
    let deleted = delete_report("n1", Some(task("n1", "noted"))).unwrap();
    assert_eq!(deleted.message(), "Successfully deleted task 'n1'");
    let e = delete_report("n1", None).unwrap_err();
    assert_eq!(e.kind(), DeleteErrorKind::FailedToDeleteTask);
}

#[test]
fn delete_with_unknown_id_fails() {
    let e = delete_plan(&vec![task("abc", "t")], "randomID").unwrap_err();
    assert_eq!(e.kind(), DeleteErrorKind::DatabaseError);
    assert!(e.to_string().starts_with("Task starting with id 'randomID' was not found"));
}

#[test]
fn list_shows_in_progress_tasks_by_default() {
    let tasks = vec![task("a", "in progress task"), done_task("b", "Completed task")];
    let res = list_run(tasks, false);
    assert_eq!(res.result().len(), 1);
    assert_eq!(res.result()[0].name(), "in progress task");
    assert!(res.message().contains("in progress task"));
    assert!(!res.message().contains("Completed task"));
}

#[test]
fn list_all_shows_every_task() {
    let tasks = vec![task("a", "in progress task"), done_task("b", "Completed task")];
    let res = list_run(tasks, true);
    assert_eq!(res.result().len(), 2);
    assert!(res.message().contains("Completed task"));
}

#[test]
fn list_of_nothing_is_empty() {
    let res = list_run(Vec::new(), false);
    assert!(res.result().is_empty());
    assert!(!res.message().contains("task:"));
}

#[test]
fn list_rows_hold_the_columns() {
    assert_eq!(list_headers(), vec!["id", "name", "priority", "description", "created_at", "completed_at"]);
    let rows = list_rows(&vec![task("a", "n")]);
    assert_eq!(
        rows,
        vec![vec!["a", "n", "Medium", "some description", "1970-01-01T00:00:00Z", "In Progress"]]
    );
}

#[test]
fn view_of_unknown_task_fails() {
    let e = view_run(&Vec::new(), "randomID").unwrap_err();
    assert_eq!(e.kind(), ViewErrorKind::DatabaseError);
    assert_eq!(
        e.to_string(),
        "Task starting with id 'randomID' was not found (db error: No tasks found) (view error: Database error)"
    );
}

#[test]
fn view_with_unspecific_id_fails() {
    let tasks = vec![task("t1", "test"), task("t2", "test2")];
    let e = view_run(&tasks, "").unwrap_err();
    assert!(e.to_string().starts_with("Multiple tasks found, provide more characters of the id"));
}

#[test]
fn view_shows_every_field() {
    let tasks = vec![task("abc", "test")];
    let text = view_run(&tasks, "ab").unwrap();
    assert!(text.contains("test"));
    assert!(text.contains("Medium"));
    assert!(text.contains("some description"));
    assert!(text.contains("1970-01-01T00:00:00Z"));
    assert!(text.contains("In Progress"));
    assert_eq!(view_headers(), vec!["Key", "Value"]);
    let rows = view_rows(&tasks[0]);
    assert_eq!(rows.len(), 7);
    assert_eq!(rows[0], vec!["id", "abc"]);
    assert_eq!(rows[6], vec!["work_note_path", ""]);
}

#[test]
fn update_needs_a_field() {
    let e = update_plan(&vec![task("a", "test")], "a", None, None, None).unwrap_err();
    assert_eq!(e, "No fields to update");
}

#[test]
fn update_lists_changes_in_field_order() {
    let (id, changes) = update_plan(
        &vec![task("a", "test")],
        "a",
        Some("test2".to_string()),
        Some(TaskPriority::High),
        Some("new description".to_string()),
    )
    .unwrap();
    assert_eq!(id, "a");
    assert_eq!(
        changes,
        vec![
            ("description".to_string(), "new description".to_string()),
            ("name".to_string(), "test2".to_string()),
            ("priority".to_string(), "High".to_string()),
        ]
    );
    assert_eq!(update_report("a", None), "Successfully updated task 'a'");
}

#[test]
fn update_of_unknown_task_fails() {
    let e = update_plan(&Vec::new(), "test", Some("diff name".to_string()), None, None).unwrap_err();
    assert_eq!(e, "Task starting with id 'test' was not found (db error: No tasks found)");
}

#[test]
fn should_return_filename_with_id_and_md_extension() {
    let id = "123";
    let path = path_from_id("/usr/local/bin", id);
    assert!(path.ends_with(format!("{}.md", id).as_str()));
    assert_eq!(path, "/usr/local/bin/tmgr_notes/123.md");
}

#[test]
fn new_note_starts_with_header_and_notes_section() {
    let text = note_contents("abc", "a new task", "");
    assert_eq!(text, "# Task abc - a new task\n\n## Notes\n\n");
    let text = note_contents("abc", "a new task", "details");
    assert_eq!(text, "# Task abc - a new task\n\ndetails\n\n## Notes\n\n");
}

#[test]
fn note_plan_creates_or_reuses() {
    let fresh = vec![task("abc", "a new task")];
    match note_plan(&fresh, "a").unwrap() {
        NotePlan::Create { task_id, contents } => {
            assert_eq!(task_id, "abc");
            assert_eq!(contents, "# Task abc - a new task\n\nsome description\n\n## Notes\n\n");
        }
        NotePlan::Existing(_) => panic!("expected a new note"),
    }
    let noted = vec![Task::builder()
        .id("task:abc".to_string())
        .name("n".to_string())
        .work_note_path("/notes/abc.md".to_string())
        .build()];
    match note_plan(&noted, "a").unwrap() {
        NotePlan::Existing(c) => assert_eq!(c.message(), "/notes/abc.md"),
        NotePlan::Create { .. } => panic!("expected the existing note"),
    }
    let r = note_report("/notes/abc.md".to_string(), Some(task("abc", "n"))).unwrap();
    assert_eq!(r.message(), "/notes/abc.md");
    assert!(note_report("/notes/abc.md".to_string(), None).is_err());
}

#[test]
fn migration_steps_by_version() {
    let steps = migration_steps(TmgrVersion::V2).unwrap();
    assert_eq!(steps.len(), 3);
    assert_eq!(steps[0].0, "UPDATE task SET priority = 'Low' WHERE priority = 'low'");
    assert!(migration_steps(TmgrVersion::V3).unwrap().is_empty());
    let e = migration_steps(TmgrVersion::Invalid).unwrap_err();
    assert_eq!(e.kind(), MigrateErrorKind::UnableToGetTmgrVersion);
    assert_eq!(
        migrate_report(TmgrVersion::V2).message(),
        "Successfully migrated tasks from v2 to v2 schema"
    );
    assert_eq!(major_of("2.3.0"), "2");
    assert_eq!(major_of("7"), "7");
}

#[test]
fn versions_from_numbers() {
    assert_eq!(TmgrVersion::from(2u32), TmgrVersion::V2);
    assert_eq!(TmgrVersion::from(3u32), TmgrVersion::V3);
    assert_eq!(TmgrVersion::from(9u32), TmgrVersion::Invalid);
    assert_eq!(TmgrVersion::V3.to_string(), "v3");
}

#[test]
fn status_counts_in_progress_tasks() {
    let c = count_tasks(Some(5), Some(2));
    assert_eq!((c.total, c.completed, c.in_progress), (5, 2, 3));
    let c = count_tasks(None, None);
    assert_eq!((c.total, c.completed, c.in_progress), (0, 0, 0));
}

#[test]
fn status_report_lines() {
    let text = status_report("\"/bin/tmgr\"", "/bin/tmgr_db", Some(count_tasks(Some(1), Some(0))));
    assert!(text.contains("total tasks: 1"));
    assert!(text.contains("in progress tasks: 1"));
    assert!(text.contains("completed tasks: 0"));
    assert!(text.starts_with("File locations:\n  tmgr executable: \"/bin/tmgr\"\n  database: /bin/tmgr_db\n"));
    let text = status_report("x", "y", None);
    assert!(text.contains("total tasks: unable to determine number of tasks in current database"));
}

#[test]
fn editor_defaults_to_vi() {
    assert_eq!(editor_of(None), "vi");
    assert_eq!(editor_of(Some("nano".to_string())), "nano");
    let e = editor_failed("not found");
    assert_eq!(e.kind(), NoteErrorKind::FailedToOpenEditor);
    assert_eq!(
        e.to_string(),
        "not found - HINT: make sure EDITOR is set or vi is installed (note error: Failed to open editor)"
    );
    assert_eq!(editor_lost().kind(), NoteErrorKind::ExecutionError);
}

#[test]
fn update_report_names_a_new_name() {
    assert_eq!(update_report("test", Some("test2")), "Successfully updated task 'test' -> 'test2'");
}
