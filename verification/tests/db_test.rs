use tmgr::db::{
    connection_address, db_file_path, executable_path_failed, partial_id_query,
    select_task_by_partial_id, step_failed, DBError, DBErrorKind, DbStep,
};
use tmgr::model::{Task, TmgrErrorKind};

fn task(id: &str, name: &str) -> Task {
    Task::builder().id(id.to_string()).name(name.to_string()).build()
}

#[test]
fn unique_prefix_selects_the_task() {
    let tasks = vec![task("task:abc", "first"), task("task:xyz", "second")];
    let t = select_task_by_partial_id(&tasks, "x").unwrap();
    assert_eq!(t.name(), "second");
    let t = select_task_by_partial_id(&tasks, "abc").unwrap();
    assert_eq!(t.name(), "first");
}

#[test]
fn unknown_prefix_selects_nothing() {
    let tasks = vec![task("task:abc", "first")];
    let e = select_task_by_partial_id(&tasks, "zzz").unwrap_err();
    assert_eq!(e.kind(), DBErrorKind::NoTasksFound);
    assert_eq!(e.to_string(), "Task starting with id 'zzz' was not found (db error: No tasks found)");
}

#[test]
fn shared_prefix_selects_nothing() {
    let tasks = vec![task("task:ab1", "first"), task("task:ab2", "second")];
    let e = select_task_by_partial_id(&tasks, "ab").unwrap_err();
    assert_eq!(e.kind(), DBErrorKind::MultipleTasksFound);
    assert_eq!(
        e.to_string(),
        "Multiple tasks found, provide more characters of the id (db error: Multiple tasks found)"
    );
}

#[test]
fn tasks_without_prefix_never_match() {
    let tasks = vec![task("abc", "no prefix"), Task::builder().name("no id".to_string()).build()];
    let e = select_task_by_partial_id(&tasks, "").unwrap_err();
    assert_eq!(e.kind(), DBErrorKind::NoTasksFound);
}

#[test]
fn store_paths_and_queries() {
    assert_eq!(db_file_path("/usr/local/bin"), "/usr/local/bin/tmgr_db");
    assert_eq!(connection_address("/usr/local/bin/tmgr_db"), "surrealkv:///usr/local/bin/tmgr_db");
    assert_eq!(
        partial_id_query("ab"),
        "SELECT * from task WHERE string::starts_with(<string> id, \"task:ab\")"
    );
}

#[test]
fn step_failures_have_their_messages() {
    let e = step_failed(DbStep::Connect);
    assert_eq!(e.kind(), DBErrorKind::IOError);
    assert_eq!(e.to_string(), "Could not create/connect to file database (db error: IO error)");
    assert_eq!(step_failed(DbStep::Namespace).kind(), DBErrorKind::DatabaseError);
    assert_eq!(step_failed(DbStep::Deserialize).kind(), DBErrorKind::SerializationError);
    assert_eq!(
        step_failed(DbStep::ExecutableDirectory).to_string(),
        "Could not get parent directory of tmgr executable (db error: IO error)"
    );
    let e = executable_path_failed("no exe".to_string());
    assert_eq!(e.kind(), DBErrorKind::UnableToDetermineTmgrExecutablePath);
    assert_eq!(e.to_string(), "no exe (db error: Unable to determine tmgr executable path)");
}

#[test]
fn store_errors_become_tmgr_errors() {
    let e = DBError::new(DBErrorKind::ExpectedOneTask, "Expected one task".to_string());
    let t = e.to_tmgr_error();
    assert_eq!(t.kind(), TmgrErrorKind::Tmgr);
    assert_eq!(t.to_string(), "Expected one task (db error: Expected one task) (tmgr error: Tmgr error)");
}
