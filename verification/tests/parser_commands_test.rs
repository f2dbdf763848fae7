use tmgr::commands::upgrade::{UpdateError, UpdateErrorKind};
use tmgr::model::TaskPriority;
use tmgr::parser::commands::db_cmds::db::{entry_found, store_location};
use tmgr::parser::commands::db_cmds::{DatabaseError, DatabaseErrorKind};
use tmgr::parser::commands::init_cmds::{
    init_complete_message, init_database_name, init_directory, InitError, InitErrorKind,
};
use tmgr::parser::commands::status_cmds::{state_rows, state_table, StatusError, StatusErrorKind};
use tmgr::parser::commands::todo_cmds::{
    added_message, completed_message, deleted_message, priority_update, priority_value_of,
    updated_message, TodoError, TodoErrorKind,
};
use tmgr::parser::commands::update_cmds::{step_message, update_step, UpdateStep};
use tmgr::parser::commands::TmgrError;
use tmgr::parser::state_mgr::{config_lines, State};

fn state_with(text: &str) -> State {
    let lines = config_lines(text);
    State::new(Some("/cfg/tmgr_config.toml".to_string()), "/opt/bin", Some(&lines)).unwrap()
}

fn db_error() -> DatabaseError {
    DatabaseError::new(DatabaseErrorKind::IoError, "Unable to add database x".to_string())
}

#[test]
fn init_errors_carry_the_database_error() {
    let e = InitError::from_database(&db_error());
    assert_eq!(e.kind(), InitErrorKind::DatabaseError);
    assert_eq!(
        e.to_string(),
        "Unable to add database x (db error: io error occurred) (init error: database error occurred)"
    );
    assert_eq!(init_directory(), ".");
    assert_eq!(init_database_name(), "init_db");
    assert_eq!(init_complete_message(), "Initializer complete!");
}

#[test]
fn status_rows_show_unset_variables_as_none() {
    let rows = state_rows(&state_with("db_dir = \"\"\ndb_var = \"\"\n"));
    assert_eq!(rows, vec![
        vec!["db_dir".to_string(), "None".to_string(), "Current Database Directory".to_string()],
        vec!["db_var".to_string(), "None".to_string(), "Current Database Name".to_string()],
    ]);
}

#[test]
fn status_rows_show_set_variables() {
    let state = state_with("db_dir = \"/d\"\ndb_var = \"work\"\n");
    let rows = state_rows(&state);
    assert_eq!(rows[0][1], "/d");
    assert_eq!(rows[1][1], "work");
    let table = state_table(&state);
    assert!(table.contains("Variable"));
    assert!(table.contains("work"));
}

#[test]
fn status_errors_carry_the_database_error() {
    let e = StatusError::from_database(&db_error());
    assert_eq!(e.kind(), StatusErrorKind::DatabaseError);
    assert_eq!(
        e.to_string(),
        "Unable to add database x (db error: io error occurred) (status error: database error occurred)"
    );
}

#[test]
fn todo_errors_and_messages() {
    let e = TodoError::from_database(&db_error());
    assert_eq!(e.kind(), TodoErrorKind::DatabaseError);
    assert_eq!(e.to_string(), "Unable to add database x (db error: io error occurred) (todo error: database error)");
    let e = TodoError::no_connection(&db_error());
    assert_eq!(e.kind(), TodoErrorKind::UnableToConnectToDatabase);
    assert!(e.to_string().ends_with("(todo error: unable to connect to database)"));
    assert_eq!(added_message(), "Successfully added task");
    assert_eq!(completed_message("42"), "Successfully set task 42 as completed");
    assert_eq!(deleted_message("42"), "Successfully deleted task 42");
    assert_eq!(updated_message(), "Successfully updated task");
}

#[test]
fn todo_priorities_are_stored_lower_case() {
    assert_eq!(priority_value_of(TaskPriority::Low), "low");
    assert_eq!(priority_value_of(TaskPriority::Medium), "medium");
    assert_eq!(priority_value_of(TaskPriority::High), "high");
    assert_eq!(priority_update(Some(TaskPriority::High)), Some("high".to_string()));
    assert_eq!(priority_update(None), None);
}

#[test]
fn tmgr_error_shows_the_command_error() {
    let e: TmgrError = db_error().into();
    assert_eq!(e.to_string(), "Unable to add database x (db error: io error occurred)");
    assert_eq!(e.error_line(), "ERROR: Unable to add database x (db error: io error occurred)");
    let e: TmgrError = InitError::from_database(&db_error()).into();
    assert!(e.to_string().ends_with("(init error: database error occurred)"));
    let e: TmgrError = StatusError::from_database(&db_error()).into();
    assert!(e.to_string().ends_with("(status error: database error occurred)"));
    let e: TmgrError = TodoError::from_database(&db_error()).into();
    assert!(e.to_string().ends_with("(todo error: database error)"));
    let e: TmgrError = UpdateError::new(UpdateErrorKind::RepoCheckFail, "m".to_string()).into();
    assert_eq!(e.to_string(), "m (update error: unable to retrieve fetch tmgr GitHub repo, try again later)");
}

#[test]
fn store_location_needs_database_and_directory() {
    let e = store_location(&state_with("db_dir = \"/d\"\ndb_var = \"\"\n")).unwrap_err();
    assert_eq!(e.kind(), DatabaseErrorKind::VariableNotSet);
    assert_eq!(e.to_string(), "No database selected (db error: database variable not set, hint: run `tmgr database set <name>`)");
    let e = store_location(&state_with("db_dir = \"/d\"\ndb_var = \"none\"\n")).unwrap_err();
    assert_eq!(e.kind(), DatabaseErrorKind::VariableNotSet);
    let e = store_location(&state_with("db_dir = \"\"\ndb_var = \"work\"\n")).unwrap_err();
    assert_eq!(e.kind(), DatabaseErrorKind::DirectoryNotSet);
    assert_eq!(
        store_location(&state_with("db_dir = \"/d\"\ndb_var = \"work\"\n")).unwrap(),
        ("file:///d.db".to_string(), "work".to_string())
    );
}

#[test]
fn missing_entries_are_reported() {
    assert_eq!(entry_found("7", Some(3)).unwrap(), 3);
    let e = entry_found::<i32>("7", None).unwrap_err();
    assert_eq!(e.kind(), DatabaseErrorKind::EntryNotFound);
    assert_eq!(e.to_string(), "Task with id 7 not found (db error: entry not found)");
}

#[test]
fn update_steps_follow_the_check() {
    match update_step(true, Some("https://x/tmgr".to_string())) {
        UpdateStep::Download(u) => assert_eq!(u, "https://x/tmgr"),
        other => panic!("unexpected {:?}", other),
    }
    let s = update_step(true, None);
    assert!(matches!(s, UpdateStep::MissingDownloadUrl));
    assert_eq!(step_message(&s), "ERROR: No download url for the application found on GitHub");
    let s = update_step(false, Some("https://x/tmgr".to_string()));
    assert!(matches!(s, UpdateStep::UpToDate));
    assert_eq!(step_message(&s), "Already on latest version");
    assert_eq!(step_message(&UpdateStep::Download("u".to_string())), "Update found, downloading...");
}
