use tmgr::parser::commands::db_cmds::{
    database_names, database_table, db_add_check, db_add_report, db_add_target, db_delete_check,
    db_delete_report, db_delete_target, db_directory_created, db_directory_for,
    db_directory_not_text, db_file_path, db_list_dir, db_list_read_failed, db_set,
    db_set_directory, db_set_directory_message, db_set_message, db_set_target,
    drop_file_extension, state_update_failed, DatabaseError, DatabaseErrorKind,
};
use tmgr::parser::state_mgr::{config_lines, initial_config, State, StateManagerError, StateManagerErrorKind};

fn state_with(text: &str) -> State {
    let lines = config_lines(text);
    State::new(Some("/cfg/tmgr_config.toml".to_string()), "/opt/bin", Some(&lines)).unwrap()
}

fn unset_state() -> State {
    state_with(&initial_config())
}

fn dir_state() -> State {
    state_with("db_dir = \"/data/databases\"\ndb_var = \"\"\n")
}

#[test]
fn drop_file_extension_keeps_text_before_last_dot() {
    assert_eq!(drop_file_extension("work.db"), "work");
    assert_eq!(drop_file_extension("archive.tar.gz"), "archive.tar");
    assert_eq!(drop_file_extension("README"), "README");
    assert_eq!(drop_file_extension(".hidden"), "");
}

#[test]
fn db_file_path_sets_the_db_extension() {
    assert_eq!(db_file_path("/tmp/dbs", "work"), "/tmp/dbs/work.db");
    assert_eq!(db_file_path("/tmp/dbs/", "work"), "/tmp/dbs/work.db");
    assert_eq!(db_file_path("/d", "a.b"), "/d/a.db");
}

#[test]
fn database_names_are_sorted_without_extension() {
    let files = vec!["b.db".to_string(), "a.db".to_string(), "C.db".to_string(), "a.sqlite".to_string()];
    assert_eq!(database_names(&files), vec!["C", "a", "a", "b"]);
    assert!(database_names(&Vec::new()).is_empty());
}

#[test]
fn database_table_lists_names() {
    let names = vec!["alpha".to_string(), "beta".to_string()];
    let table = database_table(&names);
    assert!(table.contains("Database Name"));
    assert!(table.contains("alpha"));
    assert!(table.contains("beta"));
}

#[test]
fn adding_without_directory_fails() {
    let e = db_add_target(&unset_state(), "work").unwrap_err();
    assert_eq!(e.kind(), DatabaseErrorKind::DirectoryNotSet);
    assert_eq!(
        e.to_string(),
        "Unable to add database work (db error: database directory not set, hint: run `tmgr database set-directory <dir>`)"
    );
}

#[test]
fn adding_names_the_file_in_the_directory() {
    assert_eq!(db_add_target(&dir_state(), "work").unwrap(), "/data/databases/work.db");
}

#[test]
fn adding_an_existing_database_fails() {
    let e = db_add_check("work", Ok(true)).unwrap_err();
    assert_eq!(e.kind(), DatabaseErrorKind::AlreadyExists);
    assert_eq!(e.to_string(), "Unable to add database work (db error: database already exists hint: run `tmgr database set <name>`)");
    assert!(db_add_check("work", Ok(false)).is_ok());
    let e = db_add_check("work", Err("denied".to_string())).unwrap_err();
    assert_eq!(e.kind(), DatabaseErrorKind::IoError);
    assert_eq!(e.to_string(), "Unable to add database work: denied (db error: io error occurred)");
}

#[test]
fn adding_reports_creation() {
    assert_eq!(db_add_report("work", Ok(())).unwrap(), "Successfully created database with name: work");
    let e = db_add_report("work", Err("disk full".to_string())).unwrap_err();
    assert_eq!(e.kind(), DatabaseErrorKind::IoError);
    assert_eq!(e.to_string(), "Unable to create database work: disk full (db error: io error occurred)");
}

#[test]
fn deleting_steps() {
    let e = db_delete_target(&unset_state(), "work").unwrap_err();
    assert_eq!(e.kind(), DatabaseErrorKind::DirectoryNotSet);
    assert_eq!(db_delete_target(&dir_state(), "work").unwrap(), "/data/databases/work.db");
    let e = db_delete_check("work", false).unwrap_err();
    assert_eq!(e.kind(), DatabaseErrorKind::DoesNotExist);
    assert_eq!(e.to_string(), "Unable to remove database work (db error: database does not exists hint: run `tmgr database add <name>`)");
    assert!(db_delete_check("work", true).is_ok());
    assert!(db_delete_report("work", Ok(())).is_ok());
    let e = db_delete_report("work", Err("busy".to_string())).unwrap_err();
    assert_eq!(e.to_string(), "Unable to remove database work: busy (db error: io error occurred)");
}

#[test]
fn listing_steps() {
    let e = db_list_dir(&unset_state()).unwrap_err();
    assert_eq!(e.kind(), DatabaseErrorKind::DirectoryNotSet);
    assert_eq!(e.to_string(), "Unable to list databases (db error: database directory not set, hint: run `tmgr database set-directory <dir>`)");
    assert_eq!(db_list_dir(&dir_state()).unwrap(), "/data/databases");
    let e = db_list_read_failed("gone");
    assert_eq!(e.kind(), DatabaseErrorKind::IoError);
    assert_eq!(e.to_string(), "Unable to read directory containing databases: gone (db error: io error occurred)");
}

#[test]
fn setting_without_directory_says_the_database_is_missing() {
    let e = db_set_target(&unset_state(), "work").unwrap_err();
    assert_eq!(e.kind(), DatabaseErrorKind::DoesNotExist);
    assert_eq!(e.to_string(), "Unable to set database work (db error: database does not exists hint: run `tmgr database add <name>`)");
    assert_eq!(db_set_target(&dir_state(), "work").unwrap(), "/data/databases/work.db");
}

#[test]
fn setting_a_missing_database_changes_nothing() {
    let mut state = dir_state();
    let e = db_set(&mut state, "work", false, "db_dir = \"/data/databases\"\ndb_var = \"\"\n").unwrap_err();
    assert_eq!(e.kind(), DatabaseErrorKind::DoesNotExist);
    assert_eq!(state.get_db_name(), None);
}

#[test]
fn setting_a_database_rewrites_db_var() {
    let mut state = dir_state();
    let text = "db_dir = \"/data/databases\"\ndb_var = \"\"\n";
    let new_text = db_set(&mut state, "work", true, text).unwrap();
    assert_eq!(new_text, "db_dir = \"/data/databases\"\ndb_var = \"work\"\n");
    assert_eq!(state.get_db_name(), Some("work".to_string()));
    assert_eq!(db_set_message("work"), "Successfully set database to work");
}

#[test]
fn state_manager_failures_become_io_errors() {
    let s = StateManagerError::new(StateManagerErrorKind::IoError, "Failed to write to config file: x".to_string());
    let e = state_update_failed(&s);
    assert_eq!(e.kind(), DatabaseErrorKind::IoError);
    assert_eq!(
        e.to_string(),
        "Unable to set database variable using state manager: Failed to write to config file: x (state manager error: io error occurred) (db error: io error occurred)"
    );
}

#[test]
fn setting_the_directory_steps() {
    assert_eq!(db_directory_for(".", Ok("/home/me".to_string())).unwrap(), "/home/me/databases");
    let e = db_directory_for("nowhere", Err("No such file or directory".to_string())).unwrap_err();
    assert_eq!(e.kind(), DatabaseErrorKind::IoError);
    assert_eq!(
        e.to_string(),
        "Unable to set database directory due to invalid path nowhere: No such file or directory (db error: io error occurred)"
    );
    assert!(db_directory_created("/home/me/databases", Ok(())).is_ok());
    let e = db_directory_created("/home/me/databases", Err("denied".to_string())).unwrap_err();
    assert_eq!(e.kind(), DatabaseErrorKind::DoesNotExist);
    assert_eq!(
        e.to_string(),
        "Unable to create database directory at /home/me/databases: denied (db error: database does not exists hint: run `tmgr database add <name>`)"
    );
    let e = db_directory_not_text();
    assert_eq!(e.to_string(), "Unable to convert database directory path to string (db error: io error occurred)");
}

#[test]
fn setting_the_directory_rewrites_db_dir() {
    let mut state = unset_state();
    let new_text = db_set_directory(&mut state, "/home/me/databases", &initial_config()).unwrap();
    assert_eq!(new_text, "db_dir = \"/home/me/databases\"\ndb_var = \"\"\n");
    assert_eq!(state.get_db_dir(), Some("/home/me/databases".to_string()));
    assert_eq!(db_set_directory_message("/home/me/databases"), "Successfully set database directory to /home/me/databases");
}

#[test]
fn database_error_kinds_have_their_texts() {
    let e = DatabaseError::new(DatabaseErrorKind::EntryNotFound, "m".to_string());
    assert_eq!(e.to_string(), "m (db error: entry not found)");
    let e = DatabaseError::new(DatabaseErrorKind::SQLiteError, "m".to_string());
    assert_eq!(e.to_string(), "m (db error: SQLite3 error occurred)");
    let e = DatabaseError::new(DatabaseErrorKind::VariableNotSet, "m".to_string());
    assert_eq!(e.to_string(), "m (db error: database variable not set, hint: run `tmgr database set <name>`)");
    let e = DatabaseError::new(DatabaseErrorKind::PathCreationFailed, "m".to_string());
    assert_eq!(
        e.to_string(),
        "m (db error: path to current database file could not be created, hint: run `tmgr database set-directory <dir>` or `tmgr database set <name>`)"
    );
}

#[test]
fn adding_then_deleting_a_database_round_trips() {
    let state = dir_state();
    let mut files: std::collections::HashSet<String> = std::collections::HashSet::new();
    files.insert("/data/databases/other.db".to_string());
    let before = files.clone();
    let target = db_add_target(&state, "work").unwrap();
    assert_eq!(target, "/data/databases/work.db");
    assert!(db_add_check("work", Ok(files.contains(&target))).is_ok());
    files.insert(target.clone());
    let again = db_add_check("work", Ok(files.contains(&target))).unwrap_err();
    assert_eq!(again.kind(), DatabaseErrorKind::AlreadyExists);
    let target = db_delete_target(&state, "work").unwrap();
    assert!(db_delete_check("work", files.contains(&target)).is_ok());
    files.remove(&target);
    assert_eq!(files, before);
    let e = db_delete_check("work", files.contains(&target)).unwrap_err();
    assert_eq!(e.kind(), DatabaseErrorKind::DoesNotExist);
}
