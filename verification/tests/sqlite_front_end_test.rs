use tmgr::commands::db_cmds::db::{complete_message, delete_message, task_listing, update_sql, TaskFromDb};
use tmgr::commands::db_cmds::db_errors::{DatabaseError, DatabaseErrorKind};
use tmgr::commands::db_cmds::persistent::{path_to_db, path_to_env};
use tmgr::db_ops::{db_name_of, form_db_path, set_active_db, todo_add, todo_delete, todo_list, todo_update};

#[test]
fn update_statement_for_each_field_set() {
    assert_eq!(update_sql(true, false, false), "UPDATE tasks SET name = (?) WHERE id = (?);");
    assert_eq!(
        update_sql(true, true, true),
        "UPDATE tasks SET name = (?), priority = (?), description = (?) WHERE id = (?);"
    );
    assert_eq!(update_sql(false, false, true), "UPDATE tasks SET description = (?) WHERE id = (?);");
}

#[test]
fn update_statement_without_fields_loses_a_letter() {
    assert_eq!(update_sql(false, false, false), "UPDATE tasks SE WHERE id = (?);");
}

#[test]
fn task_listing_pads_columns() {
    let tasks = vec![TaskFromDb {
        id: 7,
        name: "read".to_string(),
        priority: "high".to_string(),
        description: None,
        created_on: "2024-01-01".to_string(),
        completed_on: None,
    }];
    let lines = task_listing(&tasks);
    assert_eq!(lines.len(), 4);
    assert_eq!(
        lines[0],
        format!("{:<5} {:<20} {:<10} {:<20} {:<35} {:<35}", "ID", "Name", "Priority", "Description", "Created On", "Completed On")
    );
    assert_eq!(lines[1], "-".repeat(110));
    assert_eq!(
        lines[2],
        format!("{:<5} {:<20} {:<10} {:<20} {:<35} {:<35}", 7, "read", "high", "NULL", "2024-01-01", "IN-PROGRESS")
    );
    assert_eq!(lines[3], "-".repeat(110));
}

#[test]
fn long_cells_are_not_cut() {
    let tasks = vec![TaskFromDb {
        id: -123456,
        name: "a name that is longer than twenty".to_string(),
        priority: "low".to_string(),
        description: Some("d".to_string()),
        created_on: "c".to_string(),
        completed_on: Some("e".to_string()),
    }];
    let lines = task_listing(&tasks);
    assert_eq!(
        lines[2],
        format!("{:<5} {:<20} {:<10} {:<20} {:<35} {:<35}", -123456, "a name that is longer than twenty", "low", "d", "c", "e")
    );
}

#[test]
fn changed_rows_messages() {
    assert_eq!(delete_message(3, 0), "Task with id 3 not found");
    assert_eq!(delete_message(3, 1), "Successfully deleted task");
    assert_eq!(complete_message(-4, 0), "Task with id -4 not found");
    assert_eq!(complete_message(3, 2), "Successfully updated task");
}

#[test]
fn sqlite_database_errors() {
    let e = DatabaseError::new("Unable to add database x", DatabaseErrorKind::AlreadyExists);
    assert_eq!(e.kind(), DatabaseErrorKind::AlreadyExists);
    assert_eq!(
        e.to_string(),
        "Unable to add database x (db error: database already exists hint: run `tmgr database set <name>`)"
    );
}

#[test]
fn sqlite_front_end_paths() {
    assert_eq!(path_to_db("/home/me", "work"), "/home/me/databases/work.db");
    assert_eq!(path_to_env("/usr/local/bin"), "/usr/local/bin/.env");
}

#[test]
fn earliest_layer_paths_and_names() {
    assert_eq!(form_db_path("work"), "./databases/work.db");
    assert_eq!(db_name_of("work.db"), "work");
    assert_eq!(db_name_of(".db"), "");
    set_active_db("work");
    todo_add();
    todo_delete();
    todo_list();
    todo_update();
}
