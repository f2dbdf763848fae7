use tmgr::persistent::{change_db, initial_env, list_dbs, path_to_db, path_to_env, update_env_var};

#[test]
fn database_paths_live_under_databases() {
    assert_eq!(path_to_db("/home/me", "work"), "/home/me/databases/work.db");
    assert_eq!(path_to_db("/home/me/", "work"), "/home/me/databases/work.db");
    assert_eq!(path_to_env("/home/me"), "/home/me/.env");
}

#[test]
fn list_dbs_drops_extensions_in_order() {
    let files = vec!["work.db".to_string(), "home.db".to_string(), "notes".to_string()];
    assert_eq!(list_dbs(&files), vec!["work", "home", "notes"]);
}

#[test]
fn database_file_lists_as_its_name() {
    let files = vec![format!("{}.db", "my.project")];
    assert_eq!(list_dbs(&files), vec!["my.project"]);
}

#[test]
fn fresh_env_has_no_database() {
    assert_eq!(initial_env(), "db_var=none\n");
}

#[test]
fn update_env_var_rewrites_the_line() {
    assert_eq!(update_env_var("db_var=none\n", "db_var", "work"), "db_var=work\n");
    assert_eq!(update_env_var("a=1\ndb_var=x\nb=2\n", "db_var", "y"), "a=1\ndb_var=y\nb=2\n");
    assert_eq!(update_env_var("a=1\n", "db_var", "y"), "a=1\n");
}

#[test]
fn second_env_update_wins() {
    let once = update_env_var("a=1\ndb_var=x\n", "db_var", "first");
    let twice = update_env_var(&once, "db_var", "second");
    assert_eq!(twice, update_env_var("a=1\ndb_var=x\n", "db_var", "second"));
}

#[test]
fn change_db_needs_the_database() {
    assert_eq!(change_db("work", false, None), None);
    assert_eq!(change_db("work", false, Some("db_var=none\n".to_string())), None);
}

#[test]
fn change_db_creates_the_env_text() {
    assert_eq!(change_db("work", true, None), Some("db_var=work\n".to_string()));
}

#[test]
fn change_db_rewrites_the_existing_env() {
    assert_eq!(
        change_db("work", true, Some("db_dir=/x\ndb_var=old\n".to_string())),
        Some("db_dir=/x\ndb_var=work\n".to_string())
    );
}

#[test]
fn env_front_end_messages() {
    assert_eq!(tmgr::db_cmds::db_add("work", true), "Successfully created database with name: work");
    assert_eq!(tmgr::db_cmds::db_add("work", false), "The database by the name work already exists");
    assert_eq!(tmgr::db_cmds::db_delete("work", true), "Successfully deleted database");
    assert_eq!(tmgr::db_cmds::db_delete("work", false), "No database exists with the name: work");
    assert_eq!(tmgr::db_cmds::db_set("work", true), "Successfully set database to work");
    assert_eq!(tmgr::db_cmds::db_set("work", false), "No database exists with the name: work");
}

#[test]
fn env_front_end_lists_sorted_names() {
    let names = vec!["work".to_string(), "home".to_string(), "Archive".to_string()];
    assert_eq!(
        tmgr::db_cmds::db_list(&names),
        vec!["----Databases-----", "Name: Archive", "Name: home", "Name: work"]
    );
}

#[test]
fn change_db_adds_a_missing_db_var_line() {
    assert_eq!(
        change_db("work", true, Some("db_dir=/x\n".to_string())),
        Some("db_dir=/x\ndb_var=work\n".to_string())
    );
    assert_eq!(
        change_db("work", true, Some("db_dir=/x".to_string())),
        Some("db_dir=/x\ndb_var=work\n".to_string())
    );
    assert_eq!(change_db("work", true, Some(String::new())), Some("db_var=work\n".to_string()));
}

#[test]
fn change_db_of_a_missing_database_ignores_the_env_text() {
    assert_eq!(change_db("work", false, Some("db_var".to_string())), None);
}
