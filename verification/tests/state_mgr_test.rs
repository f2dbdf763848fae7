use tmgr::parser::state_mgr::{
    config_lines, config_path, initial_config, is_line_terminated, pad_sides, read_config, State,
    StateManagerError, StateManagerErrorKind,
};

#[test]
fn test_new_state() {
    let path = "/tmp/tmgr_config.toml".to_string();
    let lines = config_lines("");
    let state = State::new(Some(path.clone()), "/opt/bin", Some(&lines)).unwrap();
    assert_eq!(state.get_db_dir(), None);
    assert_eq!(state.get_db_name(), None);
    assert_eq!(state.get_path(), path);
}

#[test]
fn test_new_state_existing_file() {
    let path = "/tmp/tmgr_config.toml".to_string();
    let initial_values: &str = "db_dir = \"test1\"\ndb_var = \"test2\"\n";
    let lines = config_lines(initial_values);
    let state = State::new(Some(path.clone()), "/opt/bin", Some(&lines)).unwrap();
    assert_eq!(state.get_db_dir(), Some("test1".to_string()));
    assert_eq!(state.get_db_name(), Some("test2".to_string()));
    assert_eq!(state.get_path(), path);
}

#[test]
fn missing_config_file_leaves_variables_unset() {
    let state = State::new(Some("/x/tmgr_config.toml".to_string()), "/opt/bin", None).unwrap();
    assert_eq!(state.get_db_dir(), None);
    assert_eq!(state.get_db_name(), None);
}

#[test]
fn initial_config_reads_as_unset() {
    let text = initial_config();
    assert_eq!(text, "db_dir = \"\"\ndb_var = \"\"\n");
    let lines = config_lines(&text);
    assert_eq!(read_config(&lines).unwrap(), (None, None));
}

#[test]
fn config_lines_split_like_buf_read_lines() {
    assert_eq!(config_lines("a\r\nb\n\nc"), vec!["a", "b", "", "c"]);
    assert_eq!(config_lines("x\n"), vec!["x"]);
    assert!(config_lines("").is_empty());
}

#[test]
fn last_assignment_of_a_key_wins() {
    let lines = config_lines("db_var = \"one\"\ndb_var = \"two\"\n");
    assert_eq!(read_config(&lines).unwrap(), (None, Some("two".to_string())));
}

#[test]
fn quotes_and_spaces_are_dropped_from_values() {
    let lines = config_lines("  db_dir =   \"/home/me/dbs\"  \n");
    assert_eq!(read_config(&lines).unwrap(), (Some("/home/me/dbs".to_string()), None));
}

#[test]
fn line_without_equals_sign_is_invalid() {
    let lines = config_lines("db_dir\n");
    let e = read_config(&lines).unwrap_err();
    assert_eq!(e.kind(), StateManagerErrorKind::InvalidConfigFileStructure);
    assert_eq!(e.message(), "Invalid config file structure");
}

#[test]
fn unknown_variable_is_refused() {
    let lines = config_lines("colour = \"red\"\n");
    let e = read_config(&lines).unwrap_err();
    assert_eq!(e.kind(), StateManagerErrorKind::UnknownStateVariable);
    assert_eq!(e.message(), "State manager encountered variable not being tracked colour  =  \"red\"");
    assert_eq!(
        e.to_string(),
        "State manager encountered variable not being tracked colour  =  \"red\" (state manager error: unknown state variable)"
    );
}

#[test]
fn update_var_rewrites_the_line_and_the_state() {
    let mut state = State::new(Some("/c.toml".to_string()), "/opt/bin", None).unwrap();
    let text = initial_config();
    let new_text = state.update_var("db_var", "work", &text).unwrap();
    assert_eq!(new_text, "db_dir = \"\"\ndb_var = \"work\"\n");
    assert_eq!(state.get_db_name(), Some("work".to_string()));
    assert_eq!(state.get_db_dir(), None);
    let again = state.update_var("db_dir", "/data", &new_text).unwrap();
    assert_eq!(again, "db_dir = \"/data\"\ndb_var = \"work\"\n");
    assert_eq!(state.get_db_dir(), Some("/data".to_string()));
}

#[test]
fn read_after_write_gives_back_the_value() {
    let mut state = State::new(Some("/c.toml".to_string()), "/opt/bin", None).unwrap();
    let text = state.update_var("db_dir", "/srv/x", &initial_config()).unwrap();
    let lines = config_lines(&text);
    assert_eq!(read_config(&lines).unwrap(), (Some("/srv/x".to_string()), None));
}

#[test]
fn second_update_of_a_variable_wins() {
    let mut state = State::new(Some("/c.toml".to_string()), "/opt/bin", None).unwrap();
    let once = state.update_var("db_var", "a", &initial_config()).unwrap();
    let twice = state.update_var("db_var", "b", &once).unwrap();
    let direct = State::new(Some("/c.toml".to_string()), "/opt/bin", None)
        .unwrap()
        .update_var("db_var", "b", &initial_config())
        .unwrap();
    assert_eq!(twice, direct);
}

#[test]
fn update_of_an_unknown_variable_is_refused() {
    let mut state = State::new(Some("/c.toml".to_string()), "/opt/bin", None).unwrap();
    let e = state.update_var("colour", "red", &initial_config()).unwrap_err();
    assert_eq!(e.kind(), StateManagerErrorKind::UpdateVariableFailed);
    assert_eq!(e.message(), "state manager encountered variable not being tracked colour");
    assert_eq!(state.get_db_dir(), None);
}

#[test]
fn line_termination_is_checked() {
    assert!(is_line_terminated("db_var = \"x\"\n", "db_var"));
    assert!(!is_line_terminated("db_var = \"x\"", "db_var"));
    assert!(is_line_terminated("nothing here", "db_var"));
}

#[test]
fn pad_sides_wraps_in_quotes() {
    assert_eq!(pad_sides("abc"), "\"abc\"");
    assert_eq!(pad_sides(""), "\"\"");
}

#[test]
fn state_manager_error_text() {
    let e = StateManagerError::new(StateManagerErrorKind::IoError, "Failed to open config file: x".to_string());
    assert_eq!(e.to_string(), "Failed to open config file: x (state manager error: io error occurred)");
}

#[test]
fn state_mgr_test_new_state() {
    let lines: Vec<String> = Vec::new();
    let state = tmgr::state_mgr::State::new(Some(&lines));
    assert_eq!(state.db_dir(), None);
    assert_eq!(state.db_var(), None);
}

#[test]
fn state_mgr_test_new_state_existing_file() {
    let initial_values: &str = "db_dir = \"test1\"\ndb_var = \"test2\"\n";
    let lines = config_lines(initial_values);
    let state = tmgr::state_mgr::State::new(Some(&lines));
    assert_eq!(state.db_dir(), Some("test1".to_string()));
    assert_eq!(state.db_var(), Some("test2".to_string()));
}

#[test]
fn first_state_manager_without_file_is_unset() {
    let state = tmgr::state_mgr::State::new(None);
    assert_eq!(state.db_dir(), None);
    assert_eq!(state.db_var(), None);
}

#[test]
fn config_file_defaults_to_the_executable_directory() {
    let state = State::new(None, "/opt/bin", None).unwrap();
    assert_eq!(state.get_path(), "/opt/bin/tmgr_config.toml");
    assert_eq!(config_path(None, "/opt/bin/"), "/opt/bin/tmgr_config.toml");
    assert_eq!(config_path(Some("/c.toml".to_string()), "/opt/bin"), "/c.toml");
}

#[test]
fn updates_keep_the_path_and_the_other_variable() {
    let mut state = State::new(Some("/c.toml".to_string()), "/opt/bin", None).unwrap();
    let t1 = state.update_var("db_dir", "/d", &initial_config()).unwrap();
    let _ = state.update_var("colour", "red", &t1);
    let t2 = state.update_var("db_var", "w", &t1).unwrap();
    assert_eq!(state.get_path(), "/c.toml");
    assert_eq!(state.get_db_dir(), Some("/d".to_string()));
    assert_eq!(state.get_db_name(), Some("w".to_string()));
    let _ = state.update_var("db_dir", "/e", &t2).unwrap();
    assert_eq!(state.get_db_dir(), Some("/e".to_string()));
    assert_eq!(state.get_db_name(), Some("w".to_string()));
    assert_eq!(state.get_path(), "/c.toml");
}

#[test]
fn file_and_state_agree_after_an_update_in_any_order() {
    let text = "db_var = \"a\"\r\n  db_dir=\"/x\"\n";
    let lines = config_lines(text);
    let mut state = State::new(Some("/c.toml".to_string()), "/opt/bin", Some(&lines)).unwrap();
    assert_eq!(state.get_db_dir(), Some("/x".to_string()));
    let written = state.update_var("db_var", "b", text).unwrap();
    assert_eq!(written, "db_var = \"b\"\n  db_dir=\"/x\"\n");
    let back = read_config(&config_lines(&written)).unwrap();
    assert_eq!(back, (state.get_db_dir(), state.get_db_name()));
}

#[test]
fn file_and_state_agree_after_updating_an_indented_line() {
    let text = "db_var = \"a\"\n  db_dir=\"/x\"\n";
    let lines = config_lines(text);
    let mut state = State::new(Some("/c.toml".to_string()), "/opt/bin", Some(&lines)).unwrap();
    let written = state.update_var("db_dir", "/y", text).unwrap();
    assert_eq!(written, "db_var = \"a\"\n  db_dir = \"/y\"\n");
    let back = read_config(&config_lines(&written)).unwrap();
    assert_eq!(back, (Some("/y".to_string()), Some("a".to_string())));
    assert_eq!(back, (state.get_db_dir(), state.get_db_name()));
}
