use tmgr::commands::tui::app::{Action, App, CurrentScreen, Key};
use tmgr::model::Task;

fn tasks() -> Vec<Task> {
    vec![
        Task::builder().id("task:a1".to_string()).name("first".to_string()).build(),
        Task::builder().id("bad".to_string()).name("second".to_string()).build(),
    ]
}

#[test]
fn starts_on_the_main_screen() {
    let app = App::new(tasks());
    assert_eq!(app.get_current_screen(), CurrentScreen::Main);
    assert!(!app.should_delete());
    assert_eq!(app.tasks().len(), 2);
}

#[test]
fn main_screen_bindings() {
    let app = App::new(tasks());
    let b = app.get_keybindings(CurrentScreen::Main).unwrap();
    let shown: Vec<(Key, String)> = b.iter().map(|k| (k.key(), k.description())).collect();
    assert_eq!(
        shown,
        vec![
            (Key::Char('a'), "Add Task".to_string()),
            (Key::Char('e'), "Edit Task".to_string()),
            (Key::Char('d'), "Delete Task".to_string()),
            (Key::Char('q'), "Quit".to_string()),
            (Key::Up, "Previous Task".to_string()),
            (Key::Down, "Next Task".to_string()),
        ]
    );
    assert_eq!(app.get_keybindings(CurrentScreen::Task).unwrap().len(), 1);
    assert!(app.get_keybindings(CurrentScreen::Exit).is_none());
}

#[test]
fn quitting_from_main_exits() {
    let mut app = App::new(tasks());
    assert_eq!(app.press(Key::Char('q')), Some(Action::Quit));
    assert_eq!(app.get_current_screen(), CurrentScreen::Exit);
}

#[test]
fn task_screen_returns_to_main() {
    let mut app = App::new(tasks());
    assert_eq!(app.press(Key::Char('e')), Some(Action::OpenTaskScreen));
    assert_eq!(app.get_current_screen(), CurrentScreen::Task);
    assert_eq!(app.press(Key::Char('d')), None);
    assert!(!app.should_delete());
    assert_eq!(app.press(Key::Char('q')), Some(Action::BackToMain));
    assert_eq!(app.get_current_screen(), CurrentScreen::Main);
}

#[test]
fn moving_keys_are_handed_back() {
    let mut app = App::new(tasks());
    assert_eq!(app.press(Key::Up), Some(Action::SelectPrevious));
    assert_eq!(app.press(Key::Down), Some(Action::SelectNext));
    assert_eq!(app.press(Key::Other), None);
    assert_eq!(app.get_current_screen(), CurrentScreen::Main);
}

#[test]
fn deleting_the_selected_task() {
    let mut app = App::new(tasks());
    assert_eq!(app.press(Key::Char('d')), Some(Action::RequestDelete));
    assert!(app.should_delete());
    assert_eq!(app.delete_target(Some(0)).unwrap(), "a1");
    assert_eq!(app.delete_target(None).unwrap_err(), "No task selected");
    assert!(app.delete_target(Some(1)).unwrap_err().contains("Bad prefix"));
    app.remove_task(0);
    assert!(!app.should_delete());
    assert_eq!(app.tasks().len(), 1);
    assert_eq!(app.tasks()[0].name(), "second");
}

#[test]
fn keybind_lookup_by_screen() {
    let app = App::new(Vec::new());
    assert_eq!(app.get_keybind_action(CurrentScreen::Main, Key::Char('a')), Some(Action::OpenTaskScreen));
    assert_eq!(app.get_keybind_action(CurrentScreen::Task, Key::Char('a')), None);
    assert_eq!(app.get_keybind_action(CurrentScreen::Exit, Key::Char('q')), None);
}

#[test]
fn details_pane_doubles_newlines() {
    let t = Task::builder()
        .id("task:a1".to_string())
        .name("first".to_string())
        .created_at("d'2025-01-01T00:00:00Z'".to_string())
        .build();
    assert_eq!(
        tmgr::commands::tui::app::task_details(&t),
        "Task Details:\n\nName: \"first\"\n\nPriority: \"Low\"\n\nDescription: \"None\"\n\ncreated_at: d'2025-01-01T00:00:00Z'\n\ncompleted_at: In progress\n\n"
    );
}

#[test]
fn popup_rows_and_title() {
    let t = Task::builder()
        .id("task:a1".to_string())
        .name("first".to_string())
        .description("about it".to_string())
        .build();
    assert_eq!(
        tmgr::commands::tui::app::popup_rows(&t),
        vec![
            vec!["Name".to_string(), "first".to_string()],
            vec!["Priority".to_string(), "Low".to_string()],
            vec!["Description".to_string(), "about it".to_string()],
        ]
    );
    assert_eq!(tmgr::commands::tui::app::edit_title(&t), "Editing task a1");
    let bad = Task::builder().id("x".to_string()).build();
    assert_eq!(tmgr::commands::tui::app::edit_title(&bad), "Editing task ");
    assert_eq!(tmgr::commands::tui::app::popup_rows(&bad)[2][1], "");
}
