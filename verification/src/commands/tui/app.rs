//! The state of the terminal interface: which screen is shown, which keys do
//! what on it, and the tasks it lists.
//!
//! Drawing and reading keys happen outside the library, and so does the
//! table's selection: the actions that move it are handed back to the caller.
use vstd::prelude::*;
use crate::db::tasks_view;
use crate::model::{Task, TaskView, priority_text, task_error_text, task_id};
use crate::text::{chars_of, concat2, concat3, owned, string_of};

verus! {

/// The screens of the interface.
#[derive(Debug, Clone, Copy, PartialEq, Eq, Structural)]
pub enum CurrentScreen {
    Main,
    Task,
    Exit,
}

/// A key as the interface tells keys apart.
#[derive(Debug, Clone, Copy, PartialEq, Eq, Structural)]
pub enum Key {
    Char(char),
    Up,
    Down,
    Other,
}

/// What a key binding does.
#[derive(Debug, Clone, Copy, PartialEq, Eq, Structural)]
pub enum Action {
    /// Show the task screen.
    OpenTaskScreen,
    /// Delete the selected task.
    RequestDelete,
    /// Leave the interface.
    Quit,
    /// Select the previous task of the table.
    SelectPrevious,
    /// Select the next task of the table.
    SelectNext,
    /// Go back to the main screen.
    BackToMain,
}

/// A key, what it is shown as doing, and what it does.
#[derive(Debug)]
pub struct KeyBinding {
    key: Key,
    description: String,
    action: Action,
}

impl View for KeyBinding {
    type V = (Key, Seq<char>, Action);

    closed spec fn view(&self) -> (Key, Seq<char>, Action) {
        (self.key, self.description@, self.action)
    }
}

impl KeyBinding {
    /// A binding of `key` to `action`, shown as `description`.
    pub fn new(key: Key, description: String, action: Action) -> (b: Self)
        ensures
            b@ == (key, description@, action),
    {
        KeyBinding { key, description, action }
    }

    /// The key.
    pub fn key(&self) -> (k: Key)
        ensures
            k == self@.0,
    {
        self.key
    }

    /// What the binding is shown as doing.
    pub fn description(&self) -> (d: String)
        ensures
            d@ == self@.1,
    {
        self.description.clone()
    }

    /// What the binding does.
    pub fn action(&self) -> (a: Action)
        ensures
            a == self@.2,
    {
        self.action
    }
}

/// The key bindings of a screen, in the order they are shown.
pub open spec fn bindings_of(screen: CurrentScreen) -> Seq<(Key, Seq<char>, Action)> {
    match screen {
        CurrentScreen::Main => seq![
            (Key::Char('a'), "Add Task"@, Action::OpenTaskScreen),
            (Key::Char('e'), "Edit Task"@, Action::OpenTaskScreen),
            (Key::Char('d'), "Delete Task"@, Action::RequestDelete),
            (Key::Char('q'), "Quit"@, Action::Quit),
            (Key::Up, "Previous Task"@, Action::SelectPrevious),
            (Key::Down, "Next Task"@, Action::SelectNext),
        ],
        CurrentScreen::Task => seq![(Key::Char('q'), "Quit"@, Action::BackToMain)],
        CurrentScreen::Exit => Seq::empty(),
    }
}

/// The action of the first binding of `key` in `bindings`.
pub open spec fn first_action(bindings: Seq<(Key, Seq<char>, Action)>, key: Key) -> Option<Action>
    decreases bindings.len(),
{
    if bindings.len() == 0 {
        None
    } else if bindings[0].0 == key {
        Some(bindings[0].2)
    } else {
        first_action(bindings.drop_first(), key)
    }
}

/// What `key` does on `screen`, if anything.
pub open spec fn action_for(screen: CurrentScreen, key: Key) -> Option<Action> {
    first_action(bindings_of(screen), key)
}

/// The screen shown after `action` on `screen`.
pub open spec fn screen_after(screen: CurrentScreen, action: Action) -> CurrentScreen {
    match action {
        Action::OpenTaskScreen => CurrentScreen::Task,
        Action::Quit => CurrentScreen::Exit,
        Action::BackToMain => CurrentScreen::Main,
        _ => screen,
    }
}

/// The bindings of a screen.
fn bindings_for(screen: CurrentScreen) -> (v: Vec<KeyBinding>)
    ensures
        v@.map_values(|b: KeyBinding| b@) == bindings_of(screen),
{
    let mut v: Vec<KeyBinding> = Vec::new();
    match screen {
        CurrentScreen::Main => {
            v.push(KeyBinding::new(Key::Char('a'), owned("Add Task"), Action::OpenTaskScreen));
            v.push(KeyBinding::new(Key::Char('e'), owned("Edit Task"), Action::OpenTaskScreen));
            v.push(KeyBinding::new(Key::Char('d'), owned("Delete Task"), Action::RequestDelete));
            v.push(KeyBinding::new(Key::Char('q'), owned("Quit"), Action::Quit));
            v.push(KeyBinding::new(Key::Up, owned("Previous Task"), Action::SelectPrevious));
            v.push(KeyBinding::new(Key::Down, owned("Next Task"), Action::SelectNext));
        },
        CurrentScreen::Task => {
            v.push(KeyBinding::new(Key::Char('q'), owned("Quit"), Action::BackToMain));
        },
        CurrentScreen::Exit => {},
    }
    assert(v@.map_values(|b: KeyBinding| b@) =~= bindings_of(screen));
    v
}

/// The interface's state: the screen shown, whether the selected task is to
/// be deleted, and the tasks listed.
pub struct App {
    current_screen: CurrentScreen,
    should_delete: bool,
    tasks: Vec<Task>,
}

impl App {
    /// The screen shown.
    pub closed spec fn spec_screen(&self) -> CurrentScreen {
        self.current_screen
    }

    /// Whether the selected task is to be deleted.
    pub closed spec fn spec_should_delete(&self) -> bool {
        self.should_delete
    }

    /// The tasks listed.
    pub closed spec fn spec_tasks(&self) -> Seq<TaskView> {
        tasks_view(self.tasks@)
    }

    /// The interface over the in-progress tasks `tasks`, on the main screen.
    pub fn new(tasks: Vec<Task>) -> (a: App)
        ensures
            a.spec_screen() == CurrentScreen::Main,
            !a.spec_should_delete(),
            a.spec_tasks() == tasks_view(tasks@),
    {
        App { current_screen: CurrentScreen::Main, should_delete: false, tasks }
    }

    /// The screen shown.
    pub fn get_current_screen(&self) -> (s: CurrentScreen)
        ensures
            s == self.spec_screen(),
    {
        self.current_screen
    }

    /// Whether the selected task is to be deleted.
    pub fn should_delete(&self) -> (d: bool)
        ensures
            d == self.spec_should_delete(),
    {
        self.should_delete
    }

    /// The tasks listed.
    pub fn tasks(&self) -> (t: &Vec<Task>)
        ensures
            tasks_view(t@) == self.spec_tasks(),
    {
        &self.tasks
    }

    /// The key bindings of a screen; the exit screen has none.
    pub fn get_keybindings(&self, screen: CurrentScreen) -> (v: Option<Vec<KeyBinding>>)
        ensures
            screen == CurrentScreen::Exit ==> v is None,
            screen != CurrentScreen::Exit ==> (v matches Some(b) && b@.map_values(
                |k: KeyBinding| k@,
            ) == bindings_of(screen)),
    {
        match screen {
            CurrentScreen::Exit => None,
            _ => Some(bindings_for(screen)),
        }
    }

    /// What `key` does on `screen`, if anything.
    pub fn get_keybind_action(&self, screen: CurrentScreen, key: Key) -> (a: Option<Action>)
        ensures
            a == action_for(screen, key),
    {
        let bindings = bindings_for(screen);
        let ghost bs = bindings@.map_values(|b: KeyBinding| b@);
        let mut i: usize = 0;
        assert(bs.subrange(0, bs.len() as int) =~= bs);
        while i < bindings.len()
            invariant
                i <= bindings.len(),
                bs == bindings@.map_values(|b: KeyBinding| b@),
                bs == bindings_of(screen),
                first_action(bs, key) == first_action(bs.subrange(i as int, bs.len() as int), key),
            decreases bindings.len() - i,
        {
            assert(bs.subrange(i as int, bs.len() as int).drop_first() =~= bs.subrange(
                i + 1,
                bs.len() as int,
            ));
            assert(bs[i as int] == bindings@[i as int]@);
            if bindings[i].key() == key {
                return Some(bindings[i].action());
            }
            i = i + 1;
        }
        None
    }

    /// Handles a key press on the screen shown: the screen and the delete
    /// request change as the key's action says, and the action is returned so
    /// that the caller can move the table's selection.
    pub fn press(&mut self, key: Key) -> (a: Option<Action>)
        ensures
            a == action_for(old(self).spec_screen(), key),
            final(self).spec_screen() == match a {
                Some(x) => screen_after(old(self).spec_screen(), x),
                None => old(self).spec_screen(),
            },
            final(self).spec_should_delete() == (old(self).spec_should_delete() || a == Some(
                Action::RequestDelete,
            )),
            final(self).spec_tasks() == old(self).spec_tasks(),
    {
        let a = self.get_keybind_action(self.current_screen, key);
        match a {
            Some(Action::OpenTaskScreen) => {
                self.current_screen = CurrentScreen::Task;
            },
            Some(Action::RequestDelete) => {
                self.should_delete = true;
            },
            Some(Action::Quit) => {
                self.current_screen = CurrentScreen::Exit;
            },
            Some(Action::BackToMain) => {
                self.current_screen = CurrentScreen::Main;
            },
            _ => {},
        }
        a
    }

    /// The id of the task to delete, given the table's selection: an error
    /// when nothing is selected or the task has no usable id.
    pub fn delete_target(&self, selected: Option<usize>) -> (r: Result<String, String>)
        requires
            selected matches Some(i) ==> i < self.spec_tasks().len(),
        ensures
            match selected {
                None => r matches Err(m) && m@ == "No task selected"@,
                Some(i) => match task_id(self.spec_tasks()[i as int]) {
                    Ok(x) => r matches Ok(s) && s@ == x,
                    Err((k, m)) => r matches Err(t) && t@ == task_error_text(k, m),
                },
            },
    {
        match selected {
            None => Err(owned("No task selected")),
            Some(i) => {
                proof {
                    assert(self.spec_tasks()[i as int] == self.tasks@[i as int]@);
                }
                match self.tasks[i].id() {
                    Ok(x) => Ok(x),
                    Err(e) => Err(e.to_string()),
                }
            },
        }
    }

    /// Forgets the task at `index` once it was deleted, and the delete request.
    pub fn remove_task(&mut self, index: usize)
        requires
            index < old(self).spec_tasks().len(),
        ensures
            final(self).spec_tasks() == old(self).spec_tasks().remove(index as int),
            !final(self).spec_should_delete(),
            final(self).spec_screen() == old(self).spec_screen(),
    {
        let ghost before = self.tasks@;
        self.tasks.remove(index);
        self.should_delete = false;
        proof {
            assert(tasks_view(self.tasks@) =~= tasks_view(before).remove(index as int));
        }
    }
}

/// A text with every newline doubled, as the details pane shows it.
pub open spec fn double_newlines(s: Seq<char>) -> Seq<char>
    decreases s.len(),
{
    if s.len() == 0 {
        s
    } else if s.last() == '\n' {
        double_newlines(s.drop_last()) + seq!['\n', '\n']
    } else {
        double_newlines(s.drop_last()).push(s.last())
    }
}

/// A task as its details are written: name, priority and description in
/// quotes, then the creation and completion times (`None` for a missing
/// description, `In progress` for a task not completed).
pub open spec fn task_display(t: TaskView) -> Seq<char> {
    "Name: \""@ + t.name + "\"\n"@ + "Priority: \""@ + priority_text(t.priority) + "\"\n"@
        + "Description: \""@ + (match t.description {
        Some(d) => d,
        None => "None"@,
    }) + "\"\n"@ + "created_at: "@ + t.created_at + "\n"@ + "completed_at: "@ + (
    match t.completed_at {
        Some(c) => c,
        None => "In progress"@,
    }) + "\n"@
}

/// The text of the details pane for a task.
pub open spec fn details_text(t: TaskView) -> Seq<char> {
    double_newlines("Task Details:\n"@ + task_display(t))
}

/// `s` with every newline doubled.
fn double_newlines_exec(s: &str) -> (r: String)
    ensures
        r@ == double_newlines(s@),
{
    let cs = chars_of(s);
    let mut out: Vec<char> = Vec::new();
    let mut i: usize = 0;
    assert(cs@.subrange(0, 0) =~= Seq::<char>::empty());
    while i < cs.len()
        invariant
            i <= cs.len(),
            cs@ == s@,
            out@ == double_newlines(cs@.subrange(0, i as int)),
        decreases cs.len() - i,
    {
        let ghost before = cs@.subrange(0, i as int);
        assert(cs@.subrange(0, i + 1).drop_last() =~= before);
        if cs[i] == '\n' {
            out.push('\n');
            out.push('\n');
            assert(out@ =~= double_newlines(before) + seq!['\n', '\n']);
        } else {
            out.push(cs[i]);
        }
        i = i + 1;
    }
    assert(cs@.subrange(0, cs.len() as int) =~= cs@);
    string_of(&out)
}

/// The text of the details pane for a task.
pub fn task_details(task: &Task) -> (s: String)
    ensures
        s@ == details_text(task@),
{
    let p = task.priority().to_string();
    let d = match task.description() {
        Some(d) => d.clone(),
        None => owned("None"),
    };
    let c = match task.completed_at() {
        Some(c) => c.clone(),
        None => owned("In progress"),
    };
    let mut text = concat3("Task Details:\nName: \"", task.name(), "\"\n");
    text.append("Priority: \"");
    text.append(p.as_str());
    text.append("\"\nDescription: \"");
    text.append(d.as_str());
    text.append("\"\ncreated_at: ");
    text.append(task.created_at());
    text.append("\ncompleted_at: ");
    text.append(c.as_str());
    text.append("\n");
    proof {
        reveal_strlit("Task Details:\nName: \"");
        reveal_strlit("Task Details:\n");
        reveal_strlit("Name: \"");
        reveal_strlit("\"\nDescription: \"");
        reveal_strlit("\"\n");
        reveal_strlit("Description: \"");
        reveal_strlit("\"\ncreated_at: ");
        reveal_strlit("created_at: ");
        reveal_strlit("\ncompleted_at: ");
        reveal_strlit("\n");
        reveal_strlit("completed_at: ");
        assert(text@ =~= "Task Details:\n"@ + task_display(task@));
    }
    double_newlines_exec(text.as_str())
}

/// The rows of the editing pop-up for a task: its name, priority and
/// description (empty when it has none).
pub open spec fn popup_rows_view(t: TaskView) -> Seq<Seq<Seq<char>>> {
    seq![
        seq!["Name"@, t.name],
        seq!["Priority"@, priority_text(t.priority)],
        seq!["Description"@, match t.description {
            Some(d) => d,
            None => Seq::empty(),
        }],
    ]
}

/// A row of two cells.
fn row2(a: String, b: String) -> (r: Vec<String>)
    ensures
        r@.map_values(|s: String| s@) == seq![a@, b@],
{
    let mut r: Vec<String> = Vec::new();
    r.push(a);
    r.push(b);
    assert(r@.map_values(|s: String| s@) =~= seq![a@, b@]);
    r
}

/// The rows of the editing pop-up for a task.
pub fn popup_rows(task: &Task) -> (rows: Vec<Vec<String>>)
    ensures
        rows@.len() == 3,
        forall|i: int|
            0 <= i < 3 ==> (#[trigger] rows@[i])@.map_values(|s: String| s@) == popup_rows_view(
                task@,
            )[i],
{
    let mut rows: Vec<Vec<String>> = Vec::new();
    rows.push(row2(owned("Name"), owned(task.name())));
    rows.push(row2(owned("Priority"), task.priority().to_string()));
    let d = match task.description() {
        Some(d) => d.clone(),
        None => String::new(),
    };
    rows.push(row2(owned("Description"), d));
    rows
}

/// The title of the editing pop-up: the task's id, or nothing when it has no
/// usable id.
pub fn edit_title(task: &Task) -> (t: String)
    ensures
        t@ == "Editing task "@ + match task_id(task@) {
            Ok(x) => x,
            Err(_) => Seq::empty(),
        },
{
    match task.id() {
        Ok(x) => concat2("Editing task ", x.as_str()),
        Err(_) => owned("Editing task "),
    }
}

} // verus!
