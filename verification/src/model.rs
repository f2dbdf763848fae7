//! The data of the task manager: tasks, their priorities, the errors shared by
//! all commands, and the result a command hands back.
use vstd::prelude::*;
use crate::text::{chars_of, concat3, concat4, occurs_at, owned, slice_chars, str_eq, string_of};

verus! {

// ------------------------------------------------------------------
// TaskPriority
// ------------------------------------------------------------------

/// The priority of a task.
#[derive(Debug, Clone, Copy, PartialEq, Eq, Structural)]
pub enum TaskPriority {
    Low,
    Medium,
    High,
}

/// The name shown for a priority.
pub open spec fn priority_text(p: TaskPriority) -> Seq<char> {
    match p {
        TaskPriority::Low => "Low"@,
        TaskPriority::Medium => "Medium"@,
        TaskPriority::High => "High"@,
    }
}

impl TaskPriority {
    /// The name shown for the priority: `Low`, `Medium` or `High`.
    pub fn to_string(&self) -> (s: String)
        ensures
            s@ == priority_text(*self),
    {
        match self {
            TaskPriority::Low => owned("Low"),
            TaskPriority::Medium => owned("Medium"),
            TaskPriority::High => owned("High"),
        }
    }
}

impl Default for TaskPriority {
    /// Tasks are of low priority unless said otherwise.
    fn default() -> (p: Self)
        ensures
            p == TaskPriority::Low,
    {
        TaskPriority::Low
    }
}

// ------------------------------------------------------------------
// Task
// ------------------------------------------------------------------

/// What a task holds, as sequences of characters.
pub struct TaskView {
    pub id: Option<Seq<char>>,
    pub name: Seq<char>,
    pub priority: TaskPriority,
    pub description: Option<Seq<char>>,
    pub work_note_path: Option<Seq<char>>,
    pub created_at: Seq<char>,
    pub completed_at: Option<Seq<char>>,
}

/// A task, as it is stored.
///
/// The times are held as the text the store renders for them; an empty
/// `created_at` means that no creation time was set, and the store stamps the
/// task with the current time when it is written.
#[derive(Debug, PartialEq)]
pub struct Task {
    id: Option<String>,
    name: String,
    priority: TaskPriority,
    description: Option<String>,
    work_note_path: Option<String>,
    created_at: String,
    completed_at: Option<String>,
}

impl View for Task {
    type V = TaskView;

    closed spec fn view(&self) -> TaskView {
        TaskView {
            id: self.id.deep_view(),
            name: self.name@,
            priority: self.priority,
            description: self.description.deep_view(),
            work_note_path: self.work_note_path.deep_view(),
            created_at: self.created_at@,
            completed_at: self.completed_at.deep_view(),
        }
    }
}

/// A copy of an optional string.
pub fn clone_opt(o: &Option<String>) -> (r: Option<String>)
    ensures
        r.deep_view() == o.deep_view(),
{
    match o {
        Some(s) => Some(s.clone()),
        None => None,
    }
}

impl Clone for Task {
    fn clone(&self) -> (r: Self)
        ensures
            r@ == self@,
    {
        Task {
            id: clone_opt(&self.id),
            name: self.name.clone(),
            priority: self.priority,
            description: clone_opt(&self.description),
            work_note_path: clone_opt(&self.work_note_path),
            created_at: self.created_at.clone(),
            completed_at: clone_opt(&self.completed_at),
        }
    }
}

impl Default for Task {
    /// A task with no id, an empty name, low priority and nothing else set.
    fn default() -> (t: Self)
        ensures
            t@ == empty_builder().built(),
    {
        Task::builder().build()
    }
}

/// The prefix of every task id in the store.
pub open spec fn id_prefix() -> Seq<char> {
    "task:"@
}

/// The message for an id without the `task:` prefix.
pub open spec fn bad_prefix_message(id: Seq<char>) -> Seq<char> {
    "Task ID from database is not prefixed with 'task:'. Expected 'task:<id>', but got '"@ + id
        + "'"@
}

/// The id of a task without its `task:` prefix, or why there is none.
pub open spec fn task_id(t: TaskView) -> Result<Seq<char>, (TaskErrorKind, Seq<char>)> {
    match t.id {
        None => Err((TaskErrorKind::NoId, "Task ID is not set"@)),
        Some(raw) => if occurs_at(raw, id_prefix(), 0) {
            Ok(raw.subrange(id_prefix().len() as int, raw.len() as int))
        } else {
            Err((TaskErrorKind::BadPrefix, bad_prefix_message(raw)))
        },
    }
}

impl Task {
    /// Returns the ID of the task as a string, without the "task:" prefix.
    ///
    /// If the task ID is not set, this function returns an error.
    ///
    /// If the task ID is set, but does not start with "task:", this function returns an error.
    pub fn id(&self) -> (r: Result<String, TaskError>)
        ensures
            match (r, task_id(self@)) {
                (Ok(s), Ok(x)) => s@ == x,
                (Err(e), Err((k, m))) => e.spec_kind() == k && e.spec_message() == m,
                _ => false,
            },
    {
        match &self.id {
            None => Err(TaskError { kind: TaskErrorKind::NoId, message: owned("Task ID is not set") }),
            Some(raw) => {
                let cs = chars_of(raw.as_str());
                let prefix = chars_of("task:");
                if prefix.len() <= cs.len() && {
                    let head = slice_chars(&cs, 0, prefix.len());
                    crate::text::chars_eq(&head, &prefix)
                } {
                    let rest = slice_chars(&cs, prefix.len(), cs.len());
                    Ok(string_of(&rest))
                } else {
                    Err(
                        TaskError {
                            kind: TaskErrorKind::BadPrefix,
                            message: concat3(
                                "Task ID from database is not prefixed with 'task:'. Expected 'task:<id>', but got '",
                                raw.as_str(),
                                "'",
                            ),
                        },
                    )
                }
            },
        }
    }

    /// The stored id, with its `task:` prefix.
    pub fn raw_id(&self) -> (r: &Option<String>)
        ensures
            r.deep_view() == self@.id,
    {
        &self.id
    }

    /// The name of the task.
    pub fn name(&self) -> (r: &str)
        ensures
            r@ == self@.name,
    {
        self.name.as_str()
    }

    /// The priority of the task.
    pub fn priority(&self) -> (r: &TaskPriority)
        ensures
            *r == self@.priority,
    {
        &self.priority
    }

    /// An optional long description of the task.
    pub fn description(&self) -> (r: &Option<String>)
        ensures
            r.deep_view() == self@.description,
    {
        &self.description
    }

    /// The path to a markdown file to store notes associated with the task.
    pub fn work_note_path(&self) -> (r: &Option<String>)
        ensures
            r.deep_view() == self@.work_note_path,
    {
        &self.work_note_path
    }

    /// The time at which the task was added.
    pub fn created_at(&self) -> (r: &str)
        ensures
            r@ == self@.created_at,
    {
        self.created_at.as_str()
    }

    /// The time at which the task was completed, if it was.
    pub fn completed_at(&self) -> (r: &Option<String>)
        ensures
            r.deep_view() == self@.completed_at,
    {
        &self.completed_at
    }

    /// Constructs a new `TaskBuilder` with all fields set to `None`.
    pub fn builder() -> (b: TaskBuilder)
        ensures
            b@ == empty_builder(),
    {
        TaskBuilder {
            id: None,
            name: None,
            priority: None,
            description: None,
            work_note_path: None,
            created_at: None,
            completed_at: None,
        }
    }

    /// The names of the fields shown for a task, in the order they are shown.
    pub fn fields() -> (f: Vec<String>)
        ensures
            f@.map_values(|s: String| s@) == task_fields(),
    {
        let mut f: Vec<String> = Vec::new();
        f.push(owned("id"));
        f.push(owned("name"));
        f.push(owned("priority"));
        f.push(owned("description"));
        f.push(owned("created_at"));
        f.push(owned("completed_at"));
        f.push(owned("work_note_path"));
        assert(f@.map_values(|s: String| s@) =~= task_fields());
        f
    }

    /// The value shown for one field of the task.
    pub fn field_value(&self, field: &str) -> (v: String)
        requires
            is_task_field(field@),
        ensures
            v@ == field_text(self@, field@),
    {
        if str_eq(field, "id") {
            match self.id() {
                Ok(id) => id,
                Err(_) => owned("Error getting ID"),
            }
        } else if str_eq(field, "name") {
            self.name.clone()
        } else if str_eq(field, "priority") {
            self.priority.to_string()
        } else if str_eq(field, "description") {
            match &self.description {
                Some(d) => d.clone(),
                None => owned("None"),
            }
        } else if str_eq(field, "created_at") {
            self.created_at.clone()
        } else if str_eq(field, "completed_at") {
            match &self.completed_at {
                Some(c) => c.clone(),
                None => owned("In Progress"),
            }
        } else {
            match &self.work_note_path {
                Some(p) => p.clone(),
                None => owned(""),
            }
        }
    }

    /// The rows shown for the task: one (field, value) pair for each of the
    /// given fields, in the order given.
    pub fn to_table_rows_filtered(&self, include_fields: &[String]) -> (rows: Vec<(String, String)>)
        requires
            forall|i: int| 0 <= i < include_fields@.len() ==> is_task_field(#[trigger] include_fields@[i]@),
        ensures
            rows@.len() == include_fields@.len(),
            forall|i: int|
                0 <= i < rows@.len() ==> (#[trigger] rows@[i]).0@ == include_fields@[i]@ && rows@[i].1@
                    == field_text(self@, include_fields@[i]@),
    {
        let mut rows: Vec<(String, String)> = Vec::new();
        let mut i: usize = 0;
        while i < include_fields.len()
            invariant
                i <= include_fields@.len(),
                rows@.len() == i,
                forall|j: int| 0 <= j < include_fields@.len() ==> is_task_field(#[trigger] include_fields@[j]@),
                forall|j: int|
                    0 <= j < i ==> (#[trigger] rows@[j]).0@ == include_fields@[j]@ && rows@[j].1@
                        == field_text(self@, include_fields@[j]@),
            decreases include_fields@.len() - i,
        {
            let f = &include_fields[i];
            let v = self.field_value(f.as_str());
            rows.push((f.clone(), v));
            i = i + 1;
        }
        rows
    }

    /// The rows shown for the task: every field, in the order of [`Task::fields`].
    pub fn to_table_rows(&self) -> (rows: Vec<(String, String)>)
        ensures
            rows@.len() == task_fields().len(),
            forall|i: int|
                0 <= i < rows@.len() ==> (#[trigger] rows@[i]).0@ == task_fields()[i] && rows@[i].1@
                    == field_text(self@, task_fields()[i]),
    {
        let f = Task::fields();
        proof {
            assert forall|i: int| 0 <= i < f@.len() implies is_task_field(#[trigger] f@[i]@) by {
                assert(f@.map_values(|s: String| s@)[i] == f@[i]@);
            }
        }
        let rows = self.to_table_rows_filtered(f.as_slice());
        proof {
            assert forall|i: int| 0 <= i < rows@.len() implies (#[trigger] rows@[i]).0@ == task_fields()[i] by {
                assert(f@.map_values(|s: String| s@)[i] == f@[i]@);
            }
        }
        rows
    }
}

/// The fields shown for a task, in order.
pub open spec fn task_fields() -> Seq<Seq<char>> {
    seq![
        "id"@,
        "name"@,
        "priority"@,
        "description"@,
        "created_at"@,
        "completed_at"@,
        "work_note_path"@,
    ]
}

/// `f` names a field of a task.
pub open spec fn is_task_field(f: Seq<char>) -> bool {
    task_fields().contains(f)
}

/// The text shown for field `f` of a task.
pub open spec fn field_text(t: TaskView, f: Seq<char>) -> Seq<char> {
    if f == "id"@ {
        match task_id(t) {
            Ok(x) => x,
            Err(_) => "Error getting ID"@,
        }
    } else if f == "name"@ {
        t.name
    } else if f == "priority"@ {
        priority_text(t.priority)
    } else if f == "description"@ {
        match t.description {
            Some(d) => d,
            None => "None"@,
        }
    } else if f == "created_at"@ {
        t.created_at
    } else if f == "completed_at"@ {
        match t.completed_at {
            Some(c) => c,
            None => "In Progress"@,
        }
    } else {
        match t.work_note_path {
            Some(p) => p,
            None => ""@,
        }
    }
}

/// What each field of a task shows: the name, the priority's text and the
/// creation time as stored; the description, the completion time and the
/// note path as stored when set (else `None`, `In Progress` and nothing);
/// and, for a task stored under `task:<x>`, the id `x`.
pub proof fn law_fields_show_the_task(t: TaskView, x: Seq<char>)
    ensures
        field_text(t, "name"@) == t.name,
        field_text(t, "priority"@) == priority_text(t.priority),
        field_text(t, "created_at"@) == t.created_at,
        t.description matches Some(d) ==> field_text(t, "description"@) == d,
        t.description is None ==> field_text(t, "description"@) == "None"@,
        t.completed_at matches Some(c) ==> field_text(t, "completed_at"@) == c,
        t.completed_at is None ==> field_text(t, "completed_at"@) == "In Progress"@,
        t.work_note_path matches Some(p) ==> field_text(t, "work_note_path"@) == p,
        t.work_note_path is None ==> field_text(t, "work_note_path"@) == Seq::<char>::empty(),
        t.id == Some("task:"@ + x) ==> field_text(t, "id"@) == x,
{
    reveal_strlit("id");
    reveal_strlit("name");
    reveal_strlit("priority");
    reveal_strlit("description");
    reveal_strlit("created_at");
    reveal_strlit("completed_at");
    reveal_strlit("work_note_path");
    reveal_strlit("");
    assert("id"@.len() == 2 && "name"@.len() == 4 && "priority"@.len() == 8);
    assert("description"@.len() == 11 && "created_at"@.len() == 10);
    assert("completed_at"@.len() == 12 && "work_note_path"@.len() == 14);
    assert("name"@ != "id"@);
    assert("priority"@ != "id"@ && "priority"@ != "name"@);
    assert("description"@ != "id"@ && "description"@ != "name"@ && "description"@ != "priority"@);
    assert("created_at"@ != "id"@ && "created_at"@ != "name"@ && "created_at"@ != "priority"@
        && "created_at"@ != "description"@);
    assert("completed_at"@ != "id"@ && "completed_at"@ != "name"@ && "completed_at"@
        != "priority"@ && "completed_at"@ != "description"@ && "completed_at"@ != "created_at"@);
    assert("work_note_path"@ != "id"@ && "work_note_path"@ != "name"@ && "work_note_path"@
        != "priority"@ && "work_note_path"@ != "description"@ && "work_note_path"@
        != "created_at"@ && "work_note_path"@ != "completed_at"@);
    if t.id == Some("task:"@ + x) {
        law_task_id_strips_prefix(t, x);
    }
}

/// A task stored under the id `task:<x>` has the id `x`: `id` gives back what
/// follows the prefix.
pub proof fn law_task_id_strips_prefix(t: TaskView, x: Seq<char>)
    requires
        t.id == Some(id_prefix() + x),
    ensures
        task_id(t) == Ok::<Seq<char>, (TaskErrorKind, Seq<char>)>(x),
{
    reveal_strlit("task:");
    let raw = id_prefix() + x;
    assert(raw.subrange(0, 5) =~= id_prefix());
    assert(raw.subrange(5, raw.len() as int) =~= x);
}

// ------------------------------------------------------------------
// Task errors
// ------------------------------------------------------------------

/// Why a task has no usable id.
#[derive(Debug, Clone, Copy, PartialEq, Eq, Structural)]
pub enum TaskErrorKind {
    BadPrefix,
    NoId,
}

/// The description shown for a task error kind.
pub open spec fn task_error_kind_text(k: TaskErrorKind) -> Seq<char> {
    match k {
        TaskErrorKind::BadPrefix => "Bad prefix"@,
        TaskErrorKind::NoId => "No id"@,
    }
}

impl TaskErrorKind {
    /// The description shown for the kind.
    pub fn to_string(&self) -> (s: String)
        ensures
            s@ == task_error_kind_text(*self),
    {
        match self {
            TaskErrorKind::BadPrefix => owned("Bad prefix"),
            TaskErrorKind::NoId => owned("No id"),
        }
    }
}

/// The text shown for a task error.
pub open spec fn task_error_text(k: TaskErrorKind, m: Seq<char>) -> Seq<char> {
    m + " (task error: "@ + task_error_kind_text(k) + ")"@
}

/// An error about a task's id.
#[derive(Debug)]
pub struct TaskError {
    kind: TaskErrorKind,
    message: String,
}

impl TaskError {
    pub closed spec fn spec_kind(&self) -> TaskErrorKind {
        self.kind
    }

    pub closed spec fn spec_message(&self) -> Seq<char> {
        self.message@
    }

    /// The kind of the error.
    pub fn kind(&self) -> (k: TaskErrorKind)
        ensures
            k == self.spec_kind(),
    {
        self.kind
    }

    /// The text shown for the error.
    pub fn to_string(&self) -> (s: String)
        ensures
            s@ == task_error_text(self.spec_kind(), self.spec_message()),
    {
        let k = self.kind.to_string();
        concat4(self.message.as_str(), " (task error: ", k.as_str(), ")")
    }
}

// ------------------------------------------------------------------
// TaskBuilder
// ------------------------------------------------------------------

/// What a builder holds so far.
pub struct TaskBuilderView {
    pub id: Option<Seq<char>>,
    pub name: Option<Seq<char>>,
    pub priority: Option<TaskPriority>,
    pub description: Option<Seq<char>>,
    pub work_note_path: Option<Seq<char>>,
    pub created_at: Option<Seq<char>>,
    pub completed_at: Option<Seq<char>>,
}

/// A builder with every field unset.
pub open spec fn empty_builder() -> TaskBuilderView {
    TaskBuilderView {
        id: None,
        name: None,
        priority: None,
        description: None,
        work_note_path: None,
        created_at: None,
        completed_at: None,
    }
}

impl TaskBuilderView {
    /// The task that building gives: unset name and creation time are empty,
    /// unset priority is low.
    pub open spec fn built(self) -> TaskView {
        TaskView {
            id: self.id,
            name: match self.name {
                Some(n) => n,
                None => Seq::empty(),
            },
            priority: match self.priority {
                Some(p) => p,
                None => TaskPriority::Low,
            },
            description: self.description,
            work_note_path: self.work_note_path,
            created_at: match self.created_at {
                Some(c) => c,
                None => Seq::empty(),
            },
            completed_at: self.completed_at,
        }
    }
}

/// Builds a [`Task`] field by field.
pub struct TaskBuilder {
    id: Option<String>,
    name: Option<String>,
    priority: Option<TaskPriority>,
    description: Option<String>,
    work_note_path: Option<String>,
    created_at: Option<String>,
    completed_at: Option<String>,
}

impl View for TaskBuilder {
    type V = TaskBuilderView;

    closed spec fn view(&self) -> TaskBuilderView {
        TaskBuilderView {
            id: self.id.deep_view(),
            name: self.name.deep_view(),
            priority: self.priority,
            description: self.description.deep_view(),
            work_note_path: self.work_note_path.deep_view(),
            created_at: self.created_at.deep_view(),
            completed_at: self.completed_at.deep_view(),
        }
    }
}

impl TaskBuilder {
    /// Sets the ID of the task to the given value.
    pub fn id(self, id: String) -> (b: Self)
        ensures
            b@ == (TaskBuilderView { id: Some(id@), ..self@ }),
    {
        TaskBuilder { id: Some(id), ..self }
    }

    /// Sets the name of the task to the given value.
    pub fn name(self, name: String) -> (b: Self)
        ensures
            b@ == (TaskBuilderView { name: Some(name@), ..self@ }),
    {
        TaskBuilder { name: Some(name), ..self }
    }

    /// Sets the priority of the task to the given value.
    pub fn priority(self, priority: TaskPriority) -> (b: Self)
        ensures
            b@ == (TaskBuilderView { priority: Some(priority), ..self@ }),
    {
        TaskBuilder { priority: Some(priority), ..self }
    }

    /// Sets the description of the task to the given value.
    pub fn description(self, description: String) -> (b: Self)
        ensures
            b@ == (TaskBuilderView { description: Some(description@), ..self@ }),
    {
        TaskBuilder { description: Some(description), ..self }
    }

    /// Sets the path to the markdown file to store notes associated with the task.
    pub fn work_note_path(self, work_note_path: String) -> (b: Self)
        ensures
            b@ == (TaskBuilderView { work_note_path: Some(work_note_path@), ..self@ }),
    {
        TaskBuilder { work_note_path: Some(work_note_path), ..self }
    }

    /// Sets the time at which the task was added to the given value.
    pub fn created_at(self, created_at: String) -> (b: Self)
        ensures
            b@ == (TaskBuilderView { created_at: Some(created_at@), ..self@ }),
    {
        TaskBuilder { created_at: Some(created_at), ..self }
    }

    /// Sets the time at which the task was completed to the given value.
    pub fn completed_at(self, completed_at: String) -> (b: Self)
        ensures
            b@ == (TaskBuilderView { completed_at: Some(completed_at@), ..self@ }),
    {
        TaskBuilder { completed_at: Some(completed_at), ..self }
    }

    /// Builds a `Task` from the current state of the builder.
    pub fn build(self) -> (t: Task)
        ensures
            t@ == self@.built(),
    {
        Task {
            id: self.id,
            name: match self.name {
                Some(n) => n,
                None => String::new(),
            },
            priority: match self.priority {
                Some(p) => p,
                None => TaskPriority::Low,
            },
            description: self.description,
            work_note_path: self.work_note_path,
            created_at: match self.created_at {
                Some(c) => c,
                None => String::new(),
            },
            completed_at: self.completed_at,
        }
    }
}

// ------------------------------------------------------------------
// TmgrError
// ------------------------------------------------------------------

/// The command in which an error arose.
#[derive(Debug, Clone, Copy, PartialEq, Eq, Structural)]
pub enum TmgrErrorKind {
    AddCommand,
    CompleteCommand,
    DeleteCommand,
    ListCommand,
    MigrateCommand,
    NoteCommand,
    StatusCommand,
    UpdateCommand,
    UpgradeCommand,
    ViewCommand,
    Tmgr,
}

/// The description shown for a kind of error.
pub open spec fn tmgr_error_kind_text(k: TmgrErrorKind) -> Seq<char> {
    match k {
        TmgrErrorKind::AddCommand => "Add command error"@,
        TmgrErrorKind::CompleteCommand => "Complete command error"@,
        TmgrErrorKind::DeleteCommand => "Delete command error"@,
        TmgrErrorKind::ListCommand => "List command error"@,
        TmgrErrorKind::MigrateCommand => "Migrate command error"@,
        TmgrErrorKind::NoteCommand => "Note command error"@,
        TmgrErrorKind::StatusCommand => "Status command error"@,
        TmgrErrorKind::UpdateCommand => "Update command error"@,
        TmgrErrorKind::UpgradeCommand => "Upgrade command error"@,
        TmgrErrorKind::ViewCommand => "View command error"@,
        TmgrErrorKind::Tmgr => "Tmgr error"@,
    }
}

impl TmgrErrorKind {
    /// The description shown for the kind.
    pub fn to_string(&self) -> (s: String)
        ensures
            s@ == tmgr_error_kind_text(*self),
    {
        match self {
            TmgrErrorKind::AddCommand => owned("Add command error"),
            TmgrErrorKind::CompleteCommand => owned("Complete command error"),
            TmgrErrorKind::DeleteCommand => owned("Delete command error"),
            TmgrErrorKind::ListCommand => owned("List command error"),
            TmgrErrorKind::MigrateCommand => owned("Migrate command error"),
            TmgrErrorKind::NoteCommand => owned("Note command error"),
            TmgrErrorKind::StatusCommand => owned("Status command error"),
            TmgrErrorKind::UpdateCommand => owned("Update command error"),
            TmgrErrorKind::UpgradeCommand => owned("Upgrade command error"),
            TmgrErrorKind::ViewCommand => owned("View command error"),
            TmgrErrorKind::Tmgr => owned("Tmgr error"),
        }
    }
}

/// An error of a command, as the command line reports it.
#[derive(Debug)]
pub struct TmgrError {
    kind: TmgrErrorKind,
    message: String,
}

/// The text shown for an error: its message, then its kind in brackets.
pub open spec fn tmgr_error_text(kind: TmgrErrorKind, message: Seq<char>) -> Seq<char> {
    message + " (tmgr error: "@ + tmgr_error_kind_text(kind) + ")"@
}

impl TmgrError {
    /// An error of the given kind with the given message.
    pub fn new(kind: TmgrErrorKind, message: String) -> (e: Self)
        ensures
            e.spec_kind() == kind,
            e.spec_message() == message@,
    {
        Self { kind, message }
    }

    pub closed spec fn spec_kind(&self) -> TmgrErrorKind {
        self.kind
    }

    pub closed spec fn spec_message(&self) -> Seq<char> {
        self.message@
    }

    /// The kind of the error.
    pub fn kind(&self) -> (k: TmgrErrorKind)
        ensures
            k == self.spec_kind(),
    {
        self.kind
    }

    /// The text shown for the error.
    pub fn to_string(&self) -> (s: String)
        ensures
            s@ == tmgr_error_text(self.spec_kind(), self.spec_message()),
    {
        let k = self.kind.to_string();
        concat4(self.message.as_str(), " (tmgr error: ", k.as_str(), ")")
    }
}

// ------------------------------------------------------------------
// CommandResult
// ------------------------------------------------------------------

/// What a command hands back: the message to show and the data it produced.
#[derive(Debug)]
pub struct CommandResult<T> {
    message: String,
    result: T,
}

impl<T> CommandResult<T> {
    /// A result with the given message and data.
    pub fn new(message: String, result: T) -> (r: Self)
        ensures
            r.spec_message() == message@,
            r.spec_result() == result,
    {
        Self { message, result }
    }

    pub closed spec fn spec_message(&self) -> Seq<char> {
        self.message@
    }

    pub closed spec fn spec_result(&self) -> T {
        self.result
    }

    /// The message to show.
    pub fn message(&self) -> (m: &str)
        ensures
            m@ == self.spec_message(),
    {
        self.message.as_str()
    }

    /// The data the command produced.
    pub fn result(&self) -> (r: &T)
        ensures
            *r == self.spec_result(),
    {
        &self.result
    }
}

} // verus!
