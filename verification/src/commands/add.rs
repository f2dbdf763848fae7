//! The `add` command: a new task from a name, a priority and a description.
use vstd::prelude::*;
use crate::model::{
    Task, TaskPriority, TaskView, TmgrError, TmgrErrorKind, task_error_text, task_id,
};
use crate::text::{concat3, concat4, owned};

verus! {

/// What went wrong in the `add` command.
#[derive(Debug, Clone, Copy, PartialEq, Eq, Structural)]
pub enum AddErrorKind {
    BadTaskId,
    DatabaseError,
    FailedToCreateTask,
}

/// The description shown for a kind of add error.
pub open spec fn add_error_kind_text(k: AddErrorKind) -> Seq<char> {
    match k {
        AddErrorKind::BadTaskId => "Bad task id"@,
        AddErrorKind::DatabaseError => "Database error"@,
        AddErrorKind::FailedToCreateTask => "Failed to create task"@,
    }
}

impl AddErrorKind {
    /// The description shown for the kind.
    pub fn to_string(&self) -> (s: String)
        ensures
            s@ == add_error_kind_text(*self),
    {
        match self {
            AddErrorKind::BadTaskId => owned("Bad task id"),
            AddErrorKind::DatabaseError => owned("Database error"),
            AddErrorKind::FailedToCreateTask => owned("Failed to create task"),
        }
    }
}

/// An error of the `add` command.
#[derive(Debug)]
pub struct AddError {
    kind: AddErrorKind,
    message: String,
}

/// The text shown for a add error.
pub open spec fn add_error_text(k: AddErrorKind, m: Seq<char>) -> Seq<char> {
    m + " (add error: "@ + add_error_kind_text(k) + ")"@
}

impl AddError {
    /// An error of the given kind with the given message.
    pub fn new(kind: AddErrorKind, message: String) -> (e: Self)
        ensures
            e.spec_kind() == kind,
            e.spec_message() == message@,
    {
        AddError { kind, message }
    }

    pub closed spec fn spec_kind(&self) -> AddErrorKind {
        self.kind
    }

    pub closed spec fn spec_message(&self) -> Seq<char> {
        self.message@
    }

    /// The kind of the error.
    pub fn kind(&self) -> (k: AddErrorKind)
        ensures
            k == self.spec_kind(),
    {
        self.kind
    }

    /// The text shown for the error.
    pub fn to_string(&self) -> (s: String)
        ensures
            s@ == add_error_text(self.spec_kind(), self.spec_message()),
    {
        let k = self.kind.to_string();
        concat4(self.message.as_str(), " (add error: ", k.as_str(), ")")
    }

    /// The error as the command line reports it.
    pub fn to_tmgr_error(&self) -> (e: TmgrError)
        ensures
            e.spec_kind() == TmgrErrorKind::AddCommand,
            e.spec_message() == add_error_text(self.spec_kind(), self.spec_message()),
    {
        TmgrError::new(TmgrErrorKind::AddCommand, self.to_string())
    }
}

/// The task that `add` stores: the given name and description, the given
/// priority or low, and nothing else set.
pub open spec fn new_task_view(
    name: Seq<char>,
    priority: Option<TaskPriority>,
    description: Option<Seq<char>>,
) -> TaskView {
    TaskView {
        id: None,
        name: name,
        priority: match priority {
            Some(p) => p,
            None => TaskPriority::Low,
        },
        description: description,
        work_note_path: None,
        created_at: Seq::empty(),
        completed_at: None,
    }
}

/// A new task keeps what it was given, each part independently of the
/// others: its name, its description (whatever the priority), and its
/// priority, `Low` when none is given; it has no id, no note and is not
/// completed.
pub proof fn law_new_task_keeps_what_was_given(
    name: Seq<char>,
    priority: Option<TaskPriority>,
    description: Option<Seq<char>>,
)
    ensures
        new_task_view(name, priority, description).name == name,
        new_task_view(name, priority, description).description == description,
        priority matches Some(p) ==> new_task_view(name, priority, description).priority == p,
        priority is None ==> new_task_view(name, priority, description).priority
            == TaskPriority::Low,
        new_task_view(name, priority, description).id is None,
        new_task_view(name, priority, description).completed_at is None,
        new_task_view(name, priority, description).work_note_path is None,
{
}

/// The message after a task was created.
pub open spec fn created_message(task_id: Seq<char>) -> Seq<char> {
    "Task '"@ + task_id + "' created successfully"@
}

/// The task to store for the given name, priority and description.
pub fn new_task(name: &str, priority: Option<TaskPriority>, description: Option<String>) -> (t: Task)
    ensures
        t@ == new_task_view(name@, priority, description.deep_view()),
{
    let p = match priority {
        Some(p) => p,
        None => TaskPriority::default(),
    };
    let mut task_builder = Task::builder().name(owned(name)).priority(p);
    if let Some(description) = description {
        task_builder = task_builder.description(description);
    }
    task_builder.build()
}

/// The outcome once the store was asked to create the task: `Err(())` when
/// the store failed, otherwise the task it handed back, if any.
pub fn report(name: &str, created: Result<Option<Task>, ()>) -> (r: Result<String, AddError>)
    ensures
        match created {
            Err(_) => r matches Err(e) && e.spec_kind() == AddErrorKind::DatabaseError
                && e.spec_message() == "Failed to create task: '"@ + name@ + "'."@,
            Ok(None) => r matches Err(e) && e.spec_kind() == AddErrorKind::FailedToCreateTask
                && e.spec_message() == "Database did not return a task for '"@ + name@ + "'."@,
            Ok(Some(t)) => match task_id(t@) {
                Ok(x) => r matches Ok(s) && s@ == created_message(x),
                Err((k, m)) => r matches Err(e) && e.spec_kind() == AddErrorKind::BadTaskId
                    && e.spec_message() == task_error_text(k, m),
            },
        },
{
    match created {
        Err(_) => Err(
            AddError::new(AddErrorKind::DatabaseError, concat3("Failed to create task: '", name, "'.")),
        ),
        Ok(None) => Err(
            AddError::new(
                AddErrorKind::FailedToCreateTask,
                concat3("Database did not return a task for '", name, "'."),
            ),
        ),
        Ok(Some(task)) => match task.id() {
            Ok(id) => Ok(concat3("Task '", id.as_str(), "' created successfully")),
            Err(e) => Err(AddError::new(AddErrorKind::BadTaskId, e.to_string())),
        },
    }
}

} // verus!
