//! The task commands of the configuration-file front end: what they store
//! and print, and how a failed database call is reported.
use vstd::prelude::*;
use crate::model::TaskPriority;
use crate::parser::commands::db_cmds::DatabaseError;
use crate::text::{concat3, concat4, owned};

verus! {

/// What went wrong in the task commands.
#[derive(Debug, Clone, Copy, PartialEq, Eq, Structural)]
pub enum TodoErrorKind {
    DatabaseError,
    UnableToConnectToDatabase,
}

/// The description shown for a kind of todo error.
pub open spec fn todo_error_kind_text(k: TodoErrorKind) -> Seq<char> {
    match k {
        TodoErrorKind::DatabaseError => "database error"@,
        TodoErrorKind::UnableToConnectToDatabase => "unable to connect to database"@,
    }
}

impl TodoErrorKind {
    /// The description shown for the kind.
    pub fn to_string(&self) -> (s: String)
        ensures
            s@ == todo_error_kind_text(*self),
    {
        match self {
            TodoErrorKind::DatabaseError => owned("database error"),
            TodoErrorKind::UnableToConnectToDatabase => owned("unable to connect to database"),
        }
    }
}

/// An error of the task commands.
#[derive(Debug)]
pub struct TodoError {
    kind: TodoErrorKind,
    message: String,
}

/// The text shown for a todo error.
pub open spec fn todo_error_text(k: TodoErrorKind, m: Seq<char>) -> Seq<char> {
    m + " (todo error: "@ + todo_error_kind_text(k) + ")"@
}

impl TodoError {
    /// An error of the given kind with the given message.
    pub fn new(kind: TodoErrorKind, message: String) -> (e: Self)
        ensures
            e.spec_kind() == kind,
            e.spec_message() == message@,
    {
        TodoError { kind, message }
    }

    pub closed spec fn spec_kind(&self) -> TodoErrorKind {
        self.kind
    }

    pub closed spec fn spec_message(&self) -> Seq<char> {
        self.message@
    }

    /// The kind of the error.
    pub fn kind(&self) -> (k: TodoErrorKind)
        ensures
            k == self.spec_kind(),
    {
        self.kind
    }

    /// The text shown for the error.
    pub fn to_string(&self) -> (s: String)
        ensures
            s@ == todo_error_text(self.spec_kind(), self.spec_message()),
    {
        let k = self.kind.to_string();
        concat4(self.message.as_str(), " (todo error: ", k.as_str(), ")")
    }
}

impl TodoError {
    /// The text shown for the error, as a spec function.
    pub open spec fn spec_text(&self) -> Seq<char> {
        todo_error_text(self.spec_kind(), self.spec_message())
    }

    /// The error when a database call of a task command failed.
    pub fn from_database(e: &DatabaseError) -> (r: TodoError)
        ensures
            r.spec_kind() == TodoErrorKind::DatabaseError,
            r.spec_message() == e.spec_text(),
    {
        TodoError::new(TodoErrorKind::DatabaseError, e.to_string())
    }

    /// The error when the current database could not be opened.
    pub fn no_connection(e: &DatabaseError) -> (r: TodoError)
        ensures
            r.spec_kind() == TodoErrorKind::UnableToConnectToDatabase,
            r.spec_message() == e.spec_text(),
    {
        TodoError::new(TodoErrorKind::UnableToConnectToDatabase, e.to_string())
    }
}

/// A priority as the task commands store it: the name under which the
/// command line accepts it.
pub open spec fn priority_value(p: TaskPriority) -> Seq<char> {
    match p {
        TaskPriority::Low => "low"@,
        TaskPriority::Medium => "medium"@,
        TaskPriority::High => "high"@,
    }
}

/// A priority as the task commands store it.
pub fn priority_value_of(p: TaskPriority) -> (s: String)
    ensures
        s@ == priority_value(p),
{
    match p {
        TaskPriority::Low => owned("low"),
        TaskPriority::Medium => owned("medium"),
        TaskPriority::High => owned("high"),
    }
}

/// The new priority of `update`, as stored, if one was given.
pub fn priority_update(p: Option<TaskPriority>) -> (s: Option<String>)
    ensures
        match p {
            Some(q) => s matches Some(t) && t@ == priority_value(q),
            None => s is None,
        },
{
    match p {
        Some(q) => Some(priority_value_of(q)),
        None => None,
    }
}

/// The line printed after `add`.
pub fn added_message() -> (m: String)
    ensures
        m@ == "Successfully added task"@,
{
    owned("Successfully added task")
}

/// The line printed after `complete` marked task `id` as completed.
pub fn completed_message(id: &str) -> (m: String)
    ensures
        m@ == "Successfully set task "@ + id@ + " as completed"@,
{
    concat3("Successfully set task ", id, " as completed")
}

/// The line printed after `delete` removed task `id`.
pub fn deleted_message(id: &str) -> (m: String)
    ensures
        m@ == "Successfully deleted task "@ + id@,
{
    let mut m = owned("Successfully deleted task ");
    m.append(id);
    m
}

/// The line printed after `update`.
pub fn updated_message() -> (m: String)
    ensures
        m@ == "Successfully updated task"@,
{
    owned("Successfully updated task")
}

} // verus!
