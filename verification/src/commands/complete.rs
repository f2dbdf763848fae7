//! The `complete` command: marks the task named by a partial id as completed.
use vstd::prelude::*;
use crate::db::{db_error_text, select_task_by_partial_id, selection, tasks_view};
use crate::model::{Task, TaskView, TmgrError, TmgrErrorKind, task_error_text, task_id};
use crate::text::{concat3, concat4, owned};

verus! {

/// What went wrong in the `complete` command.
#[derive(Debug, Clone, Copy, PartialEq, Eq, Structural)]
pub enum CompleteErrorKind {
    BadTaskId,
    DatabaseError,
}

/// The description shown for a kind of complete error.
pub open spec fn complete_error_kind_text(k: CompleteErrorKind) -> Seq<char> {
    match k {
        CompleteErrorKind::BadTaskId => "Bad task id"@,
        CompleteErrorKind::DatabaseError => "Database error"@,
    }
}

impl CompleteErrorKind {
    /// The description shown for the kind.
    pub fn to_string(&self) -> (s: String)
        ensures
            s@ == complete_error_kind_text(*self),
    {
        match self {
            CompleteErrorKind::BadTaskId => owned("Bad task id"),
            CompleteErrorKind::DatabaseError => owned("Database error"),
        }
    }
}

/// An error of the `complete` command.
#[derive(Debug)]
pub struct CompleteError {
    kind: CompleteErrorKind,
    message: String,
}

/// The text shown for a complete error.
pub open spec fn complete_error_text(k: CompleteErrorKind, m: Seq<char>) -> Seq<char> {
    m + " (complete error: "@ + complete_error_kind_text(k) + ")"@
}

impl CompleteError {
    /// An error of the given kind with the given message.
    pub fn new(kind: CompleteErrorKind, message: String) -> (e: Self)
        ensures
            e.spec_kind() == kind,
            e.spec_message() == message@,
    {
        CompleteError { kind, message }
    }

    pub closed spec fn spec_kind(&self) -> CompleteErrorKind {
        self.kind
    }

    pub closed spec fn spec_message(&self) -> Seq<char> {
        self.message@
    }

    /// The kind of the error.
    pub fn kind(&self) -> (k: CompleteErrorKind)
        ensures
            k == self.spec_kind(),
    {
        self.kind
    }

    /// The text shown for the error.
    pub fn to_string(&self) -> (s: String)
        ensures
            s@ == complete_error_text(self.spec_kind(), self.spec_message()),
    {
        let k = self.kind.to_string();
        concat4(self.message.as_str(), " (complete error: ", k.as_str(), ")")
    }

    /// The error as the command line reports it.
    pub fn to_tmgr_error(&self) -> (e: TmgrError)
        ensures
            e.spec_kind() == TmgrErrorKind::CompleteCommand,
            e.spec_message() == complete_error_text(self.spec_kind(), self.spec_message()),
    {
        TmgrError::new(TmgrErrorKind::CompleteCommand, self.to_string())
    }
}

/// The id (without its `task:` prefix) of the task that a partial id names,
/// or the error that `complete` reports.
pub open spec fn complete_target(tasks: Seq<TaskView>, id: Seq<char>) -> Result<
    Seq<char>,
    (CompleteErrorKind, Seq<char>),
> {
    match selection(tasks, id) {
        Err((k, m)) => Err((CompleteErrorKind::DatabaseError, db_error_text(k, m))),
        Ok(t) => match task_id(t) {
            Err((k, m)) => Err((CompleteErrorKind::BadTaskId, task_error_text(k, m))),
            Ok(x) => Ok(x),
        },
    }
}

/// The message after a task was completed.
pub open spec fn completed_message(task_id: Seq<char>) -> Seq<char> {
    "Successfully updated task '"@ + task_id + "' to completed"@
}

/// The id of the task to mark as completed.
pub fn plan(tasks: &Vec<Task>, id: &str) -> (r: Result<String, CompleteError>)
    ensures
        match (r, complete_target(tasks_view(tasks@), id@)) {
            (Ok(s), Ok(x)) => s@ == x,
            (Err(e), Err((k, m))) => e.spec_kind() == k && e.spec_message() == m,
            _ => false,
        },
{
    let task = match select_task_by_partial_id(tasks, id) {
        Ok(t) => t,
        Err(e) => {
            return Err(CompleteError::new(CompleteErrorKind::DatabaseError, e.to_string()));
        },
    };
    match task.id() {
        Ok(x) => Ok(x),
        Err(e) => Err(CompleteError::new(CompleteErrorKind::BadTaskId, e.to_string())),
    }
}

/// The outcome once the store was asked to set the completion time of the task.
pub fn report(task_id: &str, stored: bool) -> (r: Result<String, CompleteError>)
    ensures
        stored ==> (r matches Ok(s) && s@ == completed_message(task_id@)),
        !stored ==> (r matches Err(e) && e.spec_kind() == CompleteErrorKind::DatabaseError
            && e.spec_message() == "Failed to set task to complete"@),
{
    if stored {
        Ok(concat3("Successfully updated task '", task_id, "' to completed"))
    } else {
        Err(
            CompleteError::new(
                CompleteErrorKind::DatabaseError,
                owned("Failed to set task to complete"),
            ),
        )
    }
}

} // verus!
