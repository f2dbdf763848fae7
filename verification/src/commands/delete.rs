//! The `delete` command: removes the task named by a partial id, and its note.
use vstd::prelude::*;
use crate::db::{db_error_text, select_task_by_partial_id, selection, tasks_view};
use crate::model::{
    CommandResult, Task, TaskView, TmgrError, TmgrErrorKind, clone_opt, task_error_text, task_id,
};
use crate::text::{concat3, concat4, owned};

verus! {

/// What went wrong in the `delete` command.
#[derive(Debug, Clone, Copy, PartialEq, Eq, Structural)]
pub enum DeleteErrorKind {
    BadTaskId,
    DatabaseError,
    FailedToDeleteTask,
    FailedToDeleteNote,
}

/// The description shown for a kind of delete error.
pub open spec fn delete_error_kind_text(k: DeleteErrorKind) -> Seq<char> {
    match k {
        DeleteErrorKind::BadTaskId => "Bad task id"@,
        DeleteErrorKind::DatabaseError => "Database error"@,
        DeleteErrorKind::FailedToDeleteTask => "Failed to delete task"@,
        DeleteErrorKind::FailedToDeleteNote => "Failed to delete note"@,
    }
}

impl DeleteErrorKind {
    /// The description shown for the kind.
    pub fn to_string(&self) -> (s: String)
        ensures
            s@ == delete_error_kind_text(*self),
    {
        match self {
            DeleteErrorKind::BadTaskId => owned("Bad task id"),
            DeleteErrorKind::DatabaseError => owned("Database error"),
            DeleteErrorKind::FailedToDeleteTask => owned("Failed to delete task"),
            DeleteErrorKind::FailedToDeleteNote => owned("Failed to delete note"),
        }
    }
}

/// An error of the `delete` command.
#[derive(Debug)]
pub struct DeleteError {
    pub kind: DeleteErrorKind,
    pub message: String,
}

/// The text shown for a delete error.
pub open spec fn delete_error_text(k: DeleteErrorKind, m: Seq<char>) -> Seq<char> {
    m + " (delete error: "@ + delete_error_kind_text(k) + ")"@
}

impl DeleteError {
    /// An error of the given kind with the given message.
    pub fn new(kind: DeleteErrorKind, message: String) -> (e: Self)
        ensures
            e.spec_kind() == kind,
            e.spec_message() == message@,
    {
        DeleteError { kind, message }
    }

    pub open spec fn spec_kind(&self) -> DeleteErrorKind {
        self.kind
    }

    pub open spec fn spec_message(&self) -> Seq<char> {
        self.message@
    }

    /// The kind of the error.
    pub fn kind(&self) -> (k: DeleteErrorKind)
        ensures
            k == self.spec_kind(),
    {
        self.kind
    }

    /// The text shown for the error.
    pub fn to_string(&self) -> (s: String)
        ensures
            s@ == delete_error_text(self.spec_kind(), self.spec_message()),
    {
        let k = self.kind.to_string();
        concat4(self.message.as_str(), " (delete error: ", k.as_str(), ")")
    }

    /// The error as the command line reports it.
    pub fn to_tmgr_error(&self) -> (e: TmgrError)
        ensures
            e.spec_kind() == TmgrErrorKind::DeleteCommand,
            e.spec_message() == delete_error_text(self.spec_kind(), self.spec_message()),
    {
        TmgrError::new(TmgrErrorKind::DeleteCommand, self.to_string())
    }
}

/// The task that a partial id names, as `delete` needs it: its id without the
/// `task:` prefix and the path of its note, or the error that `delete` reports.
pub open spec fn delete_target(tasks: Seq<TaskView>, id: Seq<char>) -> Result<
    (Seq<char>, Option<Seq<char>>),
    (DeleteErrorKind, Seq<char>),
> {
    match selection(tasks, id) {
        Err((k, m)) => Err((DeleteErrorKind::DatabaseError, db_error_text(k, m))),
        Ok(t) => match task_id(t) {
            Err((k, m)) => Err((DeleteErrorKind::BadTaskId, task_error_text(k, m))),
            Ok(x) => Ok((x, t.work_note_path)),
        },
    }
}

/// The message after a task was deleted.
pub open spec fn deleted_message(task_id: Seq<char>) -> Seq<char> {
    "Successfully deleted task '"@ + task_id + "'"@
}

/// The id of the task to delete and the path of its note, if it has one.
pub fn plan(tasks: &Vec<Task>, id: &str) -> (r: Result<(String, Option<String>), DeleteError>)
    ensures
        match (r, delete_target(tasks_view(tasks@), id@)) {
            (Ok((s, p)), Ok((x, q))) => s@ == x && p.deep_view() == q,
            (Err(e), Err((k, m))) => e.spec_kind() == k && e.spec_message() == m,
            _ => false,
        },
{
    let task = match select_task_by_partial_id(tasks, id) {
        Ok(t) => t,
        Err(e) => {
            return Err(DeleteError::new(DeleteErrorKind::DatabaseError, e.to_string()));
        },
    };
    let note = clone_opt(task.work_note_path());
    match task.id() {
        Ok(x) => Ok((x, note)),
        Err(e) => Err(DeleteError::new(DeleteErrorKind::BadTaskId, e.to_string())),
    }
}

/// The outcome once the store was asked to delete the task: the task it
/// handed back, or `None` when it failed or returned nothing.
pub fn report(task_id: &str, deleted: Option<Task>) -> (r: Result<CommandResult<Task>, DeleteError>)
    ensures
        match deleted {
            Some(t) => r matches Ok(c) && c.spec_message() == deleted_message(task_id@)
                && c.spec_result() == t,
            None => r matches Err(e) && e.spec_kind() == DeleteErrorKind::FailedToDeleteTask
                && e.spec_message() == "Failed to delete task"@,
        },
{
    match deleted {
        Some(t) => Ok(CommandResult::new(concat3("Successfully deleted task '", task_id, "'"), t)),
        None => Err(
            DeleteError::new(DeleteErrorKind::FailedToDeleteTask, owned("Failed to delete task")),
        ),
    }
}

} // verus!
