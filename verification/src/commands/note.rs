//! The `note` command: the markdown file that holds the notes of a task.
use vstd::prelude::*;
use vstd::string::*;
use crate::db::{db_error_text, select_task_by_partial_id, selection, tasks_view};
use crate::model::{
    CommandResult, Task, TaskView, TmgrError, TmgrErrorKind, task_error_text, task_id,
};
use crate::text::{concat2, concat4, join_path, join_path_exec, owned};

verus! {

/// What went wrong in the `note` command.
#[derive(Debug, Clone, Copy, PartialEq, Eq, Structural)]
pub enum NoteErrorKind {
    BadTaskId,
    DatabaseError,
    ExecutionError,
    FailedToOpenEditor,
    IOError,
    UnableToDetermineTmgrExecutablePath,
}

/// The description shown for a kind of note error.
pub open spec fn note_error_kind_text(k: NoteErrorKind) -> Seq<char> {
    match k {
        NoteErrorKind::BadTaskId => "Bad task id"@,
        NoteErrorKind::DatabaseError => "Database error"@,
        NoteErrorKind::ExecutionError => "Execution error"@,
        NoteErrorKind::FailedToOpenEditor => "Failed to open editor"@,
        NoteErrorKind::IOError => "IO error"@,
        NoteErrorKind::UnableToDetermineTmgrExecutablePath => "Unable to determine tmgr executable path"@,
    }
}

impl NoteErrorKind {
    /// The description shown for the kind.
    pub fn to_string(&self) -> (s: String)
        ensures
            s@ == note_error_kind_text(*self),
    {
        match self {
            NoteErrorKind::BadTaskId => owned("Bad task id"),
            NoteErrorKind::DatabaseError => owned("Database error"),
            NoteErrorKind::ExecutionError => owned("Execution error"),
            NoteErrorKind::FailedToOpenEditor => owned("Failed to open editor"),
            NoteErrorKind::IOError => owned("IO error"),
            NoteErrorKind::UnableToDetermineTmgrExecutablePath => owned("Unable to determine tmgr executable path"),
        }
    }
}

/// An error of the `note` command.
#[derive(Debug)]
pub struct NoteError {
    kind: NoteErrorKind,
    message: String,
}

/// The text shown for a note error.
pub open spec fn note_error_text(k: NoteErrorKind, m: Seq<char>) -> Seq<char> {
    m + " (note error: "@ + note_error_kind_text(k) + ")"@
}

impl NoteError {
    /// An error of the given kind with the given message.
    pub fn new(kind: NoteErrorKind, message: String) -> (e: Self)
        ensures
            e.spec_kind() == kind,
            e.spec_message() == message@,
    {
        NoteError { kind, message }
    }

    pub closed spec fn spec_kind(&self) -> NoteErrorKind {
        self.kind
    }

    pub closed spec fn spec_message(&self) -> Seq<char> {
        self.message@
    }

    /// The kind of the error.
    pub fn kind(&self) -> (k: NoteErrorKind)
        ensures
            k == self.spec_kind(),
    {
        self.kind
    }

    /// The text shown for the error.
    pub fn to_string(&self) -> (s: String)
        ensures
            s@ == note_error_text(self.spec_kind(), self.spec_message()),
    {
        let k = self.kind.to_string();
        concat4(self.message.as_str(), " (note error: ", k.as_str(), ")")
    }

    /// The error as the command line reports it.
    pub fn to_tmgr_error(&self) -> (e: TmgrError)
        ensures
            e.spec_kind() == TmgrErrorKind::NoteCommand,
            e.spec_message() == note_error_text(self.spec_kind(), self.spec_message()),
    {
        TmgrError::new(TmgrErrorKind::NoteCommand, self.to_string())
    }
}

/// The text a new note starts with: a header naming the task, the task's
/// description when it has one, and a section for the notes.
pub open spec fn note_text(task_id: Seq<char>, name: Seq<char>, description: Seq<char>) -> Seq<char> {
    let header = "# Task "@ + task_id + " - "@ + name + "\n\n"@;
    let body = if description.len() == 0 {
        Seq::empty()
    } else {
        description + "\n\n"@
    };
    header + body + "## Notes\n\n"@
}

/// Where the note of a task lives: `tmgr_notes/<id>.md` next to the executable.
pub open spec fn note_path(exe_dir: Seq<char>, id: Seq<char>) -> Seq<char> {
    join_path(join_path(exe_dir, "tmgr_notes"@), id + ".md"@)
}

/// What `note` does for a task: hand back its existing note, or create one.
pub enum NotePlan {
    /// The task has a note: its path and the task.
    Existing(CommandResult<Task>),
    /// The task has no note yet: its id and the text to start the note with.
    Create { task_id: String, contents: String },
}

/// What `note` does for a partial id: the path of the existing note and the
/// task, or the id of the task and the text of its new note; or the error.
pub open spec fn note_outcome(tasks: Seq<TaskView>, id: Seq<char>) -> Result<
    (Seq<char>, Seq<char>),
    (NoteErrorKind, Seq<char>),
> {
    match selection(tasks, id) {
        Err((k, m)) => Err((NoteErrorKind::DatabaseError, db_error_text(k, m))),
        Ok(t) => match t.work_note_path {
            Some(p) => Ok((p, Seq::empty())),
            None => match task_id(t) {
                Err((k, m)) => Err((NoteErrorKind::BadTaskId, task_error_text(k, m))),
                Ok(x) => Ok(
                    (
                        x,
                        note_text(
                            x,
                            t.name,
                            match t.description {
                                Some(d) => d,
                                None => Seq::empty(),
                            },
                        ),
                    ),
                ),
            },
        },
    }
}

/// The text a new note starts with.
pub fn note_contents(task_id: &str, name: &str, description: &str) -> (s: String)
    ensures
        s@ == note_text(task_id@, name@, description@),
{
    let mut s = concat5_note(task_id, name);
    if description.unicode_len() > 0 {
        s.append(description);
        s.append("\n\n");
    }
    s.append("## Notes\n\n");
    s
}

fn concat5_note(task_id: &str, name: &str) -> (s: String)
    ensures
        s@ == "# Task "@ + task_id@ + " - "@ + name@ + "\n\n"@,
{
    let mut s = concat4("# Task ", task_id, " - ", name);
    s.append("\n\n");
    s
}

/// The path of the note of task `id`, for an executable in `exe_dir`.
pub fn path_from_id(exe_dir: &str, id: &str) -> (p: String)
    ensures
        p@ == note_path(exe_dir@, id@),
{
    let notes_dir = join_path_exec(exe_dir, "tmgr_notes");
    let file = concat2(id, ".md");
    join_path_exec(notes_dir.as_str(), file.as_str())
}

/// What to do for the task that `id` names.
pub fn plan(tasks: &Vec<Task>, id: &str) -> (r: Result<NotePlan, NoteError>)
    ensures
        match (r, note_outcome(tasks_view(tasks@), id@)) {
            (Ok(NotePlan::Existing(c)), Ok((p, _))) => c.spec_message() == p
                && selection(tasks_view(tasks@), id@) == Ok::<TaskView, (crate::db::DBErrorKind, Seq<char>)>(c.spec_result()@)
                && c.spec_result()@.work_note_path is Some,
            (Ok(NotePlan::Create { task_id, contents }), Ok((x, text))) => task_id@ == x && contents@
                == text && (selection(tasks_view(tasks@), id@) matches Ok(t) && t.work_note_path is None),
            (Err(e), Err((k, m))) => e.spec_kind() == k && e.spec_message() == m,
            _ => false,
        },
{
    let task = match select_task_by_partial_id(tasks, id) {
        Ok(t) => t,
        Err(e) => {
            return Err(NoteError::new(NoteErrorKind::DatabaseError, e.to_string()));
        },
    };
    match task.work_note_path() {
        Some(p) => {
            let path = p.clone();
            return Ok(NotePlan::Existing(CommandResult::new(path, task)));
        },
        None => {},
    }
    let task_id = match task.id() {
        Ok(x) => x,
        Err(e) => {
            return Err(NoteError::new(NoteErrorKind::BadTaskId, e.to_string()));
        },
    };
    let description = match task.description() {
        Some(d) => d.clone(),
        None => String::new(),
    };
    let contents = note_contents(task_id.as_str(), task.name(), description.as_str());
    Ok(NotePlan::Create { task_id, contents })
}

/// The outcome once the note was written and the store was asked to record its
/// path: the updated task it handed back, or `None` when it failed.
pub fn report(note_path: String, updated: Option<Task>) -> (r: Result<CommandResult<Task>, NoteError>)
    ensures
        match updated {
            Some(t) => r matches Ok(c) && c.spec_message() == note_path@ && c.spec_result() == t,
            None => r matches Err(e) && e.spec_kind() == NoteErrorKind::DatabaseError
                && e.spec_message() == "Failed to update task"@,
        },
{
    match updated {
        Some(t) => Ok(CommandResult::new(note_path, t)),
        None => Err(NoteError::new(NoteErrorKind::DatabaseError, owned("Failed to update task"))),
    }
}

/// The editor that opens a note: the `EDITOR` variable's value when it is
/// set, `vi` otherwise.
pub fn editor_of(editor_var: Option<String>) -> (e: String)
    ensures
        e@ == match editor_var {
            Some(v) => v@,
            None => "vi"@,
        },
{
    match editor_var {
        Some(v) => v,
        None => owned("vi"),
    }
}

/// The error when the editor could not be started; `cause` is what the
/// system reported.
pub fn editor_failed(cause: &str) -> (e: NoteError)
    ensures
        e.spec_kind() == NoteErrorKind::FailedToOpenEditor,
        e.spec_message() == cause@ + " - HINT: make sure EDITOR is set or vi is installed"@,
{
    NoteError::new(
        NoteErrorKind::FailedToOpenEditor,
        concat2(cause, " - HINT: make sure EDITOR is set or vi is installed"),
    )
}

/// The error when the editor could not be waited for.
pub fn editor_lost() -> (e: NoteError)
    ensures
        e.spec_kind() == NoteErrorKind::ExecutionError,
        e.spec_message() == "Command was not running as expected"@,
{
    NoteError::new(NoteErrorKind::ExecutionError, owned("Command was not running as expected"))
}

} // verus!
