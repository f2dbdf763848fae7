//! The `status` command: where tmgr keeps its files, and how many tasks it holds.
use vstd::prelude::*;
use vstd::string::*;
use crate::model::{TmgrError, TmgrErrorKind};
use crate::text::{concat3, concat4, i32_to_string, owned, signed_decimal};

verus! {

/// What went wrong in the `status` command.
#[derive(Debug, Clone, Copy, PartialEq, Eq, Structural)]
pub enum StatusErrorKind {
    DatabaseError,
    SerializationError,
    UnableToDetermineTmgrExecutablePath,
    UnableToDetermineDbFilePath,
}

/// The description shown for a kind of status error.
pub open spec fn status_error_kind_text(k: StatusErrorKind) -> Seq<char> {
    match k {
        StatusErrorKind::DatabaseError => "Database error"@,
        StatusErrorKind::SerializationError => "Serialization error"@,
        StatusErrorKind::UnableToDetermineTmgrExecutablePath => "Unable to determine tmgr executable path"@,
        StatusErrorKind::UnableToDetermineDbFilePath => "Unable to determine database file path"@,
    }
}

impl StatusErrorKind {
    /// The description shown for the kind.
    pub fn to_string(&self) -> (s: String)
        ensures
            s@ == status_error_kind_text(*self),
    {
        match self {
            StatusErrorKind::DatabaseError => owned("Database error"),
            StatusErrorKind::SerializationError => owned("Serialization error"),
            StatusErrorKind::UnableToDetermineTmgrExecutablePath => owned("Unable to determine tmgr executable path"),
            StatusErrorKind::UnableToDetermineDbFilePath => owned("Unable to determine database file path"),
        }
    }
}

/// An error of the `status` command.
#[derive(Debug)]
pub struct StatusError {
    kind: StatusErrorKind,
    message: String,
}

/// The text shown for a status error.
pub open spec fn status_error_text(k: StatusErrorKind, m: Seq<char>) -> Seq<char> {
    m + " (status error: "@ + status_error_kind_text(k) + ")"@
}

impl StatusError {
    /// An error of the given kind with the given message.
    pub fn new(kind: StatusErrorKind, message: String) -> (e: Self)
        ensures
            e.spec_kind() == kind,
            e.spec_message() == message@,
    {
        StatusError { kind, message }
    }

    pub closed spec fn spec_kind(&self) -> StatusErrorKind {
        self.kind
    }

    pub closed spec fn spec_message(&self) -> Seq<char> {
        self.message@
    }

    /// The kind of the error.
    pub fn kind(&self) -> (k: StatusErrorKind)
        ensures
            k == self.spec_kind(),
    {
        self.kind
    }

    /// The text shown for the error.
    pub fn to_string(&self) -> (s: String)
        ensures
            s@ == status_error_text(self.spec_kind(), self.spec_message()),
    {
        let k = self.kind.to_string();
        concat4(self.message.as_str(), " (status error: ", k.as_str(), ")")
    }

    /// The error as the command line reports it.
    pub fn to_tmgr_error(&self) -> (e: TmgrError)
        ensures
            e.spec_kind() == TmgrErrorKind::StatusCommand,
            e.spec_message() == status_error_text(self.spec_kind(), self.spec_message()),
    {
        TmgrError::new(TmgrErrorKind::StatusCommand, self.to_string())
    }
}

/// The number of tasks: completed, in progress, and in all.
#[derive(Debug, Clone, Copy, PartialEq, Eq, Structural)]
pub struct TaskCount {
    pub completed: i32,
    pub in_progress: i32,
    pub total: i32,
}

/// The counts from what the store reported: missing numbers count as zero,
/// and the tasks in progress are those not completed.
pub fn count_tasks(total: Option<i32>, completed: Option<i32>) -> (c: TaskCount)
    requires
        i32::MIN <= (match total {
            Some(t) => t as int,
            None => 0,
        }) - (match completed {
            Some(d) => d as int,
            None => 0,
        }) <= i32::MAX,
    ensures
        c.total == (match total {
            Some(t) => t,
            None => 0,
        }),
        c.completed == (match completed {
            Some(d) => d,
            None => 0,
        }),
        c.in_progress == c.total - c.completed,
{
    let mut task_count = TaskCount { completed: 0, in_progress: 0, total: 0 };
    if let Some(total) = total {
        task_count.total = total;
    }
    if let Some(completed) = completed {
        task_count.completed = completed;
    }
    task_count.in_progress = task_count.total - task_count.completed;
    task_count
}

/// The statistics lines of the report.
pub open spec fn statistics_text(counts: Option<TaskCount>) -> Seq<char> {
    match counts {
        Some(c) => "  completed tasks: "@ + signed_decimal(c.completed as int) + "\n"@
            + "  in progress tasks: "@ + signed_decimal(c.in_progress as int) + "\n"@
            + "  total tasks: "@ + signed_decimal(c.total as int) + "\n"@,
        None => "  completed tasks: unable to determine number of tasks in current database\n"@
            + "  in progress tasks: unable to determine number of tasks in current database\n"@
            + "  total tasks: unable to determine number of tasks in current database\n"@,
    }
}

/// The report ends with the counts as `count_tasks` makes them, each on a
/// line of its own: the completed tasks, then the tasks in progress (those of
/// the total not completed), then the total.
pub proof fn law_status_reports_the_counts(exe: Seq<char>, db_path: Seq<char>, c: TaskCount)
    requires
        c.in_progress == c.total - c.completed,
    ensures
        ({
            let s = status_text(exe, db_path, Some(c));
            let lines = "  completed tasks: "@ + signed_decimal(c.completed as int) + "\n"@
                + "  in progress tasks: "@ + signed_decimal(c.total - c.completed) + "\n"@
                + "  total tasks: "@ + signed_decimal(c.total as int) + "\n"@;
            lines.len() <= s.len() && s.subrange(s.len() - lines.len(), s.len() as int) == lines
        }),
{
    let s = status_text(exe, db_path, Some(c));
    let lines = statistics_text(Some(c));
    let head = "File locations:\n"@ + "  tmgr executable: "@ + exe + "\n"@ + "  database: "@
        + db_path + "\n"@ + "General statistics:\n"@;
    assert(s == head + lines);
    assert(s.subrange(head.len() as int, s.len() as int) =~= lines);
}

/// The report of the `status` command.
pub open spec fn status_text(exe: Seq<char>, db_path: Seq<char>, counts: Option<TaskCount>) -> Seq<char> {
    "File locations:\n"@ + "  tmgr executable: "@ + exe + "\n"@ + "  database: "@ + db_path
        + "\n"@ + "General statistics:\n"@ + statistics_text(counts)
}

fn count_line(label: &str, n: i32) -> (s: String)
    ensures
        s@ == label@ + signed_decimal(n as int) + "\n"@,
{
    let d = i32_to_string(n);
    concat3(label, d.as_str(), "\n")
}

/// The report: the executable (as shown), the database path, and the counts
/// when the store could give them.
pub fn report(exe: &str, db_path: &str, counts: Option<TaskCount>) -> (s: String)
    ensures
        s@ == status_text(exe@, db_path@, counts),
{
    let mut res = owned("File locations:\n");
    let line = concat3("  tmgr executable: ", exe, "\n");
    res.append(line.as_str());
    let line = concat3("  database: ", db_path, "\n");
    res.append(line.as_str());
    res.append("General statistics:\n");
    match counts {
        Some(c) => {
            let l1 = count_line("  completed tasks: ", c.completed);
            res.append(l1.as_str());
            let l2 = count_line("  in progress tasks: ", c.in_progress);
            res.append(l2.as_str());
            let l3 = count_line("  total tasks: ", c.total);
            res.append(l3.as_str());
        },
        None => {
            res.append("  completed tasks: unable to determine number of tasks in current database\n");
            res.append("  in progress tasks: unable to determine number of tasks in current database\n");
            res.append("  total tasks: unable to determine number of tasks in current database\n");
        },
    }
    res
}

/// The query that counts the tasks, all and completed.
pub fn count_query() -> (q: String)
    ensures
        q@ == "SELECT count() as total, count(completed_at != None) as completed  FROM task GROUP BY total;"@,
{
    owned("SELECT count() as total, count(completed_at != None) as completed  FROM task GROUP BY total;")
}

/// The error when the executable's location is unknown.
pub fn executable_unknown() -> (e: StatusError)
    ensures
        e.spec_kind() == StatusErrorKind::UnableToDetermineTmgrExecutablePath,
        e.spec_message() == "Unable to determine executable location"@,
{
    StatusError::new(
        StatusErrorKind::UnableToDetermineTmgrExecutablePath,
        owned("Unable to determine executable location"),
    )
}

/// The error when the store's file is unknown; `cause` is the store's error text.
pub fn db_path_unknown(cause: String) -> (e: StatusError)
    ensures
        e.spec_kind() == StatusErrorKind::UnableToDetermineDbFilePath,
        e.spec_message() == cause@,
{
    StatusError::new(StatusErrorKind::UnableToDetermineDbFilePath, cause)
}

} // verus!
