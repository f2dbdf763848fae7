//! Choosing tasks out of the store: a task is named by the beginning of its id.
use vstd::prelude::*;
use crate::model::{Task, TaskView, TmgrError, TmgrErrorKind};
use crate::text::{
    chars_of, concat2, concat3, concat4, join_path, join_path_exec, occurs_at, occurs_at_exec,
    owned,
};

verus! {

// ------------------------------------------------------------------
// Errors
// ------------------------------------------------------------------

/// What went wrong while reaching the store.
#[derive(Debug, Clone, Copy, PartialEq, Eq, Structural)]
pub enum DBErrorKind {
    DatabaseError,
    ExpectedOneTask,
    IOError,
    MultipleTasksFound,
    NoTasksFound,
    SerializationError,
    UnableToDetermineTmgrExecutablePath,
}

/// The description shown for a kind of store error.
pub open spec fn db_error_kind_text(k: DBErrorKind) -> Seq<char> {
    match k {
        DBErrorKind::DatabaseError => "Database error"@,
        DBErrorKind::ExpectedOneTask => "Expected one task"@,
        DBErrorKind::IOError => "IO error"@,
        DBErrorKind::MultipleTasksFound => "Multiple tasks found"@,
        DBErrorKind::NoTasksFound => "No tasks found"@,
        DBErrorKind::SerializationError => "Serialization error"@,
        DBErrorKind::UnableToDetermineTmgrExecutablePath => "Unable to determine tmgr executable path"@,
    }
}

impl DBErrorKind {
    /// The description shown for the kind.
    pub fn to_string(&self) -> (s: String)
        ensures
            s@ == db_error_kind_text(*self),
    {
        match self {
            DBErrorKind::DatabaseError => owned("Database error"),
            DBErrorKind::ExpectedOneTask => owned("Expected one task"),
            DBErrorKind::IOError => owned("IO error"),
            DBErrorKind::MultipleTasksFound => owned("Multiple tasks found"),
            DBErrorKind::NoTasksFound => owned("No tasks found"),
            DBErrorKind::SerializationError => owned("Serialization error"),
            DBErrorKind::UnableToDetermineTmgrExecutablePath => owned(
                "Unable to determine tmgr executable path",
            ),
        }
    }
}

/// An error while reaching the store.
#[derive(Debug)]
pub struct DBError {
    kind: DBErrorKind,
    message: String,
}

/// The text shown for a store error.
pub open spec fn db_error_text(kind: DBErrorKind, message: Seq<char>) -> Seq<char> {
    message + " (db error: "@ + db_error_kind_text(kind) + ")"@
}

impl DBError {
    /// An error of the given kind with the given message.
    pub fn new(kind: DBErrorKind, message: String) -> (e: Self)
        ensures
            e.spec_kind() == kind,
            e.spec_message() == message@,
    {
        DBError { kind, message }
    }

    pub closed spec fn spec_kind(&self) -> DBErrorKind {
        self.kind
    }

    pub closed spec fn spec_message(&self) -> Seq<char> {
        self.message@
    }

    /// The kind of the error.
    pub fn kind(&self) -> (k: DBErrorKind)
        ensures
            k == self.spec_kind(),
    {
        self.kind
    }

    /// The text shown for the error.
    pub fn to_string(&self) -> (s: String)
        ensures
            s@ == db_error_text(self.spec_kind(), self.spec_message()),
    {
        let k = self.kind.to_string();
        concat4(self.message.as_str(), " (db error: ", k.as_str(), ")")
    }

    /// The error as the command line reports it.
    pub fn to_tmgr_error(&self) -> (e: TmgrError)
        ensures
            e.spec_kind() == TmgrErrorKind::Tmgr,
            e.spec_message() == db_error_text(self.spec_kind(), self.spec_message()),
    {
        TmgrError::new(TmgrErrorKind::Tmgr, self.to_string())
    }
}

// ------------------------------------------------------------------
// Selecting a task by the beginning of its id
// ------------------------------------------------------------------

/// The views of a list of tasks.
pub open spec fn tasks_view(tasks: Seq<Task>) -> Seq<TaskView> {
    tasks.map_values(|t: Task| t@)
}

/// The stored id of `t` begins with `task:` followed by `partial`.
pub open spec fn matches_partial_id(t: TaskView, partial: Seq<char>) -> bool {
    match t.id {
        Some(raw) => occurs_at(raw, "task:"@ + partial, 0),
        None => false,
    }
}

/// The tasks whose id begins with `task:` followed by `partial`, in order.
pub open spec fn matching_tasks(tasks: Seq<TaskView>, partial: Seq<char>) -> Seq<TaskView>
    decreases tasks.len(),
{
    if tasks.len() == 0 {
        Seq::empty()
    } else {
        let rest = matching_tasks(tasks.drop_last(), partial);
        if matches_partial_id(tasks.last(), partial) {
            rest.push(tasks.last())
        } else {
            rest
        }
    }
}

/// The message when no task's id begins with `partial`.
pub open spec fn not_found_message(partial: Seq<char>) -> Seq<char> {
    "Task starting with id '"@ + partial + "' was not found"@
}

/// The message when several tasks' ids begin with the same text.
pub open spec fn multiple_message() -> Seq<char> {
    "Multiple tasks found, provide more characters of the id"@
}

/// Which task a partial id selects: the only task whose id begins with
/// `task:` followed by `partial`, or why there is no such single task.
pub open spec fn selection(tasks: Seq<TaskView>, partial: Seq<char>) -> Result<
    TaskView,
    (DBErrorKind, Seq<char>),
> {
    let m = matching_tasks(tasks, partial);
    if m.len() == 0 {
        Err((DBErrorKind::NoTasksFound, not_found_message(partial)))
    } else if m.len() == 1 {
        Ok(m[0])
    } else {
        Err((DBErrorKind::MultipleTasksFound, multiple_message()))
    }
}

/// Whether the id of `t` begins with `task:` followed by `partial`.
fn matches_partial_id_exec(t: &Task, prefix: &Vec<char>, Ghost(partial): Ghost<Seq<char>>) -> (r: bool)
    requires
        prefix@ == "task:"@ + partial,
    ensures
        r == matches_partial_id(t@, partial),
{
    match t.raw_id() {
        Some(raw) => {
            let cs = chars_of(raw.as_str());
            occurs_at_exec(&cs, prefix, 0)
        },
        None => false,
    }
}

/// Select a task by a partial id.
///
/// Returns the task if exactly one task's id begins with `task:` followed by
/// `id`; returns an error if no task's does, or if several tasks' do.
pub fn select_task_by_partial_id(tasks: &Vec<Task>, id: &str) -> (r: Result<Task, DBError>)
    ensures
        match (r, selection(tasks_view(tasks@), id@)) {
            (Ok(t), Ok(v)) => t@ == v,
            (Err(e), Err((k, m))) => e.spec_kind() == k && e.spec_message() == m,
            _ => false,
        },
{
    let ghost tv = tasks_view(tasks@);
    let full = concat2("task:", id);
    let prefix = chars_of(full.as_str());
    let mut count: usize = 0;
    let mut first: usize = 0;
    let mut i: usize = 0;
    while i < tasks.len()
        invariant
            i <= tasks.len(),
            tv == tasks_view(tasks@),
            prefix@ == "task:"@ + id@,
            count == matching_tasks(tv.subrange(0, i as int), id@).len(),
            count <= i,
            count >= 1 ==> first < i && tasks@[first as int]@ == matching_tasks(
                tv.subrange(0, i as int),
                id@,
            )[0],
        decreases tasks.len() - i,
    {
        let ghost before = tv.subrange(0, i as int);
        let ghost after = tv.subrange(0, i + 1);
        assert(after.drop_last() =~= before);
        assert(after.last() == tasks@[i as int]@);
        if matches_partial_id_exec(&tasks[i], &prefix, Ghost(id@)) {
            if count == 0 {
                first = i;
            }
            count = count + 1;
        }
        i = i + 1;
    }
    assert(tv.subrange(0, tasks.len() as int) =~= tv);
    if count == 0 {
        return Err(
            DBError {
                kind: DBErrorKind::NoTasksFound,
                message: concat3("Task starting with id '", id, "' was not found"),
            },
        );
    }
    if count != 1 {
        return Err(
            DBError {
                kind: DBErrorKind::MultipleTasksFound,
                message: owned("Multiple tasks found, provide more characters of the id"),
            },
        );
    }
    Ok(tasks[first].clone())
}

// ------------------------------------------------------------------
// Reaching the store
// ------------------------------------------------------------------

/// The file of the task store: `tmgr_db` in the directory of the executable.
pub fn db_file_path(exe_dir: &str) -> (p: String)
    ensures
        p@ == join_path(exe_dir@, "tmgr_db"@),
{
    join_path_exec(exe_dir, "tmgr_db")
}

/// The address under which the task store in `db_file` is opened.
pub fn connection_address(db_file: &str) -> (a: String)
    ensures
        a@ == "surrealkv://"@ + db_file@,
{
    concat2("surrealkv://", db_file)
}

/// The query for the tasks whose id begins with `task:` followed by `id`.
pub fn partial_id_query(id: &str) -> (q: String)
    ensures
        q@ == "SELECT * from task WHERE string::starts_with(<string> id, \"task:"@ + id@ + "\")"@,
{
    concat3("SELECT * from task WHERE string::starts_with(<string> id, \"task:", id, "\")")
}

/// A step of reaching the store that can fail.
#[derive(Debug, Clone, Copy, PartialEq, Eq, Structural)]
pub enum DbStep {
    /// Opening the store's file.
    Connect,
    /// Opening a store held in memory.
    ConnectMemory,
    /// Choosing the namespace and database.
    Namespace,
    /// Finding the directory of the executable.
    ExecutableDirectory,
    /// Running a query.
    Query,
    /// Reading the tasks a query returned.
    Deserialize,
}

/// The error reported when a step fails: its kind and message.
pub open spec fn step_failure(step: DbStep) -> (DBErrorKind, Seq<char>) {
    match step {
        DbStep::Connect => (DBErrorKind::IOError, "Could not create/connect to file database"@),
        DbStep::ConnectMemory => (DBErrorKind::IOError, "Could not connect to memory database"@),
        DbStep::Namespace => (DBErrorKind::DatabaseError, "Failed to set namespace and database"@),
        DbStep::ExecutableDirectory => (
            DBErrorKind::IOError,
            "Could not get parent directory of tmgr executable"@,
        ),
        DbStep::Query => (DBErrorKind::DatabaseError, "Failed to get tasks"@),
        DbStep::Deserialize => (DBErrorKind::SerializationError, "Failed to deserialize tasks"@),
    }
}

/// The error reported when a step of reaching the store fails.
pub fn step_failed(step: DbStep) -> (e: DBError)
    ensures
        (e.spec_kind(), e.spec_message()) == step_failure(step),
{
    match step {
        DbStep::Connect => DBError::new(
            DBErrorKind::IOError,
            owned("Could not create/connect to file database"),
        ),
        DbStep::ConnectMemory => DBError::new(
            DBErrorKind::IOError,
            owned("Could not connect to memory database"),
        ),
        DbStep::Namespace => DBError::new(
            DBErrorKind::DatabaseError,
            owned("Failed to set namespace and database"),
        ),
        DbStep::ExecutableDirectory => DBError::new(
            DBErrorKind::IOError,
            owned("Could not get parent directory of tmgr executable"),
        ),
        DbStep::Query => DBError::new(DBErrorKind::DatabaseError, owned("Failed to get tasks")),
        DbStep::Deserialize => DBError::new(
            DBErrorKind::SerializationError,
            owned("Failed to deserialize tasks"),
        ),
    }
}

/// The error when the path of the executable could not be found; `cause` is
/// what the system reported.
pub fn executable_path_failed(cause: String) -> (e: DBError)
    ensures
        e.spec_kind() == DBErrorKind::UnableToDetermineTmgrExecutablePath,
        e.spec_message() == cause@,
{
    DBError::new(DBErrorKind::UnableToDetermineTmgrExecutablePath, cause)
}

// ------------------------------------------------------------------
// Laws of the selection
// ------------------------------------------------------------------

/// Without a matching task, nothing matches.
proof fn lemma_no_match(tasks: Seq<TaskView>, partial: Seq<char>)
    requires
        forall|j: int| 0 <= j < tasks.len() ==> !matches_partial_id(#[trigger] tasks[j], partial),
    ensures
        matching_tasks(tasks, partial).len() == 0,
    decreases tasks.len(),
{
    if tasks.len() > 0 {
        assert(tasks.last() == tasks[tasks.len() - 1]);
        lemma_no_match(tasks.drop_last(), partial);
    }
}

/// With exactly one matching task, it is the only match.
proof fn lemma_single_match(tasks: Seq<TaskView>, partial: Seq<char>, k: int)
    requires
        0 <= k < tasks.len(),
        matches_partial_id(tasks[k], partial),
        forall|j: int|
            0 <= j < tasks.len() && j != k ==> !matches_partial_id(#[trigger] tasks[j], partial),
    ensures
        matching_tasks(tasks, partial) == seq![tasks[k]],
    decreases tasks.len(),
{
    let rest = tasks.drop_last();
    assert(tasks.last() == tasks[tasks.len() - 1]);
    if k == tasks.len() - 1 {
        assert forall|j: int| 0 <= j < rest.len() implies !matches_partial_id(
            #[trigger] rest[j],
            partial,
        ) by {
            assert(rest[j] == tasks[j]);
        }
        lemma_no_match(rest, partial);
        assert(matching_tasks(rest, partial) =~= Seq::<TaskView>::empty());
        assert(matching_tasks(tasks, partial) =~= seq![tasks[k]]);
    } else {
        assert(rest[k] == tasks[k]);
        assert forall|j: int| 0 <= j < rest.len() && j != k implies !matches_partial_id(
            #[trigger] rest[j],
            partial,
        ) by {
            assert(rest[j] == tasks[j]);
        }
        lemma_single_match(rest, partial, k);
    }
}

/// A task's full id selects it, unless another task's id begins with the
/// same text: when a task is stored under `task:<x>` and no other task's id
/// begins with `task:<x>`, the partial id `x` selects that task.
pub proof fn law_full_id_selects_task(tasks: Seq<TaskView>, k: int, x: Seq<char>)
    requires
        0 <= k < tasks.len(),
        tasks[k].id == Some("task:"@ + x),
        forall|j: int|
            0 <= j < tasks.len() && j != k ==> !matches_partial_id(#[trigger] tasks[j], x),
    ensures
        selection(tasks, x) == Ok::<TaskView, (DBErrorKind, Seq<char>)>(tasks[k]),
{
    assert(("task:"@ + x).subrange(0, ("task:"@ + x).len() as int) =~= "task:"@ + x);
    lemma_single_match(tasks, x, k);
}

/// A partial id that several tasks' ids begin with selects no task: the
/// error asks for more characters of the id.
pub proof fn law_ambiguous_id_fails(tasks: Seq<TaskView>, x: Seq<char>, a: int, b: int)
    requires
        0 <= a < b < tasks.len(),
        matches_partial_id(tasks[a], x),
        matches_partial_id(tasks[b], x),
    ensures
        selection(tasks, x) == Err::<TaskView, (DBErrorKind, Seq<char>)>(
            (DBErrorKind::MultipleTasksFound, multiple_message()),
        ),
{
    lemma_two_matches(tasks, x, a, b);
}

/// A partial id that no task's id begins with selects no task: the error
/// says that no task starts with it.
pub proof fn law_unknown_id_fails(tasks: Seq<TaskView>, x: Seq<char>)
    requires
        forall|j: int| 0 <= j < tasks.len() ==> !matches_partial_id(#[trigger] tasks[j], x),
    ensures
        selection(tasks, x) == Err::<TaskView, (DBErrorKind, Seq<char>)>(
            (DBErrorKind::NoTasksFound, not_found_message(x)),
        ),
{
    lemma_no_match(tasks, x);
}

/// The stored id of `t` begins with the text `p`.
pub open spec fn id_begins_with(t: TaskView, p: Seq<char>) -> bool {
    t.id matches Some(raw) && p.len() <= raw.len() && raw.subrange(0, p.len() as int) == p
}

/// A partial id is a prefix of a full id: the partial id `x` selects a task
/// exactly when a single task's stored id begins with `task:` followed by `x`,
/// and then it selects that task; it fails with `NoTasksFound` exactly when
/// no task's stored id begins so, and with `MultipleTasksFound` exactly when
/// two or more do.  A task whose id merely holds `x` elsewhere never counts.
pub proof fn law_selection_by_id_prefix(tasks: Seq<TaskView>, x: Seq<char>)
    ensures
        selection(tasks, x) matches Ok(t) ==> exists|k: int|
            0 <= k < tasks.len() && tasks[k] == t && id_begins_with(t, "task:"@ + x) && forall|
                j: int,
            |
                0 <= j < tasks.len() && j != k ==> !id_begins_with(
                    #[trigger] tasks[j],
                    "task:"@ + x,
                ),
        forall|k: int|
            0 <= k < tasks.len() && id_begins_with(#[trigger] tasks[k], "task:"@ + x) && (forall|
                j: int,
            |
                0 <= j < tasks.len() && j != k ==> !id_begins_with(
                    #[trigger] tasks[j],
                    "task:"@ + x,
                )) ==> selection(tasks, x) == Ok::<TaskView, (DBErrorKind, Seq<char>)>(tasks[k]),
        (selection(tasks, x) matches Err((kind, _)) && kind == DBErrorKind::NoTasksFound) <==> (
        forall|j: int| 0 <= j < tasks.len() ==> !id_begins_with(#[trigger] tasks[j], "task:"@ + x)),
        (selection(tasks, x) matches Err((kind, _)) && kind == DBErrorKind::MultipleTasksFound)
            <==> (exists|a: int, b: int|
            0 <= a < b < tasks.len() && id_begins_with(#[trigger] tasks[a], "task:"@ + x)
                && id_begins_with(#[trigger] tasks[b], "task:"@ + x)),
{
    let p = "task:"@ + x;
    assert forall|t: TaskView| #[trigger] matches_partial_id(t, x) == id_begins_with(t, p) by {}
    if exists|k: int| 0 <= k < tasks.len() && id_begins_with(#[trigger] tasks[k], p) {
        let k = choose|k: int| 0 <= k < tasks.len() && id_begins_with(#[trigger] tasks[k], p);
        if exists|j: int| 0 <= j < tasks.len() && j != k && id_begins_with(#[trigger] tasks[j], p) {
            let j = choose|j: int|
                0 <= j < tasks.len() && j != k && id_begins_with(#[trigger] tasks[j], p);
            if j < k {
                lemma_two_matches(tasks, x, j, k);
            } else {
                lemma_two_matches(tasks, x, k, j);
            }
            assert(selection(tasks, x) is Err);
        } else {
            lemma_single_match(tasks, x, k);
            assert forall|k2: int|
                0 <= k2 < tasks.len() && id_begins_with(#[trigger] tasks[k2], p) implies k2 == k by {
            }
            assert(selection(tasks, x) == Ok::<TaskView, (DBErrorKind, Seq<char>)>(tasks[k]));
            assert(!exists|a: int, b: int|
                0 <= a < b < tasks.len() && id_begins_with(#[trigger] tasks[a], p)
                    && id_begins_with(#[trigger] tasks[b], p));
        }
    } else {
        lemma_no_match(tasks, x);
    }
}

/// Two matching tasks make two matches.
proof fn lemma_two_matches(tasks: Seq<TaskView>, x: Seq<char>, a: int, b: int)
    requires
        0 <= a < b < tasks.len(),
        matches_partial_id(tasks[a], x),
        matches_partial_id(tasks[b], x),
    ensures
        matching_tasks(tasks, x).len() >= 2,
    decreases tasks.len(),
{
    let rest = tasks.drop_last();
    assert(tasks.last() == tasks[tasks.len() - 1]);
    if b == tasks.len() - 1 {
        assert(rest[a] == tasks[a]);
        lemma_one_match(rest, x, a);
    } else {
        assert(rest[a] == tasks[a]);
        assert(rest[b] == tasks[b]);
        lemma_two_matches(rest, x, a, b);
    }
}

/// A matching task makes a match.
proof fn lemma_one_match(tasks: Seq<TaskView>, x: Seq<char>, a: int)
    requires
        0 <= a < tasks.len(),
        matches_partial_id(tasks[a], x),
    ensures
        matching_tasks(tasks, x).len() >= 1,
    decreases tasks.len(),
{
    let rest = tasks.drop_last();
    assert(tasks.last() == tasks[tasks.len() - 1]);
    if a < tasks.len() - 1 {
        assert(rest[a] == tasks[a]);
        lemma_one_match(rest, x, a);
    }
}

} // verus!
