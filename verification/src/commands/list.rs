//! The `list` command: the tasks of the store, in progress only unless all are asked for.
use vstd::prelude::*;
use crate::db::tasks_view;
use crate::model::{
    CommandResult, Task, TaskView, TmgrError, TmgrErrorKind, field_text, is_task_field, task_fields,
};
use crate::render::{cells, render_table, table_text};
use crate::text::{concat4, owned, texts};

verus! {

/// What went wrong while listing.
#[derive(Debug, Clone, Copy, PartialEq, Eq, Structural)]
pub enum ListErrorKind {
    DatabaseError,
    SerializationError,
}

/// The description shown for a kind of list error.
pub open spec fn list_error_kind_text(k: ListErrorKind) -> Seq<char> {
    match k {
        ListErrorKind::DatabaseError => "Database error"@,
        ListErrorKind::SerializationError => "Serialization error"@,
    }
}

impl ListErrorKind {
    /// The description shown for the kind.
    pub fn to_string(&self) -> (s: String)
        ensures
            s@ == list_error_kind_text(*self),
    {
        match self {
            ListErrorKind::DatabaseError => owned("Database error"),
            ListErrorKind::SerializationError => owned("Serialization error"),
        }
    }
}

/// An error of the `list` command.
#[derive(Debug)]
pub struct ListError {
    kind: ListErrorKind,
    message: String,
}

/// The text shown for a list error.
pub open spec fn list_error_text(k: ListErrorKind, m: Seq<char>) -> Seq<char> {
    m + " (list error: "@ + list_error_kind_text(k) + ")"@
}

impl ListError {
    /// An error of the given kind with the given message.
    pub fn new(kind: ListErrorKind, message: String) -> (e: Self)
        ensures
            e.spec_kind() == kind,
            e.spec_message() == message@,
    {
        ListError { kind, message }
    }

    pub closed spec fn spec_kind(&self) -> ListErrorKind {
        self.kind
    }

    pub closed spec fn spec_message(&self) -> Seq<char> {
        self.message@
    }

    /// The kind of the error.
    pub fn kind(&self) -> (k: ListErrorKind)
        ensures
            k == self.spec_kind(),
    {
        self.kind
    }

    /// The text shown for the error.
    pub fn to_string(&self) -> (s: String)
        ensures
            s@ == list_error_text(self.spec_kind(), self.spec_message()),
    {
        let k = self.kind.to_string();
        concat4(self.message.as_str(), " (list error: ", k.as_str(), ")")
    }

    /// The error as the command line reports it.
    pub fn to_tmgr_error(&self) -> (e: TmgrError)
        ensures
            e.spec_kind() == TmgrErrorKind::ListCommand,
            e.spec_message() == list_error_text(self.spec_kind(), self.spec_message()),
    {
        TmgrError::new(TmgrErrorKind::ListCommand, self.to_string())
    }
}

/// The tasks that are still in progress (not completed), in order.
pub open spec fn in_progress(tasks: Seq<TaskView>) -> Seq<TaskView>
    decreases tasks.len(),
{
    if tasks.len() == 0 {
        Seq::empty()
    } else if tasks.last().completed_at is None {
        in_progress(tasks.drop_last()).push(tasks.last())
    } else {
        in_progress(tasks.drop_last())
    }
}

/// The tasks that the command lists.
pub open spec fn listed(tasks: Seq<TaskView>, all: bool) -> Seq<TaskView> {
    if all {
        tasks
    } else {
        in_progress(tasks)
    }
}

/// The columns of the list.
pub open spec fn list_fields() -> Seq<Seq<char>> {
    task_fields().subrange(0, 6)
}

/// The columns of the list: every field but the note path.
pub fn list_headers() -> (h: Vec<String>)
    ensures
        h@.map_values(|s: String| s@) == list_fields(),
{
    let mut h: Vec<String> = Vec::new();
    h.push(owned("id"));
    h.push(owned("name"));
    h.push(owned("priority"));
    h.push(owned("description"));
    h.push(owned("created_at"));
    h.push(owned("completed_at"));
    assert(h@.map_values(|s: String| s@) =~= list_fields());
    h
}

/// The tasks that are still in progress.
pub fn in_progress_tasks(tasks: &Vec<Task>) -> (r: Vec<Task>)
    ensures
        tasks_view(r@) == in_progress(tasks_view(tasks@)),
{
    let ghost tv = tasks_view(tasks@);
    let mut r: Vec<Task> = Vec::new();
    let mut i: usize = 0;
    while i < tasks.len()
        invariant
            i <= tasks.len(),
            tv == tasks_view(tasks@),
            tasks_view(r@) == in_progress(tv.subrange(0, i as int)),
        decreases tasks.len() - i,
    {
        let ghost after = tv.subrange(0, i + 1);
        assert(after.drop_last() =~= tv.subrange(0, i as int));
        assert(after.last() == tasks@[i as int]@);
        if tasks[i].completed_at().is_none() {
            let t = tasks[i].clone();
            r.push(t);
            assert(tasks_view(r@) =~= in_progress(tv.subrange(0, i as int)).push(tasks@[i as int]@));
        }
        i = i + 1;
    }
    assert(tv.subrange(0, tasks.len() as int) =~= tv);
    r
}

/// One row of the list for each task: the values of the list's columns.
pub fn list_rows(tasks: &Vec<Task>) -> (rows: Vec<Vec<String>>)
    ensures
        rows@.len() == tasks@.len(),
        forall|i: int|
            0 <= i < rows@.len() ==> (#[trigger] rows@[i])@.len() == list_fields().len() && (forall|
                j: int,
            |
                0 <= j < list_fields().len() ==> (#[trigger] rows@[i]@[j])@ == field_text(
                    tasks@[i]@,
                    list_fields()[j],
                )),
{
    let headers = list_headers();
    proof {
        assert(headers@.len() == list_fields().len()) by {
            assert(headers@.map_values(|s: String| s@).len() == headers@.len());
        }
        assert forall|k: int| 0 <= k < headers@.len() implies is_task_field(#[trigger] headers@[k]@) by {
            assert(headers@.map_values(|s: String| s@)[k] == headers@[k]@);
            assert(list_fields()[k] == task_fields()[k]);
            assert(0 <= k < task_fields().len());
            assert(task_fields()[k] == headers@[k]@);
        }
    }
    let mut rows: Vec<Vec<String>> = Vec::new();
    let mut i: usize = 0;
    while i < tasks.len()
        invariant
            i <= tasks.len(),
            rows@.len() == i,
            headers@.map_values(|s: String| s@) == list_fields(),
            forall|k: int| 0 <= k < headers@.len() ==> is_task_field(#[trigger] headers@[k]@),
            forall|a: int|
                0 <= a < i ==> (#[trigger] rows@[a])@.len() == list_fields().len() && (forall|
                    j: int,
                |
                    0 <= j < list_fields().len() ==> (#[trigger] rows@[a]@[j])@ == field_text(
                        tasks@[a]@,
                        list_fields()[j],
                    )),
        decreases tasks.len() - i,
    {
        let pairs = tasks[i].to_table_rows_filtered(headers.as_slice());
        let mut row: Vec<String> = Vec::new();
        let mut j: usize = 0;
        while j < pairs.len()
            invariant
                i < tasks@.len(),
                j <= pairs@.len(),
                pairs@.len() == headers@.len(),
                row@.len() == j,
                headers@.map_values(|s: String| s@) == list_fields(),
                forall|k: int|
                    0 <= k < pairs@.len() ==> (#[trigger] pairs@[k]).1@ == field_text(
                        tasks@[i as int]@,
                        headers@[k]@,
                    ),
                forall|k: int|
                    0 <= k < j ==> (#[trigger] row@[k])@ == field_text(
                        tasks@[i as int]@,
                        list_fields()[k],
                    ),
            decreases pairs@.len() - j,
        {
            let v = pairs[j].1.clone();
            proof {
                assert(headers@.map_values(|s: String| s@)[j as int] == headers@[j as int]@);
            }
            row.push(v);
            j = j + 1;
        }
        rows.push(row);
        i = i + 1;
    }
    rows
}

/// The cells of the list's table for the given tasks: one row per task,
/// holding the values of the list's columns.
pub open spec fn list_cells(ts: Seq<TaskView>) -> Seq<Seq<Seq<char>>> {
    ts.map_values(|t: TaskView| list_fields().map_values(|f: Seq<char>| field_text(t, f)))
}

/// The list of tasks: the in-progress tasks, or all of them when `all` is set.
///
/// The message is the table of the listed tasks, under the list's columns,
/// for the width the terminal offered; the result holds the listed tasks.
pub fn run(tasks: Vec<Task>, all: bool) -> (r: CommandResult<Vec<Task>>)
    ensures
        tasks_view(r.spec_result()@) == listed(tasks_view(tasks@), all),
        exists|w: Option<u16>|
            r.spec_message() == table_text(
                list_fields(),
                list_cells(listed(tasks_view(tasks@), all)),
                false,
                w,
            ),
{
    let chosen = if all {
        tasks
    } else {
        in_progress_tasks(&tasks)
    };
    let headers = list_headers();
    let rows = list_rows(&chosen);
    proof {
        assert(texts(headers@) =~= list_fields()) by {
            assert(texts(headers@) =~= headers@.map_values(|s: String| s@));
        }
        let a = cells(rows@);
        let b = list_cells(tasks_view(chosen@));
        assert(a.len() == b.len());
        assert forall|i: int| 0 <= i < a.len() implies a[i] == b[i] by {
            assert(a[i] == texts(rows@[i]@));
            assert(tasks_view(chosen@)[i] == chosen@[i]@);
            assert(texts(rows@[i]@) =~= list_fields().map_values(
                |f: Seq<char>| field_text(chosen@[i]@, f),
            ));
        }
        assert(a =~= b);
    }
    let table = render_table(&headers, &rows);
    CommandResult::new(table, chosen)
}

/// The query for the tasks in progress.
pub fn in_progress_query() -> (q: String)
    ensures
        q@ == "SELECT * FROM task WHERE completed_at IS None"@,
{
    owned("SELECT * FROM task WHERE completed_at IS None")
}

/// The error when the store could not hand out the tasks to list.
pub fn fetch_failed(all: bool) -> (e: ListError)
    ensures
        e.spec_kind() == ListErrorKind::DatabaseError,
        e.spec_message() == if all {
            "Failed to get all tasks"@
        } else {
            "Failed to get in progress tasks"@
        },
{
    if all {
        ListError::new(ListErrorKind::DatabaseError, owned("Failed to get all tasks"))
    } else {
        ListError::new(ListErrorKind::DatabaseError, owned("Failed to get in progress tasks"))
    }
}

/// The error when the tasks that the store handed out could not be read.
pub fn decode_failed() -> (e: ListError)
    ensures
        e.spec_kind() == ListErrorKind::SerializationError,
        e.spec_message() == "Failed to serialize tasks"@,
{
    ListError::new(ListErrorKind::SerializationError, owned("Failed to serialize tasks"))
}

/// By default `list` shows exactly the tasks that are in progress: every task
/// it shows is one of the tasks and is not completed, and every task that is
/// not completed is shown.  With `all`, every task is shown.
pub proof fn law_list_shows_in_progress(tasks: Seq<TaskView>)
    ensures
        listed(tasks, true) == tasks,
        forall|i: int|
            0 <= i < listed(tasks, false).len() ==> (#[trigger] listed(tasks, false)[i]).completed_at is None
                && tasks.contains(listed(tasks, false)[i]),
        forall|j: int|
            0 <= j < tasks.len() && (#[trigger] tasks[j]).completed_at is None ==> listed(
                tasks,
                false,
            ).contains(tasks[j]),
    decreases tasks.len(),
{
    if tasks.len() > 0 {
        let r = tasks.drop_last();
        law_list_shows_in_progress(r);
        let prev = in_progress(r);
        let ip = in_progress(tasks);
        let last = tasks.last();
        assert(last == tasks[tasks.len() - 1]);
        assert forall|i: int| 0 <= i < ip.len() implies (#[trigger] ip[i]).completed_at is None
            && tasks.contains(ip[i]) by {
            if i < prev.len() {
                assert(ip[i] == prev[i]);
                assert(listed(r, false)[i] == prev[i]);
                let w = choose|w: int| 0 <= w < r.len() && r[w] == prev[i];
                assert(tasks[w] == r[w]);
            } else {
                assert(ip[i] == last);
            }
        }
        assert forall|j: int| 0 <= j < tasks.len() && (#[trigger] tasks[j]).completed_at is None implies ip.contains(
            tasks[j],
        ) by {
            if j < tasks.len() - 1 {
                assert(r[j] == tasks[j]);
                assert(listed(r, false).contains(r[j]));
                let w = choose|w: int| 0 <= w < prev.len() && prev[w] == r[j];
                assert(ip[w] == prev[w]);
            } else {
                assert(ip[ip.len() - 1] == last);
            }
        }
    }
}

} // verus!
