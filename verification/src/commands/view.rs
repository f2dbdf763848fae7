//! The `view` command: every field of one task.
use vstd::prelude::*;
use crate::db::{db_error_text, select_task_by_partial_id, selection, tasks_view};
use crate::model::{
    Task, TaskView, TmgrError, TmgrErrorKind, field_text, task_error_text, task_fields, task_id,
};
use crate::render::{cells, render_table, table_text};
use crate::text::{concat4, owned, texts};

verus! {

/// What went wrong in the `view` command.
#[derive(Debug, Clone, Copy, PartialEq, Eq, Structural)]
pub enum ViewErrorKind {
    BadTaskId,
    DatabaseError,
}

/// The description shown for a kind of view error.
pub open spec fn view_error_kind_text(k: ViewErrorKind) -> Seq<char> {
    match k {
        ViewErrorKind::BadTaskId => "Bad task id"@,
        ViewErrorKind::DatabaseError => "Database error"@,
    }
}

impl ViewErrorKind {
    /// The description shown for the kind.
    pub fn to_string(&self) -> (s: String)
        ensures
            s@ == view_error_kind_text(*self),
    {
        match self {
            ViewErrorKind::BadTaskId => owned("Bad task id"),
            ViewErrorKind::DatabaseError => owned("Database error"),
        }
    }
}

/// An error of the `view` command.
#[derive(Debug)]
pub struct ViewError {
    kind: ViewErrorKind,
    message: String,
}

/// The text shown for a view error.
pub open spec fn view_error_text(k: ViewErrorKind, m: Seq<char>) -> Seq<char> {
    m + " (view error: "@ + view_error_kind_text(k) + ")"@
}

impl ViewError {
    /// An error of the given kind with the given message.
    pub fn new(kind: ViewErrorKind, message: String) -> (e: Self)
        ensures
            e.spec_kind() == kind,
            e.spec_message() == message@,
    {
        ViewError { kind, message }
    }

    pub closed spec fn spec_kind(&self) -> ViewErrorKind {
        self.kind
    }

    pub closed spec fn spec_message(&self) -> Seq<char> {
        self.message@
    }

    /// The kind of the error.
    pub fn kind(&self) -> (k: ViewErrorKind)
        ensures
            k == self.spec_kind(),
    {
        self.kind
    }

    /// The text shown for the error.
    pub fn to_string(&self) -> (s: String)
        ensures
            s@ == view_error_text(self.spec_kind(), self.spec_message()),
    {
        let k = self.kind.to_string();
        concat4(self.message.as_str(), " (view error: ", k.as_str(), ")")
    }

    /// The error as the command line reports it.
    pub fn to_tmgr_error(&self) -> (e: TmgrError)
        ensures
            e.spec_kind() == TmgrErrorKind::ViewCommand,
            e.spec_message() == view_error_text(self.spec_kind(), self.spec_message()),
    {
        TmgrError::new(TmgrErrorKind::ViewCommand, self.to_string())
    }
}

/// What `view` finds for a partial id: the selected task, or the error it reports.
pub open spec fn view_outcome(tasks: Seq<TaskView>, id: Seq<char>) -> Result<
    TaskView,
    (ViewErrorKind, Seq<char>),
> {
    match selection(tasks, id) {
        Err((k, m)) => Err((ViewErrorKind::DatabaseError, db_error_text(k, m))),
        Ok(t) => match task_id(t) {
            Err((k, m)) => Err((ViewErrorKind::BadTaskId, task_error_text(k, m))),
            Ok(_) => Ok(t),
        },
    }
}

/// The header of the table that `view` shows.
pub fn view_headers() -> (h: Vec<String>)
    ensures
        h@.len() == 2,
        h@[0]@ == "Key"@,
        h@[1]@ == "Value"@,
{
    let mut h: Vec<String> = Vec::new();
    h.push(owned("Key"));
    h.push(owned("Value"));
    h
}

/// The rows that `view` shows for a task: each field with its value.
pub fn view_rows(task: &Task) -> (rows: Vec<Vec<String>>)
    ensures
        rows@.len() == task_fields().len(),
        forall|i: int|
            0 <= i < rows@.len() ==> (#[trigger] rows@[i])@.len() == 2 && rows@[i]@[0]@
                == task_fields()[i] && rows@[i]@[1]@ == field_text(task@, task_fields()[i]),
{
    let pairs = task.to_table_rows();
    let mut rows: Vec<Vec<String>> = Vec::new();
    let mut i: usize = 0;
    while i < pairs.len()
        invariant
            i <= pairs@.len(),
            pairs@.len() == task_fields().len(),
            rows@.len() == i,
            forall|k: int|
                0 <= k < pairs@.len() ==> (#[trigger] pairs@[k]).0@ == task_fields()[k]
                    && pairs@[k].1@ == field_text(task@, task_fields()[k]),
            forall|k: int|
                0 <= k < i ==> (#[trigger] rows@[k])@.len() == 2 && rows@[k]@[0]@ == task_fields()[k]
                    && rows@[k]@[1]@ == field_text(task@, task_fields()[k]),
        decreases pairs@.len() - i,
    {
        let mut row: Vec<String> = Vec::new();
        row.push(pairs[i].0.clone());
        row.push(pairs[i].1.clone());
        rows.push(row);
        i = i + 1;
    }
    rows
}

/// The cells of the table that `view` shows for a task: one row per field,
/// holding the field's name and its value.
pub open spec fn view_cells(t: TaskView) -> Seq<Seq<Seq<char>>> {
    task_fields().map_values(|f: Seq<char>| seq![f, field_text(t, f)])
}

/// Shows every field of the task whose id begins with `id`.
///
/// The text is the rendered table of [`view_rows`]; the command fails when
/// `id` selects no single task, or when the selected task has no usable id.
pub fn run(tasks: &Vec<Task>, id: &str) -> (r: Result<String, ViewError>)
    ensures
        match (r, view_outcome(tasks_view(tasks@), id@)) {
            (Ok(s), Ok(t)) => exists|w: Option<u16>|
                s@ == table_text(seq!["Key"@, "Value"@], view_cells(t), false, w),
            (Err(e), Err((k, m))) => e.spec_kind() == k && e.spec_message() == m,
            _ => false,
        },
{
    let t = match select_task_by_partial_id(tasks, id) {
        Ok(t) => t,
        Err(e) => {
            return Err(ViewError::new(ViewErrorKind::DatabaseError, e.to_string()));
        },
    };
    match t.id() {
        Ok(_) => {},
        Err(e) => {
            return Err(ViewError::new(ViewErrorKind::BadTaskId, e.to_string()));
        },
    }
    let headers = view_headers();
    let rows = view_rows(&t);
    proof {
        assert(texts(headers@) =~= seq!["Key"@, "Value"@]);
        let a = cells(rows@);
        let b = view_cells(t@);
        assert(a.len() == b.len());
        assert forall|j: int| 0 <= j < a.len() implies a[j] == b[j] by {
            assert(a[j] == texts(rows@[j]@));
            assert(texts(rows@[j]@) =~= seq![task_fields()[j], field_text(t@, task_fields()[j])]);
        }
        assert(a =~= b);
    }
    Ok(render_table(&headers, &rows))
}

} // verus!
