//! The `status` command of the configuration-file front end: the state
//! manager's variables as a table, then the number of records in the current
//! database.
use vstd::prelude::*;
use crate::parser::commands::db_cmds::DatabaseError;
use crate::parser::state_mgr::State;
use crate::render::{cells, render_boxed_table, table_text};
use crate::text::{concat4, owned, texts};

verus! {

/// What went wrong in reporting the status.
#[derive(Debug, Clone, Copy, PartialEq, Eq, Structural)]
pub enum StatusErrorKind {
    DatabaseError,
}

/// The description shown for a kind of status error.
pub open spec fn status_error_kind_text(k: StatusErrorKind) -> Seq<char> {
    match k {
        StatusErrorKind::DatabaseError => "database error occurred"@,
    }
}

impl StatusErrorKind {
    /// The description shown for the kind.
    pub fn to_string(&self) -> (s: String)
        ensures
            s@ == status_error_kind_text(*self),
    {
        match self {
            StatusErrorKind::DatabaseError => owned("database error occurred"),
        }
    }
}

/// An error of reporting the status.
#[derive(Debug)]
pub struct StatusError {
    kind: StatusErrorKind,
    message: String,
}

/// The text shown for a status error.
pub open spec fn status_error_text(k: StatusErrorKind, m: Seq<char>) -> Seq<char> {
    m + " (status error: "@ + status_error_kind_text(k) + ")"@
}

impl StatusError {
    /// An error of the given kind with the given message.
    pub fn new(kind: StatusErrorKind, message: String) -> (e: Self)
        ensures
            e.spec_kind() == kind,
            e.spec_message() == message@,
    {
        StatusError { kind, message }
    }

    pub closed spec fn spec_kind(&self) -> StatusErrorKind {
        self.kind
    }

    pub closed spec fn spec_message(&self) -> Seq<char> {
        self.message@
    }

    /// The kind of the error.
    pub fn kind(&self) -> (k: StatusErrorKind)
        ensures
            k == self.spec_kind(),
    {
        self.kind
    }

    /// The text shown for the error.
    pub fn to_string(&self) -> (s: String)
        ensures
            s@ == status_error_text(self.spec_kind(), self.spec_message()),
    {
        let k = self.kind.to_string();
        concat4(self.message.as_str(), " (status error: ", k.as_str(), ")")
    }
}

impl StatusError {
    /// The text shown for the error, as a spec function.
    pub open spec fn spec_text(&self) -> Seq<char> {
        status_error_text(self.spec_kind(), self.spec_message())
    }

    /// The status error for a failed database call: its text becomes the message.
    pub fn from_database(e: &DatabaseError) -> (r: StatusError)
        ensures
            r.spec_kind() == StatusErrorKind::DatabaseError,
            r.spec_message() == e.spec_text(),
    {
        StatusError::new(StatusErrorKind::DatabaseError, e.to_string())
    }
}

/// A variable's value as the status table shows it: `None` when unset.
pub open spec fn shown_value(v: Option<Seq<char>>) -> Seq<char> {
    match v {
        Some(s) => s,
        None => "None"@,
    }
}

/// The rows of the state manager's table: each variable, its value and what
/// it means.
pub open spec fn state_rows_view(db_dir: Option<Seq<char>>, db_var: Option<Seq<char>>) -> Seq<
    Seq<Seq<char>>,
> {
    seq![
        seq!["db_dir"@, shown_value(db_dir), "Current Database Directory"@],
        seq!["db_var"@, shown_value(db_var), "Current Database Name"@],
    ]
}

/// A value, or `None` when unset.
fn shown(v: Option<String>) -> (s: String)
    ensures
        s@ == shown_value(v.deep_view()),
{
    match v {
        Some(s) => s,
        None => owned("None"),
    }
}

/// A row of three cells.
fn row3(a: String, b: String, c: String) -> (r: Vec<String>)
    ensures
        texts(r@) == seq![a@, b@, c@],
{
    let mut r: Vec<String> = Vec::new();
    r.push(a);
    r.push(b);
    r.push(c);
    assert(texts(r@) =~= seq![a@, b@, c@]);
    r
}

/// The rows of the state manager's table.
pub fn state_rows(state: &State) -> (rows: Vec<Vec<String>>)
    ensures
        rows@.len() == 2,
        forall|i: int|
            0 <= i < 2 ==> texts((#[trigger] rows@[i])@) == state_rows_view(
                state.spec_db_dir(),
                state.spec_db_var(),
            )[i],
{
    let mut rows: Vec<Vec<String>> = Vec::new();
    rows.push(
        row3(owned("db_dir"), shown(state.get_db_dir()), owned("Current Database Directory")),
    );
    rows.push(row3(owned("db_var"), shown(state.get_db_name()), owned("Current Database Name")));
    rows
}

/// The state manager's table: the rows of [`state_rows`] under the header
/// `Variable`, `Value`, `Description`, drawn with UTF-8 borders and rounded
/// corners for the width the terminal offered.
pub fn state_table(state: &State) -> (s: String)
    ensures
        exists|w: Option<u16>|
            s@ == table_text(
                seq!["Variable"@, "Value"@, "Description"@],
                state_rows_view(state.spec_db_dir(), state.spec_db_var()),
                true,
                w,
            ),
{
    let mut header: Vec<String> = Vec::new();
    header.push(owned("Variable"));
    header.push(owned("Value"));
    header.push(owned("Description"));
    let rows = state_rows(state);
    proof {
        assert(texts(header@) =~= seq!["Variable"@, "Value"@, "Description"@]);
        let a = cells(rows@);
        let b = state_rows_view(state.spec_db_dir(), state.spec_db_var());
        assert forall|j: int| 0 <= j < 2 implies a[j] == b[j] by {
            assert(a[j] == texts(rows@[j]@));
        }
        assert(a =~= b);
    }
    render_boxed_table(&header, &rows)
}

} // verus!
