//! The commands of the configuration-file front end and the error that any
//! of them reports.
use vstd::prelude::*;
use crate::commands::upgrade::{UpdateError, update_error_text};
use crate::text::concat2;
use db_cmds::DatabaseError;
use init_cmds::InitError;
use status_cmds::StatusError;
use todo_cmds::TodoError;

pub mod db_cmds;
pub mod init_cmds;
pub mod status_cmds;
pub mod todo_cmds;
pub mod update_cmds;

verus! {

/// An error of one of the commands.
#[derive(Debug)]
pub enum TmgrError {
    Database(DatabaseError),
    Init(InitError),
    Status(StatusError),
    Todo(TodoError),
    Update(UpdateError),
}

impl TmgrError {
    /// The text shown for the error: that of the command's own error.
    pub open spec fn spec_text(&self) -> Seq<char> {
        match self {
            TmgrError::Database(e) => e.spec_text(),
            TmgrError::Init(e) => e.spec_text(),
            TmgrError::Status(e) => e.spec_text(),
            TmgrError::Todo(e) => e.spec_text(),
            TmgrError::Update(e) => update_error_text(e.spec_kind(), e.spec_message()),
        }
    }

    /// The line printed when a command failed: `ERROR: ` and the error's text.
    pub fn error_line(&self) -> (s: String)
        ensures
            s@ == "ERROR: "@ + self.spec_text(),
    {
        let t = self.to_string();
        concat2("ERROR: ", t.as_str())
    }

    /// The text shown for the error.
    pub fn to_string(&self) -> (s: String)
        ensures
            s@ == self.spec_text(),
    {
        match self {
            TmgrError::Database(e) => e.to_string(),
            TmgrError::Init(e) => e.to_string(),
            TmgrError::Status(e) => e.to_string(),
            TmgrError::Todo(e) => e.to_string(),
            TmgrError::Update(e) => e.to_string(),
        }
    }
}

impl From<DatabaseError> for TmgrError {
    fn from(e: DatabaseError) -> (r: Self) {
        TmgrError::Database(e)
    }
}

impl vstd::std_specs::convert::FromSpecImpl<DatabaseError> for TmgrError {
    open spec fn obeys_from_spec() -> bool {
        true
    }

    open spec fn from_spec(v: DatabaseError) -> Self {
        TmgrError::Database(v)
    }
}

impl From<InitError> for TmgrError {
    fn from(e: InitError) -> (r: Self) {
        TmgrError::Init(e)
    }
}

impl vstd::std_specs::convert::FromSpecImpl<InitError> for TmgrError {
    open spec fn obeys_from_spec() -> bool {
        true
    }

    open spec fn from_spec(v: InitError) -> Self {
        TmgrError::Init(v)
    }
}

impl From<StatusError> for TmgrError {
    fn from(e: StatusError) -> (r: Self) {
        TmgrError::Status(e)
    }
}

impl vstd::std_specs::convert::FromSpecImpl<StatusError> for TmgrError {
    open spec fn obeys_from_spec() -> bool {
        true
    }

    open spec fn from_spec(v: StatusError) -> Self {
        TmgrError::Status(v)
    }
}

impl From<TodoError> for TmgrError {
    fn from(e: TodoError) -> (r: Self) {
        TmgrError::Todo(e)
    }
}

impl vstd::std_specs::convert::FromSpecImpl<TodoError> for TmgrError {
    open spec fn obeys_from_spec() -> bool {
        true
    }

    open spec fn from_spec(v: TodoError) -> Self {
        TmgrError::Todo(v)
    }
}

impl From<UpdateError> for TmgrError {
    fn from(e: UpdateError) -> (r: Self) {
        TmgrError::Update(e)
    }
}

impl vstd::std_specs::convert::FromSpecImpl<UpdateError> for TmgrError {
    open spec fn obeys_from_spec() -> bool {
        true
    }

    open spec fn from_spec(v: UpdateError) -> Self {
        TmgrError::Update(v)
    }
}

} // verus!
