//! Initializing the configuration-file front end: the database directory is
//! set to `./databases`, a database `init_db` is added there and made current.
//!
//! The three steps are the database commands of [`super::db_cmds`]; the first
//! error stops the initialization and is reported as an [`InitError`].
use vstd::prelude::*;
use crate::parser::commands::db_cmds::DatabaseError;
use crate::text::{concat4, owned};

verus! {

/// What went wrong in initializing.
#[derive(Debug, Clone, Copy, PartialEq, Eq, Structural)]
pub enum InitErrorKind {
    DatabaseError,
}

/// The description shown for a kind of init error.
pub open spec fn init_error_kind_text(k: InitErrorKind) -> Seq<char> {
    match k {
        InitErrorKind::DatabaseError => "database error occurred"@,
    }
}

impl InitErrorKind {
    /// The description shown for the kind.
    pub fn to_string(&self) -> (s: String)
        ensures
            s@ == init_error_kind_text(*self),
    {
        match self {
            InitErrorKind::DatabaseError => owned("database error occurred"),
        }
    }
}

/// An error of initializing.
#[derive(Debug)]
pub struct InitError {
    kind: InitErrorKind,
    message: String,
}

/// The text shown for a init error.
pub open spec fn init_error_text(k: InitErrorKind, m: Seq<char>) -> Seq<char> {
    m + " (init error: "@ + init_error_kind_text(k) + ")"@
}

impl InitError {
    /// An error of the given kind with the given message.
    pub fn new(kind: InitErrorKind, message: String) -> (e: Self)
        ensures
            e.spec_kind() == kind,
            e.spec_message() == message@,
    {
        InitError { kind, message }
    }

    pub closed spec fn spec_kind(&self) -> InitErrorKind {
        self.kind
    }

    pub closed spec fn spec_message(&self) -> Seq<char> {
        self.message@
    }

    /// The kind of the error.
    pub fn kind(&self) -> (k: InitErrorKind)
        ensures
            k == self.spec_kind(),
    {
        self.kind
    }

    /// The text shown for the error.
    pub fn to_string(&self) -> (s: String)
        ensures
            s@ == init_error_text(self.spec_kind(), self.spec_message()),
    {
        let k = self.kind.to_string();
        concat4(self.message.as_str(), " (init error: ", k.as_str(), ")")
    }
}

impl InitError {
    /// The text shown for the error, as a spec function.
    pub open spec fn spec_text(&self) -> Seq<char> {
        init_error_text(self.spec_kind(), self.spec_message())
    }

    /// The initialization error for a failed database command: its text
    /// becomes the message.
    pub fn from_database(e: &DatabaseError) -> (r: InitError)
        ensures
            r.spec_kind() == InitErrorKind::DatabaseError,
            r.spec_message() == e.spec_text(),
    {
        InitError::new(InitErrorKind::DatabaseError, e.to_string())
    }
}

/// The directory handed to `db_set_directory` by the initialization.
pub fn init_directory() -> (d: String)
    ensures
        d@ == "."@,
{
    owned(".")
}

/// The name of the database that the initialization adds and makes current.
pub fn init_database_name() -> (n: String)
    ensures
        n@ == "init_db"@,
{
    owned("init_db")
}

/// The line printed once the initialization is done.
pub fn init_complete_message() -> (m: String)
    ensures
        m@ == "Initializer complete!"@,
{
    owned("Initializer complete!")
}

} // verus!
