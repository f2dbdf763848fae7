//! Errors of the database commands of the SQLite front end.
use vstd::prelude::*;
use crate::text::{concat4, owned};

verus! {

/// What went wrong in the database commands.
#[derive(Debug, Clone, Copy, PartialEq, Eq, Structural)]
pub enum DatabaseErrorKind {
    AlreadyExists,
    DoesNotExist,
    VariableNotSet,
    DirectoryNotSet,
    PathCreationFailed,
}

/// The description shown for a kind of db error.
pub open spec fn database_error_kind_text(k: DatabaseErrorKind) -> Seq<char> {
    match k {
        DatabaseErrorKind::AlreadyExists => "database already exists hint: run `tmgr database set <name>`"@,
        DatabaseErrorKind::DoesNotExist => "database does not exists hint: run `tmgr database add <name>`"@,
        DatabaseErrorKind::VariableNotSet => "database variable not set, hint: run `tmgr database set <name>`"@,
        DatabaseErrorKind::DirectoryNotSet => "database directory not set, hint: run `tmgr database set-directory <dir>`"@,
        DatabaseErrorKind::PathCreationFailed => "path to current database file could not be created, hint: run `tmgr database set-directory <dir>` or `tmgr database set <name>`"@,
    }
}

impl DatabaseErrorKind {
    /// The description shown for the kind.
    pub fn to_string(&self) -> (s: String)
        ensures
            s@ == database_error_kind_text(*self),
    {
        match self {
            DatabaseErrorKind::AlreadyExists => owned("database already exists hint: run `tmgr database set <name>`"),
            DatabaseErrorKind::DoesNotExist => owned("database does not exists hint: run `tmgr database add <name>`"),
            DatabaseErrorKind::VariableNotSet => owned("database variable not set, hint: run `tmgr database set <name>`"),
            DatabaseErrorKind::DirectoryNotSet => owned("database directory not set, hint: run `tmgr database set-directory <dir>`"),
            DatabaseErrorKind::PathCreationFailed => owned("path to current database file could not be created, hint: run `tmgr database set-directory <dir>` or `tmgr database set <name>`"),
        }
    }
}

/// An error of the database commands.
#[derive(Debug)]
pub struct DatabaseError {
    kind: DatabaseErrorKind,
    message: String,
}

/// The text shown for a db error.
pub open spec fn database_error_text(k: DatabaseErrorKind, m: Seq<char>) -> Seq<char> {
    m + " (db error: "@ + database_error_kind_text(k) + ")"@
}

impl DatabaseError {
    /// An error of the given kind with the given message.
    pub fn new(message: &str, kind: DatabaseErrorKind) -> (e: Self)
        ensures
            e.spec_kind() == kind,
            e.spec_message() == message@,
    {
        DatabaseError { kind, message: owned(message) }
    }

    pub closed spec fn spec_kind(&self) -> DatabaseErrorKind {
        self.kind
    }

    pub closed spec fn spec_message(&self) -> Seq<char> {
        self.message@
    }

    /// The kind of the error.
    pub fn kind(&self) -> (k: DatabaseErrorKind)
        ensures
            k == self.spec_kind(),
    {
        self.kind
    }

    /// The text shown for the error.
    pub fn to_string(&self) -> (s: String)
        ensures
            s@ == database_error_text(self.spec_kind(), self.spec_message()),
    {
        let k = self.kind.to_string();
        concat4(self.message.as_str(), " (db error: ", k.as_str(), ")")
    }
}

} // verus!
