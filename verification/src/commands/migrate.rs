//! The `migrate` command: brings a database of an older major version up to date.
use vstd::prelude::*;
use crate::cli::model::{TmgrVersion, version_text};
use crate::model::{CommandResult, TmgrError, TmgrErrorKind};
use crate::package::package_version;
use crate::text::{
    chars_of, concat4, concat5, find_char_exec, find_char_from, lemma_find_char_from, owned,
    slice_chars, string_of,
};

verus! {

/// What went wrong in the `migrate` command.
#[derive(Debug, Clone, Copy, PartialEq, Eq, Structural)]
pub enum MigrateErrorKind {
    DatabaseError,
    UnableToGetTmgrVersion,
}

/// The description shown for a kind of migrate error.
pub open spec fn migrate_error_kind_text(k: MigrateErrorKind) -> Seq<char> {
    match k {
        MigrateErrorKind::DatabaseError => "Database error"@,
        MigrateErrorKind::UnableToGetTmgrVersion => "Unable to get tmgr version"@,
    }
}

impl MigrateErrorKind {
    /// The description shown for the kind.
    pub fn to_string(&self) -> (s: String)
        ensures
            s@ == migrate_error_kind_text(*self),
    {
        match self {
            MigrateErrorKind::DatabaseError => owned("Database error"),
            MigrateErrorKind::UnableToGetTmgrVersion => owned("Unable to get tmgr version"),
        }
    }
}

/// An error of the `migrate` command.
#[derive(Debug)]
pub struct MigrateError {
    kind: MigrateErrorKind,
    message: String,
}

/// The text shown for a migrate error.
pub open spec fn migrate_error_text(k: MigrateErrorKind, m: Seq<char>) -> Seq<char> {
    m + " (migrate error: "@ + migrate_error_kind_text(k) + ")"@
}

impl MigrateError {
    /// An error of the given kind with the given message.
    pub fn new(kind: MigrateErrorKind, message: String) -> (e: Self)
        ensures
            e.spec_kind() == kind,
            e.spec_message() == message@,
    {
        MigrateError { kind, message }
    }

    pub closed spec fn spec_kind(&self) -> MigrateErrorKind {
        self.kind
    }

    pub closed spec fn spec_message(&self) -> Seq<char> {
        self.message@
    }

    /// The kind of the error.
    pub fn kind(&self) -> (k: MigrateErrorKind)
        ensures
            k == self.spec_kind(),
    {
        self.kind
    }

    /// The text shown for the error.
    pub fn to_string(&self) -> (s: String)
        ensures
            s@ == migrate_error_text(self.spec_kind(), self.spec_message()),
    {
        let k = self.kind.to_string();
        concat4(self.message.as_str(), " (migrate error: ", k.as_str(), ")")
    }

    /// The error as the command line reports it.
    pub fn to_tmgr_error(&self) -> (e: TmgrError)
        ensures
            e.spec_kind() == TmgrErrorKind::MigrateCommand,
            e.spec_message() == migrate_error_text(self.spec_kind(), self.spec_message()),
    {
        TmgrError::new(TmgrErrorKind::MigrateCommand, self.to_string())
    }
}

/// The statements that bring a version 2 database to version 3, each with the
/// message reported when it fails: lower-case priorities become the names of
/// [`crate::model::TaskPriority`].
pub open spec fn v2_steps() -> Seq<(Seq<char>, Seq<char>)> {
    seq![
        ("UPDATE task SET priority = 'Low' WHERE priority = 'low'"@, "Failed to convert low priority v2 tasks to v3"@),
        ("UPDATE task SET priority = 'Medium' WHERE priority = 'medium'"@, "Failed to convert medium priority v2 tasks to v3"@),
        ("UPDATE task SET priority = 'High' WHERE priority = 'high'"@, "Failed to convert high priority v2 tasks to v3"@),
    ]
}

/// The part of a version before its first dot.
pub open spec fn major_version(v: Seq<char>) -> Seq<char> {
    match find_char_from(v, '.', 0) {
        Some(i) => v.subrange(0, i),
        None => v,
    }
}

/// The message after a migration.
pub open spec fn migrated_message(from: TmgrVersion) -> Seq<char> {
    "Successfully migrated tasks from "@ + version_text(from) + " to v"@ + major_version("2.3.0"@)
        + " schema"@
}

/// The views of a list of steps.
pub open spec fn steps_view(s: Seq<(String, String)>) -> Seq<(Seq<char>, Seq<char>)> {
    s.map_values(|p: (String, String)| (p.0@, p.1@))
}

/// The statements to run, in order, to migrate from `from`, each with the
/// message reported when it fails.  Version 3 is current: nothing to run.
pub fn migration_steps(from: TmgrVersion) -> (r: Result<Vec<(String, String)>, MigrateError>)
    ensures
        from == TmgrVersion::V2 ==> (r matches Ok(s) && steps_view(s@) == v2_steps()),
        from == TmgrVersion::V3 ==> (r matches Ok(s) && s@.len() == 0),
        from == TmgrVersion::Invalid ==> (r matches Err(e) && e.spec_kind()
            == MigrateErrorKind::UnableToGetTmgrVersion && e.spec_message()
            == "Unable to determine tmgr current version"@),
{
    match from {
        TmgrVersion::V2 => {
            let mut s: Vec<(String, String)> = Vec::new();
            s.push(
                (
                    owned("UPDATE task SET priority = 'Low' WHERE priority = 'low'"),
                    owned("Failed to convert low priority v2 tasks to v3"),
                ),
            );
            s.push(
                (
                    owned("UPDATE task SET priority = 'Medium' WHERE priority = 'medium'"),
                    owned("Failed to convert medium priority v2 tasks to v3"),
                ),
            );
            s.push(
                (
                    owned("UPDATE task SET priority = 'High' WHERE priority = 'high'"),
                    owned("Failed to convert high priority v2 tasks to v3"),
                ),
            );
            assert(steps_view(s@) =~= v2_steps());
            Ok(s)
        },
        TmgrVersion::V3 => Ok(Vec::new()),
        TmgrVersion::Invalid => Err(
            MigrateError::new(
                MigrateErrorKind::UnableToGetTmgrVersion,
                owned("Unable to determine tmgr current version"),
            ),
        ),
    }
}

/// The part of `v` before its first dot.
pub fn major_of(v: &str) -> (m: String)
    ensures
        m@ == major_version(v@),
{
    let cs = chars_of(v);
    match find_char_exec(&cs, '.', 0) {
        Some(i) => {
            proof {
                lemma_find_char_from(cs@, '.', 0);
            }
            string_of(&slice_chars(&cs, 0, i))
        },
        None => owned(v),
    }
}

/// The outcome of a migration whose statements all ran.
pub fn report(from: TmgrVersion) -> (r: CommandResult<bool>)
    ensures
        r.spec_message() == migrated_message(from),
        r.spec_result() == true,
{
    let major = major_of(package_version());
    let from_text = from.to_string();
    let message = concat5(
        "Successfully migrated tasks from ",
        from_text.as_str(),
        " to v",
        major.as_str(),
        " schema",
    );
    CommandResult::new(message, true)
}

} // verus!
