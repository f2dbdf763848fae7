//! The task store of the configuration-file front end: which database of
//! which directory it opens, and how a missing task is reported.  Opening the
//! store and running its requests happen outside the library.
use vstd::prelude::*;
use crate::parser::commands::db_cmds::{DatabaseError, DatabaseErrorKind};
use crate::parser::state_mgr::State;
use crate::text::{concat3, owned, str_eq};

verus! {

/// Where the store is: the address of the database directory's file and the
/// name of the current database, or the error when either is not set.  A
/// current database named `none` counts as not set.
pub open spec fn location_of(db_dir: Option<Seq<char>>, db_var: Option<Seq<char>>) -> Result<
    (Seq<char>, Seq<char>),
    (DatabaseErrorKind, Seq<char>),
> {
    let name = match db_var {
        Some(v) => v,
        None => "none"@,
    };
    if name == "none"@ {
        Err((DatabaseErrorKind::VariableNotSet, "No database selected"@))
    } else {
        match db_dir {
            None => Err((DatabaseErrorKind::DirectoryNotSet, "No database directory"@)),
            Some(d) => Ok(("file://"@ + d + ".db"@, name)),
        }
    }
}

/// Where the store is: the address to open and the database to use in it.
pub fn store_location(state: &State) -> (r: Result<(String, String), DatabaseError>)
    ensures
        match (r, location_of(state.spec_db_dir(), state.spec_db_var())) {
            (Ok((a, n)), Ok((sa, sn))) => a@ == sa && n@ == sn,
            (Err(e), Err((k, m))) => e.spec_kind() == k && e.spec_message() == m,
            _ => false,
        },
{
    let name = match state.get_db_name() {
        Some(v) => v,
        None => owned("none"),
    };
    if str_eq(name.as_str(), "none") {
        return Err(
            DatabaseError::new(DatabaseErrorKind::VariableNotSet, owned("No database selected")),
        );
    }
    match state.get_db_dir() {
        None => Err(
            DatabaseError::new(DatabaseErrorKind::DirectoryNotSet, owned("No database directory")),
        ),
        Some(d) => Ok((concat3("file://", d.as_str(), ".db"), name)),
    }
}

/// The outcome of a request on task `id`: what the store returned, or
/// `EntryNotFound` when it returned nothing.
pub fn entry_found<T>(id: &str, found: Option<T>) -> (r: Result<T, DatabaseError>)
    ensures
        match found {
            Some(v) => r matches Ok(w) && w == v,
            None => r matches Err(e) && e.spec_kind() == DatabaseErrorKind::EntryNotFound
                && e.spec_message() == "Task with id "@ + id@ + " not found"@,
        },
{
    match found {
        Some(v) => Ok(v),
        None => Err(
            DatabaseError::new(
                DatabaseErrorKind::EntryNotFound,
                concat3("Task with id ", id, " not found"),
            ),
        ),
    }
}

} // verus!
