//! The earliest database layer: one SQLite file per database under
//! `./databases`.  Opening, removing and listing the files happen outside the
//! library; here their paths and names are formed.  The task operations of
//! this layer were never written and do nothing.
use vstd::prelude::*;
use crate::text::{chars_of, concat3, slice_chars, string_of};

verus! {

/// `./databases/<name>.db`, the file of database `name`.
pub open spec fn db_file_of(name: Seq<char>) -> Seq<char> {
    "./databases/"@ + name + ".db"@
}

/// The file of database `name`.
pub fn form_db_path(name: &str) -> (p: String)
    ensures
        p@ == db_file_of(name@),
{
    concat3("./databases/", name, ".db")
}

/// A database file's name without its `.db` suffix.
pub fn db_name_of(file_name: &str) -> (n: String)
    requires
        file_name@.len() >= 3,
        file_name@.subrange(file_name@.len() - 3, file_name@.len() as int) == ".db"@,
    ensures
        n@ == file_name@.subrange(0, file_name@.len() - 3),
{
    let cs = chars_of(file_name);
    string_of(&slice_chars(&cs, 0, cs.len() - 3))
}

/// Makes database `name` the current one.  Only the file that would be
/// checked is formed; nothing is changed yet.
pub fn set_active_db(name: &str) {
    let _file = form_db_path(name);
}

/// Adds a task; not written yet, does nothing.
pub fn todo_add() {
}

/// Deletes a task; not written yet, does nothing.
pub fn todo_delete() {
}

/// Lists the tasks; not written yet, does nothing.
pub fn todo_list() {
}

/// Updates a task; not written yet, does nothing.
pub fn todo_update() {
}

} // verus!
