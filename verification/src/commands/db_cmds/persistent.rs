//! Paths of the SQLite front end: the `.env` file next to the executable, whose
//! `db_dir` names the directory under which the `databases` folder lies.
use vstd::prelude::*;
use crate::text::{concat2, join_path, join_path_exec};

verus! {

/// `<db_dir>/databases/<name>.db`, the file of database `name`.
pub open spec fn db_file_under(db_dir: Seq<char>, name: Seq<char>) -> Seq<char> {
    join_path(join_path(db_dir, "databases"@), name + ".db"@)
}

/// The file of database `name`, where `db_dir` is the `.env` file's `db_dir`.
pub fn path_to_db(db_dir: &str, name: &str) -> (p: String)
    ensures
        p@ == db_file_under(db_dir@, name@),
{
    let dir = join_path_exec(db_dir, "databases");
    let file = concat2(name, ".db");
    join_path_exec(dir.as_str(), file.as_str())
}

/// The `.env` file, kept in the directory of the executable `exe_dir`.
pub fn path_to_env(exe_dir: &str) -> (p: String)
    ensures
        p@ == join_path(exe_dir@, ".env"@),
{
    join_path_exec(exe_dir, ".env")
}

} // verus!
