//! Database commands of the configuration-file front end: adding, deleting,
//! listing and selecting the database files kept in the database directory.
//!
//! The file system is touched outside the library.  Each command is split
//! into its steps: the library names the file a step works on, and turns what
//! the file system answered into the command's outcome or error.
use vstd::prelude::*;
use crate::parser::state_mgr::{State, StateManagerError, line_terminated, update_text};
use crate::render::{cells, render_boxed_table, table_text};
use crate::text::{
    chars_of, concat2, concat3, concat4, join_path, join_path_exec, lemma_rfind_char, owned,
    rfind_char, rfind_char_exec, slice_chars, sort_texts, sorted_texts, string_of, texts,
};

pub mod db;

verus! {

/// What went wrong in the database commands.
#[derive(Debug, Clone, Copy, PartialEq, Eq, Structural)]
pub enum DatabaseErrorKind {
    AlreadyExists,
    DoesNotExist,
    VariableNotSet,
    DirectoryNotSet,
    PathCreationFailed,
    EntryNotFound,
    IoError,
    SQLiteError,
}

/// The description shown for a kind of db error.
pub open spec fn database_error_kind_text(k: DatabaseErrorKind) -> Seq<char> {
    match k {
        DatabaseErrorKind::AlreadyExists => "database already exists hint: run `tmgr database set <name>`"@,
        DatabaseErrorKind::DoesNotExist => "database does not exists hint: run `tmgr database add <name>`"@,
        DatabaseErrorKind::VariableNotSet => "database variable not set, hint: run `tmgr database set <name>`"@,
        DatabaseErrorKind::DirectoryNotSet => "database directory not set, hint: run `tmgr database set-directory <dir>`"@,
        DatabaseErrorKind::PathCreationFailed => "path to current database file could not be created, hint: run `tmgr database set-directory <dir>` or `tmgr database set <name>`"@,
        DatabaseErrorKind::EntryNotFound => "entry not found"@,
        DatabaseErrorKind::IoError => "io error occurred"@,
        DatabaseErrorKind::SQLiteError => "SQLite3 error occurred"@,
    }
}

impl DatabaseErrorKind {
    /// The description shown for the kind.
    pub fn to_string(&self) -> (s: String)
        ensures
            s@ == database_error_kind_text(*self),
    {
        match self {
            DatabaseErrorKind::AlreadyExists => owned("database already exists hint: run `tmgr database set <name>`"),
            DatabaseErrorKind::DoesNotExist => owned("database does not exists hint: run `tmgr database add <name>`"),
            DatabaseErrorKind::VariableNotSet => owned("database variable not set, hint: run `tmgr database set <name>`"),
            DatabaseErrorKind::DirectoryNotSet => owned("database directory not set, hint: run `tmgr database set-directory <dir>`"),
            DatabaseErrorKind::PathCreationFailed => owned("path to current database file could not be created, hint: run `tmgr database set-directory <dir>` or `tmgr database set <name>`"),
            DatabaseErrorKind::EntryNotFound => owned("entry not found"),
            DatabaseErrorKind::IoError => owned("io error occurred"),
            DatabaseErrorKind::SQLiteError => owned("SQLite3 error occurred"),
        }
    }
}

/// An error of the database commands.
#[derive(Debug)]
pub struct DatabaseError {
    kind: DatabaseErrorKind,
    message: String,
}

/// The text shown for a db error.
pub open spec fn database_error_text(k: DatabaseErrorKind, m: Seq<char>) -> Seq<char> {
    m + " (db error: "@ + database_error_kind_text(k) + ")"@
}

impl DatabaseError {
    /// An error of the given kind with the given message.
    pub fn new(kind: DatabaseErrorKind, message: String) -> (e: Self)
        ensures
            e.spec_kind() == kind,
            e.spec_message() == message@,
    {
        DatabaseError { kind, message }
    }

    pub closed spec fn spec_kind(&self) -> DatabaseErrorKind {
        self.kind
    }

    pub closed spec fn spec_message(&self) -> Seq<char> {
        self.message@
    }

    /// The kind of the error.
    pub fn kind(&self) -> (k: DatabaseErrorKind)
        ensures
            k == self.spec_kind(),
    {
        self.kind
    }

    /// The text shown for the error.
    pub fn to_string(&self) -> (s: String)
        ensures
            s@ == database_error_text(self.spec_kind(), self.spec_message()),
    {
        let k = self.kind.to_string();
        concat4(self.message.as_str(), " (db error: ", k.as_str(), ")")
    }
}


impl DatabaseError {
    /// The text shown for the error, as a spec function.
    pub open spec fn spec_text(&self) -> Seq<char> {
        database_error_text(self.spec_kind(), self.spec_message())
    }
}

// ------------------------------------------------------------------
// File names
// ------------------------------------------------------------------

/// A file name without its extension: the text before its last `.`, or the
/// whole name when it has none.
pub open spec fn without_extension(name: Seq<char>) -> Seq<char> {
    match rfind_char(name, '.') {
        Some(i) => name.subrange(0, i),
        None => name,
    }
}

/// Removes the file extension from the filename.
pub fn drop_file_extension(filename: &str) -> (r: String)
    ensures
        r@ == without_extension(filename@),
{
    let cs = chars_of(filename);
    match rfind_char_exec(&cs, '.') {
        Some(i) => {
            proof {
                lemma_rfind_char(cs@, '.');
            }
            string_of(&slice_chars(&cs, 0, i))
        },
        None => owned(filename),
    }
}

/// A path with its extension set to `ext`, as std's `PathBuf::set_extension`
/// leaves it.
pub uninterp spec fn path_with_extension(path: Seq<char>, ext: Seq<char>) -> Seq<char>;

/// std's `PathBuf::set_extension` on `path`; the contract names its result.
/// std panics on an extension that holds a path separator, so `ext` holds none.
#[verifier::external_body]
fn set_extension(path: &str, ext: &str) -> (r: String)
    requires
        !ext@.contains('/'),
    ensures
        r@ == path_with_extension(path@, ext@),
{
    let mut p = std::path::PathBuf::from(path);
    p.set_extension(ext);
    p.to_string_lossy().into_owned()
}

/// The file of database `name` in directory `dir`: the directory joined with
/// the name, with the extension `db`.
pub open spec fn db_file(dir: Seq<char>, name: Seq<char>) -> Seq<char> {
    path_with_extension(join_path(dir, name), "db"@)
}

/// The file of database `name` in directory `dir`.
pub fn db_file_path(dir: &str, name: &str) -> (p: String)
    ensures
        p@ == db_file(dir@, name@),
{
    let joined = join_path_exec(dir, name);
    proof {
        reveal_strlit("db");
    }
    set_extension(joined.as_str(), "db")
}

/// The names that files of the given names stand for: each without its extension.
pub open spec fn names_of(files: Seq<Seq<char>>) -> Seq<Seq<char>> {
    files.map_values(|f: Seq<char>| without_extension(f))
}

/// The names of the databases whose files are `file_names`, in alphabetical order.
pub fn database_names(file_names: &Vec<String>) -> (names: Vec<String>)
    ensures
        sorted_texts(texts(names@)),
        texts(names@).to_multiset() == names_of(texts(file_names@)).to_multiset(),
{
    let mut stripped: Vec<String> = Vec::new();
    let mut i: usize = 0;
    while i < file_names.len()
        invariant
            i <= file_names.len(),
            texts(stripped@) == names_of(texts(file_names@.subrange(0, i as int))),
        decreases file_names.len() - i,
    {
        let n = drop_file_extension(file_names[i].as_str());
        let ghost prev = stripped@;
        stripped.push(n);
        proof {
            let a = texts(stripped@);
            let b = names_of(texts(file_names@.subrange(0, i + 1)));
            let c = names_of(texts(file_names@.subrange(0, i as int)));
            assert(stripped@ == prev.push(n));
            assert(texts(prev) == c);
            assert(c.len() == i);
            assert(texts(prev).len() == prev.len());
            assert(prev.len() == i);
            assert(a.len() == i + 1);
            assert(b.len() == i + 1);
            assert forall|j: int| 0 <= j < i + 1 implies a[j] == b[j] by {
                assert(a[j] == stripped@[j]@);
                assert(file_names@.subrange(0, i + 1)[j] == file_names@[j]);
                assert(b[j] == without_extension(file_names@[j]@));
                if j < i {
                    assert(stripped@[j] == prev[j]);
                    assert(texts(prev)[j] == prev[j]@);
                    assert(file_names@.subrange(0, i as int)[j] == file_names@[j]);
                    assert(c[j] == without_extension(file_names@[j]@));
                }
            }
            assert(a =~= b);
        }
        i = i + 1;
    }
    assert(file_names@.subrange(0, file_names.len() as int) =~= file_names@);
    sort_texts(&stripped)
}

/// The rows of the table of databases: one cell per row, holding a name.
pub open spec fn name_rows(names: Seq<Seq<char>>) -> Seq<Seq<Seq<char>>> {
    names.map_values(|n: Seq<char>| seq![n])
}

/// The table that lists the databases: one row per name, in the order given,
/// under the header `Database Name`, drawn with UTF-8 borders and rounded
/// corners for the width the terminal offered.
pub fn database_table(names: &Vec<String>) -> (s: String)
    ensures
        exists|w: Option<u16>|
            s@ == table_text(seq!["Database Name"@], name_rows(texts(names@)), true, w),
{
    let mut header: Vec<String> = Vec::new();
    header.push(owned("Database Name"));
    let mut rows: Vec<Vec<String>> = Vec::new();
    let mut i: usize = 0;
    while i < names.len()
        invariant
            i <= names.len(),
            rows@.len() == i,
            forall|j: int| 0 <= j < i ==> texts((#[trigger] rows@[j])@) == seq![names@[j]@],
        decreases names.len() - i,
    {
        let mut row: Vec<String> = Vec::new();
        row.push(names[i].clone());
        assert(texts(row@) =~= seq![names@[i as int]@]);
        rows.push(row);
        i = i + 1;
    }
    proof {
        assert(texts(header@) =~= seq!["Database Name"@]);
        let a = cells(rows@);
        let b = name_rows(texts(names@));
        assert(a.len() == b.len());
        assert forall|j: int| 0 <= j < a.len() implies a[j] == b[j] by {
            assert(a[j] == texts(rows@[j]@));
            assert(texts(names@)[j] == names@[j]@);
        }
        assert(a =~= b);
    }
    render_boxed_table(&header, &rows)
}

// ------------------------------------------------------------------
// The steps of the commands
// ------------------------------------------------------------------

/// The message of an error whose cause is a failed file-system call.
pub open spec fn with_cause(message: Seq<char>, cause: Seq<char>) -> Seq<char> {
    message + ": "@ + cause
}

/// `message: cause`.
fn with_cause_exec(message: &str, cause: &str) -> (r: String)
    ensures
        r@ == with_cause(message@, cause@),
{
    concat3(message, ": ", cause)
}

/// The file of database `name` in the state's database directory; without a
/// directory, an error of `kind` with `message`.
fn file_in_db_dir(state: &State, name: &str, kind: DatabaseErrorKind, message: String) -> (r: Result<
    String,
    DatabaseError,
>)
    ensures
        match state.spec_db_dir() {
            None => r matches Err(e) && e.spec_kind() == kind && e.spec_message() == message@,
            Some(d) => r matches Ok(p) && p@ == db_file(d, name@),
        },
{
    match state.get_db_dir() {
        None => Err(DatabaseError::new(kind, message)),
        Some(d) => Ok(db_file_path(d.as_str(), name)),
    }
}

/// `Unable to add database <name>`.
pub open spec fn add_failed(name: Seq<char>) -> Seq<char> {
    "Unable to add database "@ + name
}

/// The file that `db_add` creates; `DirectoryNotSet` when no database
/// directory is set.
pub fn db_add_target(state: &State, name: &str) -> (r: Result<String, DatabaseError>)
    ensures
        match state.spec_db_dir() {
            None => r matches Err(e) && e.spec_kind() == DatabaseErrorKind::DirectoryNotSet
                && e.spec_message() == add_failed(name@),
            Some(d) => r matches Ok(p) && p@ == db_file(d, name@),
        },
{
    file_in_db_dir(
        state,
        name,
        DatabaseErrorKind::DirectoryNotSet,
        concat2("Unable to add database ", name),
    )
}

/// Whether `db_add` goes on to create the file, given whether the file already
/// exists (or why that could not be told): `Ok(())` means create it.
pub fn db_add_check(name: &str, present: Result<bool, String>) -> (r: Result<(), DatabaseError>)
    ensures
        match present {
            Err(c) => r matches Err(e) && e.spec_kind() == DatabaseErrorKind::IoError
                && e.spec_message() == with_cause(add_failed(name@), c@),
            Ok(true) => r matches Err(e) && e.spec_kind() == DatabaseErrorKind::AlreadyExists
                && e.spec_message() == add_failed(name@),
            Ok(false) => r is Ok,
        },
        present matches Ok(p) ==> add_check_follows_dir(name@, p, error_kind_of(r)),
{
    match present {
        Err(c) => Err(
            DatabaseError::new(
                DatabaseErrorKind::IoError,
                with_cause_exec(concat2("Unable to add database ", name).as_str(), c.as_str()),
            ),
        ),
        Ok(true) => Err(
            DatabaseError::new(
                DatabaseErrorKind::AlreadyExists,
                concat2("Unable to add database ", name),
            ),
        ),
        Ok(false) => Ok(()),
    }
}

/// The line that `db_add` prints once the file was created.
pub open spec fn created_message(name: Seq<char>) -> Seq<char> {
    "Successfully created database with name: "@ + name
}

/// The outcome of `db_add` once the file was created (or why it could not be).
pub fn db_add_report(name: &str, created: Result<(), String>) -> (r: Result<String, DatabaseError>)
    ensures
        match created {
            Err(c) => r matches Err(e) && e.spec_kind() == DatabaseErrorKind::IoError
                && e.spec_message() == with_cause("Unable to create database "@ + name@, c@),
            Ok(_) => r matches Ok(m) && m@ == created_message(name@),
        },
{
    match created {
        Err(c) => Err(
            DatabaseError::new(
                DatabaseErrorKind::IoError,
                with_cause_exec(concat2("Unable to create database ", name).as_str(), c.as_str()),
            ),
        ),
        Ok(_) => Ok(concat2("Successfully created database with name: ", name)),
    }
}

/// `Unable to remove database <name>`.
pub open spec fn remove_failed(name: Seq<char>) -> Seq<char> {
    "Unable to remove database "@ + name
}

/// The file that `db_delete` removes; `DirectoryNotSet` when no database
/// directory is set.
pub fn db_delete_target(state: &State, name: &str) -> (r: Result<String, DatabaseError>)
    ensures
        match state.spec_db_dir() {
            None => r matches Err(e) && e.spec_kind() == DatabaseErrorKind::DirectoryNotSet
                && e.spec_message() == remove_failed(name@),
            Some(d) => r matches Ok(p) && p@ == db_file(d, name@),
        },
{
    file_in_db_dir(
        state,
        name,
        DatabaseErrorKind::DirectoryNotSet,
        concat2("Unable to remove database ", name),
    )
}

/// Whether `db_delete` goes on to remove the file: only when it is a file.
pub fn db_delete_check(name: &str, is_file: bool) -> (r: Result<(), DatabaseError>)
    ensures
        is_file ==> r is Ok,
        !is_file ==> (r matches Err(e) && e.spec_kind() == DatabaseErrorKind::DoesNotExist
            && e.spec_message() == remove_failed(name@)),
        delete_check_follows_dir(name@, is_file, error_kind_of(r)),
{
    if is_file {
        Ok(())
    } else {
        Err(
            DatabaseError::new(
                DatabaseErrorKind::DoesNotExist,
                concat2("Unable to remove database ", name),
            ),
        )
    }
}

/// The outcome of `db_delete` once the file was removed (or why it could not be).
pub fn db_delete_report(name: &str, removed: Result<(), String>) -> (r: Result<(), DatabaseError>)
    ensures
        match removed {
            Err(c) => r matches Err(e) && e.spec_kind() == DatabaseErrorKind::IoError
                && e.spec_message() == with_cause(remove_failed(name@), c@),
            Ok(_) => r is Ok,
        },
{
    match removed {
        Err(c) => Err(
            DatabaseError::new(
                DatabaseErrorKind::IoError,
                with_cause_exec(concat2("Unable to remove database ", name).as_str(), c.as_str()),
            ),
        ),
        Ok(_) => Ok(()),
    }
}

/// What `db_add` does to a database directory `dir` that holds the files
/// `files`, once its file is formed ([`db_add_target`]): [`db_add_check`]
/// refuses with `AlreadyExists` when the file [`db_file`] is present, and
/// otherwise the file is created.
pub open spec fn add_to_dir(files: Set<Seq<char>>, dir: Seq<char>, name: Seq<char>) -> Result<
    Set<Seq<char>>,
    DatabaseErrorKind,
> {
    let f = db_file(dir, name);
    if files.contains(f) {
        Err(DatabaseErrorKind::AlreadyExists)
    } else {
        Ok(files.insert(f))
    }
}

/// What `db_delete` does to a database directory `dir` that holds the files
/// `files`, once its file is formed ([`db_delete_target`]): [`db_delete_check`]
/// refuses with `DoesNotExist` when the file [`db_file`] is absent, and
/// otherwise the file is removed.
pub open spec fn delete_from_dir(files: Set<Seq<char>>, dir: Seq<char>, name: Seq<char>) -> Result<
    Set<Seq<char>>,
    DatabaseErrorKind,
> {
    let f = db_file(dir, name);
    if files.contains(f) {
        Ok(files.remove(f))
    } else {
        Err(DatabaseErrorKind::DoesNotExist)
    }
}

/// The kind of a step's error, or `None` when the step goes on.
pub open spec fn error_kind_of(r: Result<(), DatabaseError>) -> Option<DatabaseErrorKind> {
    match r {
        Ok(_) => None,
        Err(e) => Some(e.spec_kind()),
    }
}

/// For every directory `dir` holding files `files` in which the answer to
/// "is the file of `name` there" is `present`, the step refuses with the
/// kind `refused` exactly when [`add_to_dir`] does, and goes on (`None`)
/// exactly when [`add_to_dir`] creates the file.
pub open spec fn add_check_follows_dir(
    name: Seq<char>,
    present: bool,
    refused: Option<DatabaseErrorKind>,
) -> bool {
    forall|files: Set<Seq<char>>, dir: Seq<char>|
        #[trigger] files.contains(db_file(dir, name)) == present ==> match (
            refused,
            add_to_dir(files, dir, name),
        ) {
            (None, Ok(_)) => true,
            (Some(k), Err(j)) => k == j,
            _ => false,
        }
}

/// For every directory `dir` holding files `files` in which the answer to
/// "is the file of `name` there" is `is_file`, the step refuses with the
/// kind `refused` exactly when [`delete_from_dir`] does, and goes on
/// (`None`) exactly when [`delete_from_dir`] removes the file.
pub open spec fn delete_check_follows_dir(
    name: Seq<char>,
    is_file: bool,
    refused: Option<DatabaseErrorKind>,
) -> bool {
    forall|files: Set<Seq<char>>, dir: Seq<char>|
        #[trigger] files.contains(db_file(dir, name)) == is_file ==> match (
            refused,
            delete_from_dir(files, dir, name),
        ) {
            (None, Ok(_)) => true,
            (Some(k), Err(j)) => k == j,
            _ => false,
        }
}

/// Adding a database and deleting it again leaves the directory as it was;
/// deleting it once more is refused with `DoesNotExist`, and adding it twice
/// is refused with `AlreadyExists`.  [`db_add_check`] and [`db_delete_check`]
/// decide as [`add_to_dir`] and [`delete_from_dir`] do, for the directory the
/// caller looked at (their clauses [`add_check_follows_dir`] and
/// [`delete_check_follows_dir`]).
pub proof fn law_add_then_delete(files: Set<Seq<char>>, dir: Seq<char>, name: Seq<char>)
    requires
        !files.contains(db_file(dir, name)),
    ensures
        add_to_dir(files, dir, name) matches Ok(added) && delete_from_dir(added, dir, name) == Ok::<
            Set<Seq<char>>,
            DatabaseErrorKind,
        >(files) && add_to_dir(added, dir, name) == Err::<Set<Seq<char>>, DatabaseErrorKind>(
            DatabaseErrorKind::AlreadyExists,
        ),
        delete_from_dir(files, dir, name) == Err::<Set<Seq<char>>, DatabaseErrorKind>(
            DatabaseErrorKind::DoesNotExist,
        ),
{
    let f = db_file(dir, name);
    assert(files.insert(f).remove(f) =~= files);
}

/// The directory whose files `db_list` lists; `DirectoryNotSet` when none is set.
pub fn db_list_dir(state: &State) -> (r: Result<String, DatabaseError>)
    ensures
        match state.spec_db_dir() {
            None => r matches Err(e) && e.spec_kind() == DatabaseErrorKind::DirectoryNotSet
                && e.spec_message() == "Unable to list databases"@,
            Some(d) => r matches Ok(p) && p@ == d,
        },
{
    match state.get_db_dir() {
        None => Err(
            DatabaseError::new(DatabaseErrorKind::DirectoryNotSet, owned("Unable to list databases")),
        ),
        Some(d) => Ok(d),
    }
}

/// The error of `db_list` when the directory could not be read.
pub fn db_list_read_failed(cause: &str) -> (e: DatabaseError)
    ensures
        e.spec_kind() == DatabaseErrorKind::IoError,
        e.spec_message() == with_cause("Unable to read directory containing databases"@, cause@),
{
    DatabaseError::new(
        DatabaseErrorKind::IoError,
        with_cause_exec("Unable to read directory containing databases", cause),
    )
}

/// `Unable to set database <name>`.
pub open spec fn set_failed(name: Seq<char>) -> Seq<char> {
    "Unable to set database "@ + name
}

/// The file that `db_set` checks; `DoesNotExist` when no database directory
/// is set.
pub fn db_set_target(state: &State, name: &str) -> (r: Result<String, DatabaseError>)
    ensures
        match state.spec_db_dir() {
            None => r matches Err(e) && e.spec_kind() == DatabaseErrorKind::DoesNotExist
                && e.spec_message() == set_failed(name@),
            Some(d) => r matches Ok(p) && p@ == db_file(d, name@),
        },
{
    file_in_db_dir(
        state,
        name,
        DatabaseErrorKind::DoesNotExist,
        concat2("Unable to set database ", name),
    )
}

/// The error when the state manager could not store a variable.
pub open spec fn state_update_message(e: Seq<char>) -> Seq<char> {
    "Unable to set database variable using state manager: "@ + e
}

/// The database error for a state manager that failed to store a variable.
pub fn state_update_failed(e: &StateManagerError) -> (r: DatabaseError)
    ensures
        r.spec_kind() == DatabaseErrorKind::IoError,
        r.spec_message() == state_update_message(
            e.spec_message() + " (state manager error: "@ + e.spec_kind().spec_text() + ")"@,
        ),
{
    let t = e.to_string();
    DatabaseError::new(
        DatabaseErrorKind::IoError,
        concat2("Unable to set database variable using state manager: ", t.as_str()),
    )
}

/// Makes database `name` the current one, if its file exists.
///
/// `contents` is the configuration file's text; on success the text to write
/// back is returned and the state's current database is `name`.  When the
/// file is missing the error is `DoesNotExist` and the state is unchanged.
pub fn db_set(state: &mut State, name: &str, is_file: bool, contents: &str) -> (r: Result<
    String,
    DatabaseError,
>)
    requires
        is_file ==> line_terminated(contents@, "db_var"@),
    ensures
        !is_file ==> {
            &&& r matches Err(e) && e.spec_kind() == DatabaseErrorKind::DoesNotExist
                && e.spec_message() == set_failed(name@)
            &&& final(state).spec_db_dir() == old(state).spec_db_dir()
            &&& final(state).spec_db_var() == old(state).spec_db_var()
            &&& final(state).spec_path() == old(state).spec_path()
        },
        is_file ==> {
            &&& r matches Ok(t) && t@ == update_text(contents@, "db_var"@, name@)
            &&& final(state).spec_db_var() == Some(name@)
            &&& final(state).spec_db_dir() == old(state).spec_db_dir()
            &&& final(state).spec_path() == old(state).spec_path()
        },
{
    if !is_file {
        return Err(
            DatabaseError::new(
                DatabaseErrorKind::DoesNotExist,
                concat2("Unable to set database ", name),
            ),
        );
    }
    proof {
        reveal_strlit("db_var");
        reveal_strlit("db_dir");
        assert("db_var"@[3] != "db_dir"@[3]);
    }
    match state.update_var("db_var", name, contents) {
        Ok(t) => Ok(t),
        Err(e) => Err(state_update_failed(&e)),
    }
}

/// The line that `db_set` prints once the configuration file was written.
pub fn db_set_message(name: &str) -> (m: String)
    ensures
        m@ == "Successfully set database to "@ + name@,
{
    concat2("Successfully set database to ", name)
}

/// The database directory that `db_set_directory` sets for `path`: the
/// `databases` directory inside the canonical form of `path`, or the error
/// when `path` could not be made canonical.
pub fn db_directory_for(path: &str, canonical: Result<String, String>) -> (r: Result<
    String,
    DatabaseError,
>)
    ensures
        match canonical {
            Err(c) => r matches Err(e) && e.spec_kind() == DatabaseErrorKind::IoError
                && e.spec_message() == with_cause(
                "Unable to set database directory due to invalid path "@ + path@,
                c@,
            ),
            Ok(p) => r matches Ok(d) && d@ == join_path(p@, "databases"@),
        },
{
    match canonical {
        Err(c) => Err(
            DatabaseError::new(
                DatabaseErrorKind::IoError,
                with_cause_exec(
                    concat2("Unable to set database directory due to invalid path ", path).as_str(),
                    c.as_str(),
                ),
            ),
        ),
        Ok(p) => Ok(join_path_exec(p.as_str(), "databases")),
    }
}

/// The outcome of creating the database directory `dir` where it was missing.
pub fn db_directory_created(dir: &str, created: Result<(), String>) -> (r: Result<
    (),
    DatabaseError,
>)
    ensures
        match created {
            Err(c) => r matches Err(e) && e.spec_kind() == DatabaseErrorKind::DoesNotExist
                && e.spec_message() == with_cause(
                "Unable to create database directory at "@ + dir@,
                c@,
            ),
            Ok(_) => r is Ok,
        },
{
    match created {
        Err(c) => Err(
            DatabaseError::new(
                DatabaseErrorKind::DoesNotExist,
                with_cause_exec(
                    concat2("Unable to create database directory at ", dir).as_str(),
                    c.as_str(),
                ),
            ),
        ),
        Ok(_) => Ok(()),
    }
}

/// The error when the database directory's path is not valid text.
pub fn db_directory_not_text() -> (e: DatabaseError)
    ensures
        e.spec_kind() == DatabaseErrorKind::IoError,
        e.spec_message() == "Unable to convert database directory path to string"@,
{
    DatabaseError::new(
        DatabaseErrorKind::IoError,
        owned("Unable to convert database directory path to string"),
    )
}

/// Sets the directory where databases are stored to `dir`.
///
/// `contents` is the configuration file's text; the text to write back is
/// returned and the state's database directory is `dir`.
pub fn db_set_directory(state: &mut State, dir: &str, contents: &str) -> (r: Result<
    String,
    DatabaseError,
>)
    requires
        line_terminated(contents@, "db_dir"@),
    ensures
        r matches Ok(t) && t@ == update_text(contents@, "db_dir"@, dir@),
        final(state).spec_db_dir() == Some(dir@),
        final(state).spec_db_var() == old(state).spec_db_var(),
        final(state).spec_path() == old(state).spec_path(),
{
    proof {
        reveal_strlit("db_dir");
    }
    match state.update_var("db_dir", dir, contents) {
        Ok(t) => Ok(t),
        Err(e) => Err(state_update_failed(&e)),
    }
}

/// The line that `db_set_directory` prints once the configuration file was written.
pub fn db_set_directory_message(dir: &str) -> (m: String)
    ensures
        m@ == "Successfully set database directory to "@ + dir@,
{
    concat2("Successfully set database directory to ", dir)
}

} // verus!
