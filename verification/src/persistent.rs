//! Storage of the first command-line front end: the database files under
//! `<working directory>/databases` and the `.env` file whose `db_var` names
//! the current database.
//!
//! The file system is touched outside the library; here the paths are formed
//! and the text of the `.env` file is computed.
use vstd::prelude::*;
use crate::parser::commands::db_cmds::{drop_file_extension, names_of, without_extension};
use crate::text::{
    chars_of, concat2, concat3, find, find_char_exec, find_char_from, find_exec, join_path,
    join_path_exec, key_line_ends, lemma_find_char_from, lemma_find_from, lemma_find_prefix,
    lemma_rewrite_line_twice, owned, rewrite_line, rfind_char, slice_chars, string_of, texts,
};

verus! {

/// `<cwd>/databases`, the directory of the database files.
pub open spec fn db_dir_in(cwd: Seq<char>) -> Seq<char> {
    join_path(cwd, "databases"@)
}

/// `<cwd>/databases/<name>.db`, the file of database `name`.
pub open spec fn db_path_in(cwd: Seq<char>, name: Seq<char>) -> Seq<char> {
    join_path(db_dir_in(cwd), name + ".db"@)
}

/// The directory of the database files, for the working directory `cwd`.
fn path_to_db_dir(cwd: &str) -> (p: String)
    ensures
        p@ == db_dir_in(cwd@),
{
    join_path_exec(cwd, "databases")
}

/// The file of database `name`, for the working directory `cwd`.
pub fn path_to_db(cwd: &str, name: &str) -> (p: String)
    ensures
        p@ == db_path_in(cwd@, name@),
{
    let dir = path_to_db_dir(cwd);
    let file = concat2(name, ".db");
    join_path_exec(dir.as_str(), file.as_str())
}

/// The `.env` file, for the working directory `cwd`.
pub fn path_to_env(cwd: &str) -> (p: String)
    ensures
        p@ == join_path(cwd@, ".env"@),
{
    join_path_exec(cwd, ".env")
}

/// The names of the databases whose files are `file_names`, in the order given.
pub fn list_dbs(file_names: &Vec<String>) -> (names: Vec<String>)
    ensures
        texts(names@) == names_of(texts(file_names@)),
{
    let mut names: Vec<String> = Vec::new();
    let mut i: usize = 0;
    while i < file_names.len()
        invariant
            i <= file_names.len(),
            texts(names@) == names_of(texts(file_names@.subrange(0, i as int))),
        decreases file_names.len() - i,
    {
        let n = drop_file_extension(file_names[i].as_str());
        let ghost prev = names@;
        names.push(n);
        proof {
            let a = texts(names@);
            let b = names_of(texts(file_names@.subrange(0, i + 1)));
            let c = names_of(texts(file_names@.subrange(0, i as int)));
            assert(texts(prev) == c);
            assert(c.len() == i);
            assert(texts(prev).len() == prev.len());
            assert(a.len() == i + 1);
            assert(b.len() == i + 1);
            assert forall|j: int| 0 <= j < i + 1 implies a[j] == b[j] by {
                assert(a[j] == names@[j]@);
                assert(file_names@.subrange(0, i + 1)[j] == file_names@[j]);
                if j < i {
                    assert(names@[j] == prev[j]);
                    assert(texts(prev)[j] == prev[j]@);
                    assert(file_names@.subrange(0, i as int)[j] == file_names@[j]);
                }
            }
            assert(a =~= b);
        }
        i = i + 1;
    }
    assert(file_names@.subrange(0, file_names.len() as int) =~= file_names@);
    names
}

/// The text of a new `.env` file: no database is current.
pub open spec fn initial_env_text() -> Seq<char> {
    "db_var=none\n"@
}

/// The text of a new `.env` file.
pub fn initial_env() -> (s: String)
    ensures
        s@ == initial_env_text(),
{
    owned("db_var=none\n")
}

/// The `.env` text after setting `var` to `val`: the text from the first
/// occurrence of `var` up to the end of its line becomes `var=val`.
pub open spec fn env_update(contents: Seq<char>, var: Seq<char>, val: Seq<char>) -> Seq<char> {
    rewrite_line(contents, var, "="@ + val)
}

/// Sets `var_name` to `new_val` in the `.env` text `contents`.
pub fn update_env_var(contents: &str, var_name: &str, new_val: &str) -> (r: String)
    requires
        key_line_ends(contents@, var_name@),
    ensures
        r@ == env_update(contents@, var_name@, new_val@),
{
    let cs = chars_of(contents);
    let vs = chars_of(var_name);
    match find_exec(&cs, &vs) {
        None => owned(contents),
        Some(i) => {
            proof {
                lemma_find_from(cs@, vs@, 0);
            }
            match find_char_exec(&cs, '\n', i) {
                None => owned(contents),
                Some(e) => {
                    proof {
                        lemma_find_char_from(cs@, '\n', i as int);
                    }
                    let before = string_of(&slice_chars(&cs, 0, i));
                    let after = string_of(&slice_chars(&cs, e, cs.len()));
                    let line = concat3(var_name, "=", new_val);
                    let r = concat3(before.as_str(), line.as_str(), after.as_str());
                    proof {
                        assert(r@ =~= env_update(contents@, var_name@, new_val@));
                    }
                    r
                },
            }
        },
    }
}

/// The `.env` text after giving `var` the value `val`: where `var` occurs,
/// its line is rewritten as by [`env_update`]; where it does not, the line
/// `var=val` is added at the end, on a line of its own.
pub open spec fn env_set(contents: Seq<char>, var: Seq<char>, val: Seq<char>) -> Seq<char> {
    match find(contents, var) {
        Some(_) => env_update(contents, var, val),
        None => if contents.len() == 0 || contents.last() == '\n' {
            contents + var + "="@ + val + "\n"@
        } else {
            contents + "\n"@ + var + "="@ + val + "\n"@
        },
    }
}

/// Gives `var_name` the value `new_val` in the `.env` text `contents`, adding
/// the variable's line where the text has none.
pub fn set_env_var(contents: &str, var_name: &str, new_val: &str) -> (r: String)
    requires
        key_line_ends(contents@, var_name@),
    ensures
        r@ == env_set(contents@, var_name@, new_val@),
{
    let cs = chars_of(contents);
    let vs = chars_of(var_name);
    match find_exec(&cs, &vs) {
        Some(_) => update_env_var(contents, var_name, new_val),
        None => {
            let line = concat3(var_name, "=", new_val);
            proof {
                reveal_strlit("=");
                reveal_strlit("\n");
            }
            if cs.len() == 0 || cs[cs.len() - 1] == '\n' {
                let r = concat3(contents, line.as_str(), "\n");
                proof {
                    assert(r@ =~= env_set(contents@, var_name@, new_val@));
                }
                r
            } else {
                let head = concat3(contents, "\n", line.as_str());
                let r = concat3(head.as_str(), "\n", "");
                proof {
                    reveal_strlit("");
                    assert(r@ =~= env_set(contents@, var_name@, new_val@));
                }
                r
            }
        },
    }
}

/// The `.env` text after making `db_name` the current database.
///
/// `None` when the database's file does not exist (nothing is written);
/// otherwise the text to write: `env` is the current `.env` text, or `None`
/// when there is no `.env` file yet, which is then first created with
/// [`initial_env`].  The text written names the database in its `db_var`
/// line, which is added where the text has none.
pub fn change_db(db_name: &str, db_exists: bool, env: Option<String>) -> (r: Option<String>)
    requires
        db_exists ==> (env matches Some(c) ==> key_line_ends(c@, "db_var"@)),
    ensures
        !db_exists ==> r is None,
        db_exists ==> (r matches Some(t) && t@ == env_set(
            match env {
                Some(c) => c@,
                None => initial_env_text(),
            },
            "db_var"@,
            db_name@,
        )),
        db_exists && env is None ==> (r matches Some(t) && t@ == "db_var="@ + db_name@ + "\n"@),
{
    if !db_exists {
        return None;
    }
    match env {
        Some(c) => Some(set_env_var(c.as_str(), "db_var", db_name)),
        None => {
            let fresh = initial_env();
            proof {
                lemma_fresh_env(db_name@);
            }
            Some(set_env_var(fresh.as_str(), "db_var", db_name))
        },
    }
}

/// In a fresh `.env` file, `db_var` is on the first line, and setting it
/// leaves `db_var=<name>` as the only line.
proof fn lemma_fresh_env(name: Seq<char>)
    ensures
        key_line_ends(initial_env_text(), "db_var"@),
        find(initial_env_text(), "db_var"@) is Some,
        env_update(initial_env_text(), "db_var"@, name) == "db_var="@ + name + "\n"@,
{
    let s = initial_env_text();
    reveal_strlit("db_var=none\n");
    reveal_strlit("db_var");
    reveal_strlit("=");
    reveal_strlit("\n");
    assert(s.subrange(0, 6) =~= "db_var"@);
    lemma_find_prefix(s, "db_var"@);
    assert(find_char_from(s, '\n', 11) == Some(11int));
    assert(find_char_from(s, '\n', 10) == Some(11int));
    assert(find_char_from(s, '\n', 9) == Some(11int));
    assert(find_char_from(s, '\n', 8) == Some(11int));
    assert(find_char_from(s, '\n', 7) == Some(11int));
    assert(find_char_from(s, '\n', 6) == Some(11int));
    assert(find_char_from(s, '\n', 5) == Some(11int));
    assert(find_char_from(s, '\n', 4) == Some(11int));
    assert(find_char_from(s, '\n', 3) == Some(11int));
    assert(find_char_from(s, '\n', 2) == Some(11int));
    assert(find_char_from(s, '\n', 1) == Some(11int));
    assert(find_char_from(s, '\n', 0) == Some(11int));
    assert(s.subrange(0, 0) =~= Seq::<char>::empty());
    assert(s.subrange(11, 12) =~= "\n"@);
    reveal_strlit("db_var=");
    assert("db_var="@ =~= "db_var"@ + "="@);
    assert(rewrite_line(s, "db_var"@, "="@ + name) == s.subrange(0, 0) + "db_var"@ + ("="@ + name)
        + s.subrange(11, 12));
    assert(env_update(s, "db_var"@, name) =~= "db_var="@ + name + "\n"@);
}

/// Setting a variable of the `.env` file twice leaves what the second setting
/// wrote: the first one is forgotten.  (The values hold no newline, as a line
/// of the file cannot.)
pub proof fn law_env_update_last_wins(
    contents: Seq<char>,
    var: Seq<char>,
    first: Seq<char>,
    second: Seq<char>,
)
    requires
        key_line_ends(contents, var),
        !var.contains('\n'),
        !first.contains('\n'),
    ensures
        key_line_ends(env_update(contents, var, first), var),
        env_update(env_update(contents, var, first), var, second) == env_update(
            contents,
            var,
            second,
        ),
{
    reveal_strlit("=");
    assert(!("="@ + first).contains('\n')) by {
        if ("="@ + first).contains('\n') {
            let k = choose|k: int| 0 <= k < ("="@ + first).len() && ("="@ + first)[k] == '\n';
            if k > 0 {
                assert(first[k - 1] == '\n');
            }
        }
    }
    lemma_rewrite_line_twice(contents, var, "="@ + first, "="@ + second);
}

/// A database's file is listed under the database's name: the file of
/// database `name` is `name.db`, and dropping the extension of `name.db`
/// gives back `name`, whatever `name` holds.
pub proof fn law_db_file_lists_as_name(name: Seq<char>)
    ensures
        without_extension(name + ".db"@) == name,
{
    reveal_strlit(".db");
    let f = name + ".db"@;
    assert(f.last() == 'b');
    assert(f.drop_last().last() == 'd');
    assert(f.drop_last().drop_last().last() == '.');
    assert(rfind_char(f.drop_last().drop_last(), '.') == Some(name.len() as int));
    assert(rfind_char(f.drop_last(), '.') == Some(name.len() as int));
    assert(rfind_char(f, '.') == Some(name.len() as int));
    assert(f.subrange(0, name.len() as int) =~= name);
}

} // verus!
