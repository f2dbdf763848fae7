//! The state manager: the configuration file that remembers the database
//! directory (`db_dir`) and the current database (`db_var`).
//!
//! The file is a list of `key = "value"` lines.  Reading and writing the file
//! happen outside the library; here the text is split into lines, parsed into
//! a [`State`], and rewritten when a variable changes.
use vstd::prelude::*;
use crate::text::{
    contains_seq, is_ws, lemma_find_char_concat, lemma_find_char_shift, lemma_find_prefix,
    lemma_remove_char_absent, lemma_remove_char_concat, occurs_at, trim_end, trim_start, chars_eq,
    chars_of, concat2, concat3, concat4, concat5, find, find_char_exec, find_char_from, find_exec,
    join_path, join_path_exec, lemma_find_char_from, lemma_find_from, lemma_rewrite_line_twice, owned, remove_char,
    remove_char_exec, rewrite_line, slice_chars, split_once, str_eq, string_of, trim, trim_exec,
};

verus! {

// ------------------------------------------------------------------
// Errors
// ------------------------------------------------------------------

/// What went wrong in the state manager.
#[derive(Debug, Clone, Copy, PartialEq, Eq, Structural)]
pub enum StateManagerErrorKind {
    ConfigFileNotFound,
    InvalidConfigFileStructure,
    IoError,
    StringConversionError,
    UpdateVariableFailed,
    UnknownStateVariable,
}

impl StateManagerErrorKind {
    /// The description shown for this kind.
    pub open spec fn spec_text(self) -> Seq<char> {
        match self {
            StateManagerErrorKind::UpdateVariableFailed =>
                "state manager failed to update variable in config file"@,
            StateManagerErrorKind::IoError => "io error occurred"@,
            StateManagerErrorKind::StringConversionError => "string conversion error"@,
            StateManagerErrorKind::ConfigFileNotFound => "config file not found"@,
            StateManagerErrorKind::UnknownStateVariable => "unknown state variable"@,
            StateManagerErrorKind::InvalidConfigFileStructure => "invalid config file structure"@,
        }
    }

    /// The description shown for this kind.
    pub fn to_string(&self) -> (s: String)
        ensures
            s@ == self.spec_text(),
    {
        match self {
            StateManagerErrorKind::UpdateVariableFailed => owned(
                "state manager failed to update variable in config file",
            ),
            StateManagerErrorKind::IoError => owned("io error occurred"),
            StateManagerErrorKind::StringConversionError => owned("string conversion error"),
            StateManagerErrorKind::ConfigFileNotFound => owned("config file not found"),
            StateManagerErrorKind::UnknownStateVariable => owned("unknown state variable"),
            StateManagerErrorKind::InvalidConfigFileStructure => owned(
                "invalid config file structure",
            ),
        }
    }
}

/// An error of the state manager: its kind and a message.
#[derive(Debug)]
pub struct StateManagerError {
    kind: StateManagerErrorKind,
    message: String,
}

impl StateManagerError {
    /// An error of the given kind with the given message.
    pub fn new(kind: StateManagerErrorKind, message: String) -> (e: Self)
        ensures
            e.spec_kind() == kind,
            e.spec_message() == message@,
    {
        StateManagerError { kind, message }
    }

    pub closed spec fn spec_kind(&self) -> StateManagerErrorKind {
        self.kind
    }

    pub closed spec fn spec_message(&self) -> Seq<char> {
        self.message@
    }

    /// The kind of the error.
    pub fn kind(&self) -> (k: StateManagerErrorKind)
        ensures
            k == self.spec_kind(),
    {
        self.kind
    }

    /// The message of the error.
    pub fn message(&self) -> (m: &str)
        ensures
            m@ == self.spec_message(),
    {
        self.message.as_str()
    }

    /// The text shown for the error: the message, then the kind in brackets.
    pub fn to_string(&self) -> (s: String)
        ensures
            s@ == self.spec_message() + " (state manager error: "@ + self.spec_kind().spec_text()
                + ")"@,
    {
        let k = self.kind.to_string();
        concat4(self.message.as_str(), " (state manager error: ", k.as_str(), ")")
    }
}

// ------------------------------------------------------------------
// The file format
// ------------------------------------------------------------------

/// What one `key = value` line holds: `""` stands for an unset variable,
/// any other value is kept with its double quotes removed.
pub open spec fn config_value(v: Seq<char>) -> Option<Seq<char>> {
    let t = trim(v);
    if t == "\"\""@ {
        None
    } else {
        Some(remove_char(t, '"'))
    }
}

/// The two variables of the state manager: (`db_dir`, `db_var`).
pub type ConfigVars = (Option<Seq<char>>, Option<Seq<char>>);

/// A parse failure: its kind and message.
pub type ConfigFailure = (StateManagerErrorKind, Seq<char>);

/// The message for a line whose key is not a tracked variable.
pub open spec fn unknown_variable_message(key: Seq<char>, value: Seq<char>) -> Seq<char> {
    "State manager encountered variable not being tracked "@ + key + " = "@ + value
}

/// The variables after reading one more line.
pub open spec fn apply_line(acc: ConfigVars, line: Seq<char>) -> Result<ConfigVars, ConfigFailure> {
    match split_once(line, '=') {
        None => Err(
            (StateManagerErrorKind::InvalidConfigFileStructure, "Invalid config file structure"@),
        ),
        Some((k, v)) => if trim(k) == "db_dir"@ {
            Ok((config_value(v), acc.1))
        } else if trim(k) == "db_var"@ {
            Ok((acc.0, config_value(v)))
        } else {
            Err((StateManagerErrorKind::UnknownStateVariable, unknown_variable_message(k, v)))
        },
    }
}

/// The variables that a list of lines sets, read from the first line on; a
/// line that cannot be read ends the reading with its failure.
pub open spec fn parse_config(lines: Seq<Seq<char>>) -> Result<ConfigVars, ConfigFailure>
    decreases lines.len(),
{
    if lines.len() == 0 {
        Ok((None, None))
    } else {
        match parse_config(lines.drop_last()) {
            Err(e) => Err(e),
            Ok(acc) => apply_line(acc, lines.last()),
        }
    }
}

/// A line as `BufRead::lines` hands it out: the newline that ended it removed,
/// and a carriage return before that newline removed too.
pub open spec fn strip_cr(line: Seq<char>) -> Seq<char> {
    if line.len() > 0 && line.last() == '\r' {
        line.drop_last()
    } else {
        line
    }
}

/// The lines of a text as `BufRead::lines` yields them.
pub open spec fn split_lines(s: Seq<char>) -> Seq<Seq<char>>
    decreases s.len(),
{
    if s.len() == 0 {
        Seq::empty()
    } else {
        match find_char_from(s, '\n', 0) {
            None => seq![s],
            Some(i) => {
                if 0 <= i < s.len() {
                    seq![strip_cr(s.subrange(0, i))] + split_lines(s.subrange(i + 1, s.len() as int))
                } else {
                    Seq::empty()
                }
            },
        }
    }
}

/// A value written into the file: wrapped in double quotes.
pub open spec fn padded(s: Seq<char>) -> Seq<char> {
    "\""@ + s + "\""@
}

/// The file after setting `var` to `val`: the text from the first occurrence
/// of `var` up to the end of its line becomes `var = "val"`.
pub open spec fn update_text(contents: Seq<char>, var: Seq<char>, val: Seq<char>) -> Seq<char> {
    match find(contents, var) {
        None => contents,
        Some(i) => match find_char_from(contents, '\n', i) {
            Some(e) => contents.subrange(0, i) + var + " = "@ + padded(val) + contents.subrange(
                e,
                contents.len() as int,
            ),
            None => contents,
        },
    }
}

/// Rewriting `var` is possible: where `var` occurs, a newline follows.
pub open spec fn line_terminated(contents: Seq<char>, var: Seq<char>) -> bool {
    find(contents, var) matches Some(i) ==> find_char_from(contents, '\n', i) is Some
}

/// The views of a list of strings.
pub open spec fn lines_view(lines: Seq<String>) -> Seq<Seq<char>> {
    lines.map_values(|l: String| l@)
}

// ------------------------------------------------------------------
// Lemmas on the format
// ------------------------------------------------------------------

/// Once reading fails, the lines after the failing one do not matter.
pub proof fn lemma_parse_config_err(lines: Seq<Seq<char>>, k: int)
    requires
        0 <= k <= lines.len(),
        parse_config(lines.subrange(0, k)) is Err,
    ensures
        parse_config(lines) == parse_config(lines.subrange(0, k)),
    decreases lines.len(),
{
    if lines.len() > k {
        assert(lines.drop_last().subrange(0, k) =~= lines.subrange(0, k));
        lemma_parse_config_err(lines.drop_last(), k);
    } else {
        assert(lines.subrange(0, k) =~= lines);
    }
}

// ------------------------------------------------------------------
// Executable format helpers
// ------------------------------------------------------------------

/// The text of a fresh configuration file: both variables unset.
pub fn initial_config() -> (s: String)
    ensures
        s@ == "db_dir = \"\"\ndb_var = \"\"\n"@,
{
    owned("db_dir = \"\"\ndb_var = \"\"\n")
}

/// Wraps `s` in double quotes.
pub fn pad_sides(s: &str) -> (r: String)
    ensures
        r@ == padded(s@),
{
    concat3("\"", s, "\"")
}

/// The lines of a text, as `BufRead::lines` yields them.
pub fn config_lines(contents: &str) -> (lines: Vec<String>)
    ensures
        lines_view(lines@) == split_lines(contents@),
{
    let cs = chars_of(contents);
    let mut lines: Vec<String> = Vec::new();
    let mut start: usize = 0;
    assert(cs@.subrange(0, cs.len() as int) =~= cs@);
    assert(lines_view(lines@) =~= Seq::<Seq<char>>::empty());
    assert(lines_view(lines@) + split_lines(cs@) =~= split_lines(cs@));
    while start < cs.len()
        invariant
            start <= cs.len(),
            split_lines(cs@) == lines_view(lines@) + split_lines(
                cs@.subrange(start as int, cs.len() as int),
            ),
        decreases cs.len() - start,
    {
        let ghost rest = cs@.subrange(start as int, cs.len() as int);
        let ghost old_lines = lines@;
        match find_char_exec(&cs, '\n', start) {
            None => {
                proof {
                    lemma_find_char_from(cs@, '\n', start as int);
                    lemma_find_char_from(rest, '\n', 0);
                    assert forall|j: int| 0 <= j < rest.len() implies rest[j] != '\n' by {
                        assert(rest[j] == cs@[start + j]);
                    }
                    assert(find_char_from(rest, '\n', 0) is None) by {
                        if find_char_from(rest, '\n', 0) is Some {
                            let k = find_char_from(rest, '\n', 0)->0;
                            assert(rest[k] == '\n');
                        }
                    }
                }
                let line = slice_chars(&cs, start, cs.len());
                lines.push(string_of(&line));
                proof {
                    assert(lines_view(lines@) =~= lines_view(old_lines).push(rest));
                    assert(split_lines(rest) == seq![rest]);
                    assert(cs@.subrange(cs.len() as int, cs.len() as int) =~= Seq::<char>::empty());
                    assert(lines_view(lines@) =~= lines_view(old_lines) + seq![rest]);
                }
                start = cs.len();
            },
            Some(e) => {
                proof {
                    lemma_find_char_from(cs@, '\n', start as int);
                    lemma_find_char_from(rest, '\n', 0);
                    assert(rest[e - start] == '\n');
                    assert forall|j: int| 0 <= j < e - start implies rest[j] != '\n' by {
                        assert(rest[j] == cs@[start + j]);
                    }
                    assert(find_char_from(rest, '\n', 0) == Some((e - start) as int)) by {
                        match find_char_from(rest, '\n', 0) {
                            Some(k) => {
                                if k < e - start {
                                    assert(rest[k] != '\n');
                                } else if k > e - start {
                                }
                            },
                            None => {
                                assert(rest[e - start] != '\n');
                            },
                        }
                    }
                }
                let body = slice_chars(&cs, start, e);
                let n = body.len();
                let line = if n > 0 && body[n - 1] == '\r' {
                    slice_chars(&body, 0, n - 1)
                } else {
                    body
                };
                lines.push(string_of(&line));
                proof {
                    let piece = rest.subrange(0, e - start);
                    assert(piece =~= cs@.subrange(start as int, e as int));
                    if piece.len() > 0 && piece.last() == '\r' {
                        assert(line@ =~= piece.drop_last());
                    }
                    assert(line@ == strip_cr(piece));
                    assert(rest.subrange(e - start + 1, rest.len() as int) =~= cs@.subrange(
                        e + 1,
                        cs.len() as int,
                    ));
                    assert(split_lines(rest) == seq![strip_cr(piece)] + split_lines(
                        cs@.subrange(e + 1, cs.len() as int),
                    ));
                    assert(lines_view(lines@) =~= lines_view(old_lines).push(strip_cr(piece)));
                    assert(lines_view(lines@) + split_lines(cs@.subrange(e + 1, cs.len() as int))
                        =~= lines_view(old_lines) + split_lines(rest));
                }
                start = e + 1;
            },
        }
    }
    proof {
        assert(cs@.subrange(start as int, cs.len() as int) =~= Seq::<char>::empty());
        assert(lines_view(lines@) + Seq::<Seq<char>>::empty() =~= lines_view(lines@));
    }
    lines
}

/// The value a line assigns, as [`config_value`] describes it.
fn config_value_exec(v: &Vec<char>) -> (r: Option<String>)
    ensures
        r.deep_view() == config_value(v@),
{
    let t = trim_exec(v);
    let empty = chars_of("\"\"");
    if chars_eq(&t, &empty) {
        None
    } else {
        let cleaned = remove_char_exec(&t, '"');
        Some(string_of(&cleaned))
    }
}

/// `line` applied to the variables read so far.
fn apply_line_exec(line: &str, db_dir: Option<String>, db_var: Option<String>) -> (r: Result<
    (Option<String>, Option<String>),
    StateManagerError,
>)
    ensures
        match (r, apply_line((db_dir.deep_view(), db_var.deep_view()), line@)) {
            (Ok((d, v)), Ok((sd, sv))) => d.deep_view() == sd && v.deep_view() == sv,
            (Err(e), Err((k, m))) => e.spec_kind() == k && e.spec_message() == m,
            _ => false,
        },
{
    let cs = chars_of(line);
    match find_char_exec(&cs, '=', 0) {
        None => Err(
            StateManagerError::new(
                StateManagerErrorKind::InvalidConfigFileStructure,
                owned("Invalid config file structure"),
            ),
        ),
        Some(i) => {
            proof {
                lemma_find_char_from(cs@, '=', 0);
            }
            let key = slice_chars(&cs, 0, i);
            let value = slice_chars(&cs, i + 1, cs.len());
            let tk = trim_exec(&key);
            let dir_name = chars_of("db_dir");
            let var_name = chars_of("db_var");
            if chars_eq(&tk, &dir_name) {
                Ok((config_value_exec(&value), db_var))
            } else if chars_eq(&tk, &var_name) {
                Ok((db_dir, config_value_exec(&value)))
            } else {
                let k = string_of(&key);
                let v = string_of(&value);
                let message = concat4(
                    "State manager encountered variable not being tracked ",
                    k.as_str(),
                    " = ",
                    v.as_str(),
                );
                Err(StateManagerError::new(StateManagerErrorKind::UnknownStateVariable, message))
            }
        },
    }
}

/// The variables that the lines of a configuration file set, as
/// [`parse_config`] describes them.
pub fn read_config(ls: &Vec<String>) -> (r: Result<(Option<String>, Option<String>), StateManagerError>)
    ensures
        match (r, parse_config(lines_view(ls@))) {
            (Ok((d, v)), Ok((sd, sv))) => d.deep_view() == sd && v.deep_view() == sv,
            (Err(e), Err((k, m))) => e.spec_kind() == k && e.spec_message() == m,
            _ => false,
        },
{
    let ghost lv = lines_view(ls@);
    let mut db_dir: Option<String> = None;
    let mut db_var: Option<String> = None;
    let mut i: usize = 0;
    while i < ls.len()
        invariant
            i <= ls.len(),
            lv == lines_view(ls@),
            parse_config(lv.subrange(0, i as int)) == Ok::<ConfigVars, ConfigFailure>(
                (db_dir.deep_view(), db_var.deep_view()),
            ),
        decreases ls.len() - i,
    {
        let ghost prefix = lv.subrange(0, i + 1);
        assert(prefix.drop_last() =~= lv.subrange(0, i as int));
        assert(prefix.last() == ls@[i as int]@);
        match apply_line_exec(ls[i].as_str(), db_dir, db_var) {
            Err(e) => {
                proof {
                    assert(parse_config(prefix) == apply_line(
                        (db_dir.deep_view(), db_var.deep_view()),
                        prefix.last(),
                    ));
                    assert(parse_config(lv.subrange(0, i + 1)) is Err);
                    lemma_parse_config_err(lv, i + 1);
                }
                return Err(e);
            },
            Ok((d, v)) => {
                db_dir = d;
                db_var = v;
            },
        }
        i = i + 1;
    }
    assert(lv.subrange(0, ls.len() as int) =~= lv);
    Ok((db_dir, db_var))
}

/// Whether a rewrite of `var` can be made in `contents`: where `var` first
/// occurs, a newline follows.
pub fn is_line_terminated(contents: &str, var: &str) -> (r: bool)
    ensures
        r == line_terminated(contents@, var@),
{
    let cs = chars_of(contents);
    let vs = chars_of(var);
    match find_exec(&cs, &vs) {
        None => true,
        Some(i) => find_char_exec(&cs, '\n', i).is_some(),
    }
}

/// The text with `var` set to `val`, as [`update_text`] describes it.
fn update_text_exec(contents: &str, var: &str, val: &str) -> (r: String)
    requires
        line_terminated(contents@, var@),
    ensures
        r@ == update_text(contents@, var@, val@),
{
    let cs = chars_of(contents);
    let vs = chars_of(var);
    match find_exec(&cs, &vs) {
        None => owned(contents),
        Some(i) => {
            proof {
                lemma_find_from(cs@, vs@, 0);
            }
            match find_char_exec(&cs, '\n', i) {
                None => owned(contents),
                Some(e) => {
                    proof {
                        lemma_find_char_from(cs@, '\n', i as int);
                    }
                    let before = string_of(&slice_chars(&cs, 0, i));
                    let after = string_of(&slice_chars(&cs, e, cs.len()));
                    let padded_val = pad_sides(val);
                    concat5(before.as_str(), var, " = ", padded_val.as_str(), after.as_str())
                },
            }
        },
    }
}


// ------------------------------------------------------------------
// Laws of the file format
// ------------------------------------------------------------------

/// The line that sets `key` to `val`, as a rewrite writes it.
pub open spec fn assignment(key: Seq<char>, val: Seq<char>) -> Seq<char> {
    key + " = "@ + padded(val)
}

/// A configuration file that sets `db_dir` to `dir` and `db_var` to `var`.
pub open spec fn render_config(dir: Seq<char>, var: Seq<char>) -> Seq<char> {
    assignment("db_dir"@, dir) + "\n"@ + assignment("db_var"@, var) + "\n"@
}

/// What reading back a written value gives: the empty value reads as unset.
pub open spec fn stored_value(v: Seq<char>) -> Option<Seq<char>> {
    if v.len() == 0 {
        None
    } else {
        Some(v)
    }
}

/// A value that survives being written and read back: no quotes, no newline.
pub open spec fn plain_value(v: Seq<char>) -> bool {
    !v.contains('"') && !v.contains('\n')
}

proof fn lemma_literals()
    ensures
        "db_dir"@ == seq!['d', 'b', '_', 'd', 'i', 'r'],
        "db_var"@ == seq!['d', 'b', '_', 'v', 'a', 'r'],
        " = "@ == seq![' ', '=', ' '],
        "\""@ == seq!['"'],
        "\n"@ == seq!['\n'],
        "\"\""@ == seq!['"', '"'],
{
    reveal_strlit("db_dir");
    reveal_strlit("db_var");
    reveal_strlit(" = ");
    reveal_strlit("\"");
    reveal_strlit("\n");
    reveal_strlit("\"\"");
    assert("db_dir"@ =~= seq!['d', 'b', '_', 'd', 'i', 'r']);
    assert("db_var"@ =~= seq!['d', 'b', '_', 'v', 'a', 'r']);
    assert(" = "@ =~= seq![' ', '=', ' ']);
    assert("\""@ =~= seq!['"']);
    assert("\n"@ =~= seq!['\n']);
    assert("\"\""@ =~= seq!['"', '"']);
}

/// A search for `c` skips a prefix that does not hold `c`.
proof fn lemma_find_char_skip(x: Seq<char>, rest: Seq<char>, c: char)
    requires
        !x.contains(c),
    ensures
        find_char_from(x + rest, c, 0) == (match find_char_from(rest, c, 0) {
            Some(k) => Some(k + x.len()),
            None => None,
        }),
{
    lemma_find_char_from(x, c, 0);
    if find_char_from(x, c, 0) is Some {
        let k = find_char_from(x, c, 0)->0;
        assert(x[k] == c);
    }
    lemma_find_char_concat(x, rest, c, 0);
}

/// The first line of `x` + newline + `rest` is `x`.
proof fn lemma_split_line(x: Seq<char>, rest: Seq<char>)
    requires
        !x.contains('\n'),
    ensures
        split_lines(x + seq!['\n'] + rest) == seq![strip_cr(x)] + split_lines(rest),
{
    let s = x + seq!['\n'] + rest;
    assert(s =~= x + (seq!['\n'] + rest));
    lemma_find_char_skip(x, seq!['\n'] + rest, '\n');
    assert(find_char_from(seq!['\n'] + rest, '\n', 0) == Some(0int));
    assert(s.subrange(0, x.len() as int) =~= x);
    assert(s.subrange(x.len() as int + 1, s.len() as int) =~= rest);
}

/// `key = "val"` sets `key` to the stored form of `val`.
proof fn lemma_apply_assignment(acc: ConfigVars, key: Seq<char>, val: Seq<char>)
    requires
        key == "db_dir"@ || key == "db_var"@,
        !val.contains('"'),
    ensures
        apply_line(acc, assignment(key, val)) == (if key == "db_dir"@ {
            Ok::<ConfigVars, ConfigFailure>((stored_value(val), acc.1))
        } else {
            Ok::<ConfigVars, ConfigFailure>((acc.0, stored_value(val)))
        }),
{
    lemma_literals();
    let line = assignment(key, val);
    let q = seq!['"'];
    assert(line =~= key + (seq![' ', '=', ' '] + (q + val + q)));
    assert(!key.contains('=')) by {
        if key.contains('=') {
            let k = choose|k: int| 0 <= k < key.len() && key[k] == '=';
            assert(key[k] != '=');
        }
    }
    lemma_find_char_skip(key, seq![' ', '=', ' '] + (q + val + q), '=');
    let t = seq![' ', '=', ' '] + (q + val + q);
    assert(t[0] == ' ');
    assert(t[1] == '=');
    assert(find_char_from(t, '=', 1) == Some(1int));
    assert(find_char_from(t, '=', 0) == Some(1int));
    let k = line.subrange(0, key.len() as int + 1);
    let v = line.subrange(key.len() as int + 2, line.len() as int);
    assert(k =~= key + seq![' ']);
    assert(v =~= seq![' '] + (q + val + q));
    // the key trims to itself
    assert(trim_start(k) == k);
    assert(k.drop_last() =~= key);
    assert(is_ws(' '));
    assert(!is_ws('r'));
    assert(trim_end(key) == key);
    assert(trim(k) == key);
    // the value trims to the quoted value
    assert(v.drop_first() =~= q + val + q);
    assert(!is_ws('"'));
    assert(trim_start(q + val + q) == q + val + q);
    assert(trim_start(v) == q + val + q);
    assert(trim_end(q + val + q) == q + val + q);
    assert(trim(v) == q + val + q);
    if val.len() == 0 {
        assert(q + val + q =~= seq!['"', '"']);
        assert(config_value(v) == None::<Seq<char>>);
    } else {
        assert((q + val + q).len() != 2);
        assert(q + val + q != seq!['"', '"']);
        lemma_remove_char_concat(q + val, q, '"');
        lemma_remove_char_concat(q, val, '"');
        lemma_remove_char_absent(val, '"');
        assert(remove_char(q, '"') =~= Seq::<char>::empty()) by {
            assert(q.last() == '"');
            assert(q.drop_last() =~= Seq::<char>::empty());
            assert(remove_char(Seq::<char>::empty(), '"') =~= Seq::<char>::empty());
        }
        assert(remove_char(q + val + q, '"') =~= val);
        assert(config_value(v) == Some(val));
    }
    assert(split_once(line, '=') == Some((k, v)));
}

/// Reading a rendered configuration gives back its values.
pub proof fn lemma_parse_render(dir: Seq<char>, var: Seq<char>)
    requires
        plain_value(dir),
        plain_value(var),
    ensures
        parse_config(split_lines(render_config(dir, var))) == Ok::<ConfigVars, ConfigFailure>(
            (stored_value(dir), stored_value(var)),
        ),
{
    lemma_literals();
    let l1 = assignment("db_dir"@, dir);
    let l2 = assignment("db_var"@, var);
    let q = seq!['"'];
    assert(l1 =~= seq!['d', 'b', '_', 'd', 'i', 'r', ' ', '=', ' ', '"'] + dir + q);
    assert(l2 =~= seq!['d', 'b', '_', 'v', 'a', 'r', ' ', '=', ' ', '"'] + var + q);
    assert(!l1.contains('\n')) by {
        if l1.contains('\n') {
            let k = choose|k: int| 0 <= k < l1.len() && l1[k] == '\n';
            if 10 <= k < 10 + dir.len() {
                assert(dir[k - 10] == '\n');
            }
        }
    }
    assert(!l2.contains('\n')) by {
        if l2.contains('\n') {
            let k = choose|k: int| 0 <= k < l2.len() && l2[k] == '\n';
            if 10 <= k < 10 + var.len() {
                assert(var[k - 10] == '\n');
            }
        }
    }
    assert(strip_cr(l1) == l1);
    assert(strip_cr(l2) == l2);
    let s = render_config(dir, var);
    assert(s =~= l1 + seq!['\n'] + (l2 + seq!['\n'] + Seq::<char>::empty()));
    lemma_split_line(l1, l2 + seq!['\n'] + Seq::<char>::empty());
    lemma_split_line(l2, Seq::<char>::empty());
    let lines = split_lines(s);
    assert(lines =~= seq![l1, l2]);
    assert(lines.drop_last() =~= seq![l1]);
    assert(seq![l1].drop_last() =~= Seq::<Seq<char>>::empty());
    lemma_apply_assignment((None, None), "db_dir"@, dir);
    lemma_apply_assignment((stored_value(dir), None), "db_var"@, var);
    assert(parse_config(Seq::<Seq<char>>::empty()) == Ok::<ConfigVars, ConfigFailure>((None, None)));
    assert(seq![l1].last() == l1);
    assert(parse_config(seq![l1]) == Ok::<ConfigVars, ConfigFailure>((stored_value(dir), None)));
    assert(lines.last() == l2);
    assert(parse_config(lines) == apply_line((stored_value(dir), None), l2));
}

/// Rewriting `db_dir` in a rendered configuration renders the new value.
pub proof fn lemma_update_dir(dir: Seq<char>, var: Seq<char>, val: Seq<char>)
    requires
        !dir.contains('\n'),
    ensures
        update_text(render_config(dir, var), "db_dir"@, val) == render_config(val, var),
{
    lemma_literals();
    let s = render_config(dir, var);
    let key = "db_dir"@;
    let l1 = assignment(key, dir);
    let tail = seq!['\n'] + assignment("db_var"@, var) + seq!['\n'];
    assert(s =~= l1 + tail);
    assert(s.subrange(0, 6) =~= key);
    lemma_find_prefix(s, key);
    let q = seq!['"'];
    assert(l1 =~= seq!['d', 'b', '_', 'd', 'i', 'r', ' ', '=', ' ', '"'] + dir + q);
    assert(!l1.contains('\n')) by {
        if l1.contains('\n') {
            let k = choose|k: int| 0 <= k < l1.len() && l1[k] == '\n';
            if 10 <= k < 10 + dir.len() {
                assert(dir[k - 10] == '\n');
            }
        }
    }
    lemma_find_char_skip(l1, tail, '\n');
    assert(find_char_from(tail, '\n', 0) == Some(0int));
    assert(find_char_from(s, '\n', 0) == Some(l1.len() as int));
    assert(s.subrange(0, 0) =~= Seq::<char>::empty());
    assert(s.subrange(l1.len() as int, s.len() as int) =~= tail);
    assert(update_text(s, key, val) =~= render_config(val, var));
}


/// In a rendered configuration, `db_var` does not occur before the second line.
proof fn lemma_no_key_before(dir: Seq<char>, var: Seq<char>)
    requires
        !contains_seq(dir, "db_var"@),
    ensures
        forall|j: int|
            0 <= j < dir.len() + 12 ==> !occurs_at(render_config(dir, var), "db_var"@, j),
{
    lemma_literals();
    let s = render_config(dir, var);
    let key = "db_var"@;
    let q = seq!['"'];
    let l1 = assignment("db_dir"@, dir);
    let pre = seq!['d', 'b', '_', 'd', 'i', 'r', ' ', '=', ' ', '"'];
    assert(l1 =~= pre + dir + q);
    assert(s =~= pre + dir + q + seq!['\n'] + assignment(key, var) + seq!['\n']);
    let pos = dir.len() + 12;
    assert forall|j: int| 0 <= j < pos implies !occurs_at(s, key, j) by {
        if occurs_at(s, key, j) {
            assert(s.subrange(j, j + 6) == key);
            assert(s[j] == 'd') by {
                assert(s.subrange(j, j + 6)[0] == key[0]);
            }
            assert(s[j + 1] == 'b') by {
                assert(s.subrange(j, j + 6)[1] == key[1]);
            }
            assert(s[j + 3] == 'v') by {
                assert(s.subrange(j, j + 6)[3] == key[3]);
            }
            if j < 10 {
                assert(s[j] == l1[j]);
                if j == 0 {
                    assert(s[3] == 'd');
                } else if j == 3 {
                    assert(s[4] == 'i');
                }
            } else if j + 6 <= 10 + dir.len() {
                assert(dir.subrange(j - 10, j - 10 + 6) =~= s.subrange(j, j + 6));
                assert(occurs_at(dir, key, j - 10));
            } else if j < 10 + dir.len() {
                let m = 10 + dir.len() as int;
                assert(s[m] == '"');
                assert(s.subrange(j, j + 6)[m - j] == key[m - j]);
            } else if j == 10 + dir.len() {
                assert(s[j] == '"');
            } else {
                assert(s[j] == '\n');
            }
        }
    }
}

/// Rewriting `db_var` in a rendered configuration renders the new value.
pub proof fn lemma_update_var(dir: Seq<char>, var: Seq<char>, val: Seq<char>)
    requires
        !var.contains('\n'),
        !contains_seq(dir, "db_var"@),
    ensures
        update_text(render_config(dir, var), "db_var"@, val) == render_config(dir, val),
{
    lemma_literals();
    let s = render_config(dir, var);
    let key = "db_var"@;
    let q = seq!['"'];
    let l1 = assignment("db_dir"@, dir);
    let l2 = assignment(key, var);
    let head = l1 + seq!['\n'];
    let pos = head.len() as int;
    assert(l1 =~= seq!['d', 'b', '_', 'd', 'i', 'r', ' ', '=', ' ', '"'] + dir + q);
    assert(l2 =~= seq!['d', 'b', '_', 'v', 'a', 'r', ' ', '=', ' ', '"'] + var + q);
    assert(s =~= head + (l2 + seq!['\n']));
    assert(pos == dir.len() + 12);
    // the first occurrence of the key is at the start of the second line
    assert(occurs_at(s, key, pos)) by {
        assert(s.subrange(pos, pos + 6) =~= key);
    }
    lemma_no_key_before(dir, var);
    assert(find(s, key) == Some(pos)) by {
        lemma_find_from(s, key, 0);
        match find(s, key) {
            Some(k) => {
                if k < pos {
                } else if k > pos {
                }
            },
            None => {},
        }
    }
    assert(!l2.contains('\n')) by {
        if l2.contains('\n') {
            let k = choose|k: int| 0 <= k < l2.len() && l2[k] == '\n';
            if 10 <= k < 10 + var.len() {
                assert(var[k - 10] == '\n');
            }
        }
    }
    let from_key = l2 + seq!['\n'];
    assert(s.subrange(pos, s.len() as int) =~= from_key);
    lemma_find_char_skip(l2, seq!['\n'], '\n');
    assert(find_char_from(seq!['\n'], '\n', 0) == Some(0int));
    lemma_find_char_shift(head, from_key, '\n', 0);
    assert(s =~= head + from_key);
    assert(find_char_from(s, '\n', pos) == Some(pos + l2.len()));
    assert(s.subrange(0, pos) =~= head);
    assert(s.subrange(pos + l2.len(), s.len() as int) =~= seq!['\n']);
    assert(update_text(s, key, val) =~= render_config(dir, val));
}

/// Reading back after a write: once `db_dir` (or `db_var`) has been set to a
/// non-empty plain value in a configuration file, reading the rewritten file
/// gives that value for the variable and leaves the other one as it was.
pub proof fn law_config_read_after_write(
    dir: Seq<char>,
    var: Seq<char>,
    key: Seq<char>,
    val: Seq<char>,
)
    requires
        plain_value(dir),
        plain_value(var),
        plain_value(val),
        val.len() > 0,
        key == "db_dir"@ || key == "db_var"@,
        key == "db_var"@ ==> !contains_seq(dir, "db_var"@),
    ensures
        line_terminated(render_config(dir, var), key),
        key == "db_dir"@ ==> parse_config(split_lines(update_text(render_config(dir, var), key, val)))
            == Ok::<ConfigVars, ConfigFailure>((Some(val), stored_value(var))),
        key == "db_var"@ ==> parse_config(split_lines(update_text(render_config(dir, var), key, val)))
            == Ok::<ConfigVars, ConfigFailure>((stored_value(dir), Some(val))),
{
    lemma_literals();
    assert("db_dir"@ != "db_var"@) by {
        assert("db_dir"@[3] != "db_var"@[3]);
    }
    if key == "db_dir"@ {
        lemma_update_dir(dir, var, val);
        lemma_parse_render(val, var);
        lemma_update_terminated_dir(dir, var);
    } else {
        lemma_update_var(dir, var, val);
        lemma_parse_render(dir, val);
        lemma_update_terminated_var(dir, var);
    }
}

proof fn lemma_update_terminated_dir(dir: Seq<char>, var: Seq<char>)
    requires
        !dir.contains('\n'),
    ensures
        line_terminated(render_config(dir, var), "db_dir"@),
{
    let s = render_config(dir, var);
    lemma_literals();
    assert(s.subrange(0, 6) =~= "db_dir"@);
    lemma_find_prefix(s, "db_dir"@);
    lemma_newline_after(s, 0);
}

proof fn lemma_update_terminated_var(dir: Seq<char>, var: Seq<char>)
    requires
        !var.contains('\n'),
    ensures
        line_terminated(render_config(dir, var), "db_var"@),
{
    let s = render_config(dir, var);
    lemma_literals();
    if find(s, "db_var"@) is Some {
        let i = find(s, "db_var"@)->0;
        lemma_find_from(s, "db_var"@, 0);
        lemma_newline_after(s, i);
    }
}

/// A rendered configuration ends with a newline, so one follows every index.
proof fn lemma_newline_after(s: Seq<char>, i: int)
    requires
        0 <= i < s.len(),
        s.last() == '\n',
    ensures
        find_char_from(s, '\n', i) is Some,
    decreases s.len() - i,
{
    if s[i] != '\n' {
        if i + 1 < s.len() {
            lemma_newline_after(s, i + 1);
        }
    }
}

/// A rewrite of the file replaces the line of the variable by
/// `var = "val"`.
proof fn lemma_update_is_rewrite(contents: Seq<char>, var: Seq<char>, val: Seq<char>)
    ensures
        update_text(contents, var, val) == rewrite_line(contents, var, " = "@ + padded(val)),
{
    if find(contents, var) is Some {
        let i = find(contents, var)->0;
        if find_char_from(contents, '\n', i) is Some {
            assert(update_text(contents, var, val) =~= rewrite_line(
                contents,
                var,
                " = "@ + padded(val),
            ));
        }
    }
}

/// Setting a variable of the configuration file twice leaves what the second
/// setting wrote: the first value is forgotten.  (The key and the first value
/// hold no newline, as a line of the file cannot.)
pub proof fn law_config_update_last_wins(
    contents: Seq<char>,
    key: Seq<char>,
    first: Seq<char>,
    second: Seq<char>,
)
    requires
        line_terminated(contents, key),
        !key.contains('\n'),
        !first.contains('\n'),
    ensures
        line_terminated(update_text(contents, key, first), key),
        update_text(update_text(contents, key, first), key, second) == update_text(
            contents,
            key,
            second,
        ),
{
    lemma_literals();
    let line = " = "@ + padded(first);
    assert(line =~= seq![' ', '=', ' ', '"'] + first + seq!['"']);
    assert(!line.contains('\n')) by {
        if line.contains('\n') {
            let k = choose|k: int| 0 <= k < line.len() && line[k] == '\n';
            if 4 <= k < 4 + first.len() {
                assert(first[k - 4] == '\n');
            }
        }
    }
    lemma_update_is_rewrite(contents, key, first);
    lemma_update_is_rewrite(update_text(contents, key, first), key, second);
    lemma_update_is_rewrite(contents, key, second);
    lemma_rewrite_line_twice(contents, key, line, " = "@ + padded(second));
}

/// The key that a line assigns: the text before its first `=`, trimmed;
/// `None` for a line without `=`.
pub open spec fn line_key(line: Seq<char>) -> Option<Seq<char>> {
    match split_once(line, '=') {
        Some((k, _)) => Some(trim(k)),
        None => None,
    }
}

/// Reading the lines `lines` on from the outcome `start` of the lines before
/// them.
pub open spec fn parse_from(
    start: Result<ConfigVars, ConfigFailure>,
    lines: Seq<Seq<char>>,
) -> Result<ConfigVars, ConfigFailure>
    decreases lines.len(),
{
    if lines.len() == 0 {
        start
    } else {
        match parse_from(start, lines.drop_last()) {
            Err(e) => Err(e),
            Ok(acc) => apply_line(acc, lines.last()),
        }
    }
}

/// A text that is empty or ends with a newline splits into its own lines
/// followed by those of what comes after it.
proof fn lemma_split_concat(b: Seq<char>, rest: Seq<char>)
    requires
        b.len() == 0 || b.last() == '\n',
    ensures
        split_lines(b + rest) == split_lines(b) + split_lines(rest),
    decreases b.len(),
{
    if b.len() == 0 {
        assert(b + rest =~= rest);
        assert(split_lines(b) + split_lines(rest) =~= split_lines(rest));
    } else {
        lemma_find_char_from(b, '\n', 0);
        if find_char_from(b, '\n', 0) is None {
            assert(b[b.len() - 1] == '\n');
        }
        let i = find_char_from(b, '\n', 0)->0;
        lemma_find_char_concat(b, rest, '\n', 0);
        let s = b + rest;
        let b2 = b.subrange(i + 1, b.len() as int);
        assert(s.subrange(0, i) =~= b.subrange(0, i));
        assert(s.subrange(i + 1, s.len() as int) =~= b2 + rest);
        if b2.len() > 0 {
            assert(b2.last() == b.last());
        }
        lemma_split_concat(b2, rest);
        assert(split_lines(s) == seq![strip_cr(b.subrange(0, i))] + split_lines(b2 + rest));
        assert(split_lines(b) == seq![strip_cr(b.subrange(0, i))] + split_lines(b2));
        assert(split_lines(s) =~= split_lines(b) + split_lines(rest));
    }
}

/// Reading a list of lines is reading its first part, then the rest from there.
proof fn lemma_parse_concat(front: Seq<Seq<char>>, back: Seq<Seq<char>>)
    ensures
        parse_config(front + back) == parse_from(parse_config(front), back),
    decreases back.len(),
{
    if back.len() == 0 {
        assert(front + back =~= front);
    } else {
        assert((front + back).drop_last() =~= front + back.drop_last());
        assert((front + back).last() == back.last());
        lemma_parse_concat(front, back.drop_last());
    }
}

/// Once reading has failed, further lines keep the failure.
proof fn lemma_parse_from_err(e: ConfigFailure, lines: Seq<Seq<char>>)
    ensures
        parse_from(Err(e), lines) == Err::<ConfigVars, ConfigFailure>(e),
    decreases lines.len(),
{
    if lines.len() > 0 {
        lemma_parse_from_err(e, lines.drop_last());
    }
}

/// Lines that never assign `key` leave its variable as it was, and what they
/// do to the other variable does not depend on `key`'s value.
proof fn lemma_parse_from_other(
    acc1: ConfigVars,
    acc2: ConfigVars,
    lines: Seq<Seq<char>>,
    key: Seq<char>,
)
    requires
        key == "db_dir"@ || key == "db_var"@,
        key == "db_dir"@ ==> acc1.1 == acc2.1,
        key == "db_var"@ ==> acc1.0 == acc2.0,
        parse_from(Ok(acc1), lines) is Ok,
        forall|j: int| 0 <= j < lines.len() ==> line_key(#[trigger] lines[j]) != Some(key),
    ensures
        key == "db_dir"@ ==> parse_from(Ok(acc1), lines)->Ok_0.0 == acc1.0 && parse_from(
            Ok(acc2),
            lines,
        ) == Ok::<ConfigVars, ConfigFailure>((acc2.0, parse_from(Ok(acc1), lines)->Ok_0.1)),
        key == "db_var"@ ==> parse_from(Ok(acc1), lines)->Ok_0.1 == acc1.1 && parse_from(
            Ok(acc2),
            lines,
        ) == Ok::<ConfigVars, ConfigFailure>((parse_from(Ok(acc1), lines)->Ok_0.0, acc2.1)),
    decreases lines.len(),
{
    lemma_literals();
    assert("db_dir"@ != "db_var"@) by {
        assert("db_dir"@[3] != "db_var"@[3]);
    }
    if lines.len() > 0 {
        let front = lines.drop_last();
        let l = lines.last();
        assert(line_key(lines[lines.len() - 1]) != Some(key));
        if parse_from(Ok(acc1), front) is Err {
            assert(parse_from(Ok(acc1), lines) is Err);
        }
        assert forall|j: int| 0 <= j < front.len() implies line_key(#[trigger] front[j]) != Some(
            key,
        ) by {
            assert(front[j] == lines[j]);
        }
        lemma_parse_from_other(acc1, acc2, front, key);
    }
}

/// The lines of a text with one line `x` in the middle: those before it,
/// `x` itself, and those after it.
proof fn lemma_lines_around(before: Seq<char>, x: Seq<char>, after: Seq<char>)
    requires
        before.len() == 0 || before.last() == '\n',
        !x.contains('\n'),
    ensures
        split_lines(before + x + seq!['\n'] + after) == (split_lines(before) + seq![strip_cr(x)])
            + split_lines(after),
{
    let rest = x + seq!['\n'] + after;
    assert(before + x + seq!['\n'] + after =~= before + rest);
    lemma_split_concat(before, rest);
    lemma_split_line(x, after);
    assert(split_lines(before + rest) =~= (split_lines(before) + seq![strip_cr(x)]) + split_lines(
        after,
    ));
}

/// Where `key` first occurs at the start of the line `line`, rewriting it
/// replaces exactly that line.
proof fn lemma_update_at_line(
    before: Seq<char>,
    line: Seq<char>,
    after: Seq<char>,
    key: Seq<char>,
    val: Seq<char>,
)
    requires
        !line.contains('\n'),
        find(before + line + seq!['\n'] + after, key) == Some(before.len() as int),
    ensures
        line_terminated(before + line + seq!['\n'] + after, key),
        update_text(before + line + seq!['\n'] + after, key, val) == before + assignment(key, val)
            + seq!['\n'] + after,
{
    lemma_literals();
    let contents = before + line + seq!['\n'] + after;
    let nl_after = seq!['\n'] + after;
    let i = before.len() as int;
    assert(contents =~= before + (line + nl_after));
    lemma_find_char_shift(before, line + nl_after, '\n', 0);
    assert(find_char_from(nl_after, '\n', 0) == Some(0int));
    lemma_find_char_skip(line, nl_after, '\n');
    assert(find_char_from(contents, '\n', i) == Some(i + line.len()));
    assert(contents.subrange(0, i) =~= before);
    assert(contents.subrange(i + line.len(), contents.len() as int) =~= nl_after);
    assert(update_text(contents, key, val) =~= before + assignment(key, val) + seq!['\n'] + after);
}

/// The line `key = "val"` holds no newline.
proof fn lemma_assignment_one_line(key: Seq<char>, val: Seq<char>)
    requires
        key == "db_dir"@ || key == "db_var"@,
        !val.contains('\n'),
    ensures
        !assignment(key, val).contains('\n'),
        strip_cr(assignment(key, val)) == assignment(key, val),
{
    lemma_literals();
    let asg = assignment(key, val);
    let q = seq!['"'];
    assert(asg =~= key + (seq![' ', '=', ' ', '"'] + val + q));
    assert(!asg.contains('\n')) by {
        if asg.contains('\n') {
            let k = choose|k: int| 0 <= k < asg.len() && asg[k] == '\n';
            if k < 6 {
                assert(asg[k] == key[k]);
            } else if 10 <= k < 10 + val.len() {
                assert(val[k - 10] == '\n');
            }
        }
    }
}

/// Blanks: whitespace other than a newline.
pub open spec fn blanks(s: Seq<char>) -> bool {
    forall|j: int| 0 <= j < s.len() ==> is_ws(#[trigger] s[j]) && s[j] != '\n'
}

/// Leading whitespace is trimmed away.
proof fn lemma_trim_start_blank_prefix(ws: Seq<char>, s: Seq<char>)
    requires
        blanks(ws),
    ensures
        trim_start(ws + s) == trim_start(s),
    decreases ws.len(),
{
    if ws.len() == 0 {
        assert(ws + s =~= s);
    } else {
        assert((ws + s)[0] == ws[0]);
        assert((ws + s).drop_first() =~= ws.drop_first() + s);
        assert(blanks(ws.drop_first())) by {
            assert forall|j: int| 0 <= j < ws.drop_first().len() implies is_ws(
                #[trigger] ws.drop_first()[j],
            ) && ws.drop_first()[j] != '\n' by {
                assert(ws.drop_first()[j] == ws[j + 1]);
            }
        }
        lemma_trim_start_blank_prefix(ws.drop_first(), s);
    }
}

/// Blanks before a line change neither the key it assigns nor, where it can
/// be read, what reading it does.
proof fn lemma_blank_prefix_line(acc: ConfigVars, ws: Seq<char>, l: Seq<char>)
    requires
        blanks(ws),
    ensures
        line_key(ws + l) == line_key(l),
        apply_line(acc, l) is Ok ==> apply_line(acc, ws + l) == apply_line(acc, l),
        apply_line(acc, ws + l) is Ok ==> apply_line(acc, l) is Ok,
{
    assert(!is_ws('='));
    assert(!ws.contains('=')) by {
        if ws.contains('=') {
            let k = choose|k: int| 0 <= k < ws.len() && ws[k] == '=';
            assert(is_ws(ws[k]));
        }
    }
    lemma_find_char_skip(ws, l, '=');
    let s = ws + l;
    if find_char_from(l, '=', 0) is Some {
        lemma_find_char_from(l, '=', 0);
        let i = find_char_from(l, '=', 0)->0;
        let k = l.subrange(0, i);
        assert(s.subrange(0, i + ws.len()) =~= ws + k);
        assert(s.subrange(i + ws.len() + 1, s.len() as int) =~= l.subrange(i + 1, l.len() as int));
        lemma_trim_start_blank_prefix(ws, k);
        assert(trim(ws + k) == trim(k));
    }
}

/// Replacing a line that assigns `key` by `key = "val"` (after the blanks
/// `indent`), where no later line assigns `key`, reads as before but for
/// `key`, which reads as `val`.
proof fn lemma_parse_replaced_line(
    pre: Seq<Seq<char>>,
    old_line: Seq<char>,
    post: Seq<Seq<char>>,
    indent: Seq<char>,
    key: Seq<char>,
    val: Seq<char>,
    vars: ConfigVars,
)
    requires
        key == "db_dir"@ || key == "db_var"@,
        blanks(indent),
        line_key(old_line) == Some(key),
        forall|j: int| 0 <= j < post.len() ==> line_key(#[trigger] post[j]) != Some(key),
        parse_config((pre + seq![old_line]) + post) == Ok::<ConfigVars, ConfigFailure>(vars),
        !val.contains('"'),
    ensures
        key == "db_dir"@ ==> parse_config((pre + seq![indent + assignment(key, val)]) + post)
            == Ok::<ConfigVars, ConfigFailure>((stored_value(val), vars.1)),
        key == "db_var"@ ==> parse_config((pre + seq![indent + assignment(key, val)]) + post)
            == Ok::<ConfigVars, ConfigFailure>((vars.0, stored_value(val))),
{
    lemma_literals();
    assert("db_dir"@ != "db_var"@) by {
        assert("db_dir"@[3] != "db_var"@[3]);
    }
    let asg = indent + assignment(key, val);
    lemma_parse_concat(pre + seq![old_line], post);
    lemma_parse_concat(pre + seq![asg], post);
    assert((pre + seq![old_line]).drop_last() =~= pre);
    assert((pre + seq![asg]).drop_last() =~= pre);
    if parse_config(pre + seq![old_line]) is Err {
        lemma_parse_from_err(parse_config(pre + seq![old_line])->Err_0, post);
    }
    if parse_config(pre) is Err {
        assert(parse_config(pre + seq![old_line]) is Err);
    }
    let acc = parse_config(pre)->Ok_0;
    let acc1 = parse_config(pre + seq![old_line])->Ok_0;
    assert(parse_config(pre + seq![old_line]) == apply_line(acc, old_line));
    assert(parse_config(pre + seq![asg]) == apply_line(acc, asg));
    lemma_apply_assignment(acc, key, val);
    lemma_blank_prefix_line(acc, indent, assignment(key, val));
    let acc2 = apply_line(acc, asg)->Ok_0;
    lemma_parse_from_other(acc1, acc2, post, key);
}

/// Trailing whitespace is removed only after a prefix that ends in another
/// character.
proof fn lemma_trim_end_keeps_prefix(s: Seq<char>, p: Seq<char>)
    requires
        p.len() > 0,
        p.len() <= s.len(),
        s.subrange(0, p.len() as int) == p,
        !is_ws(p.last()),
    ensures
        p.len() <= trim_end(s).len(),
        trim_end(s).subrange(0, p.len() as int) == p,
    decreases s.len(),
{
    if s.len() > 0 && is_ws(s.last()) {
        if s.len() == p.len() {
            assert(s.last() == p.last()) by {
                assert(s.subrange(0, p.len() as int)[p.len() - 1] == s[s.len() - 1]);
            }
        }
        assert(s.drop_last().subrange(0, p.len() as int) =~= s.subrange(0, p.len() as int));
        lemma_trim_end_keeps_prefix(s.drop_last(), p);
    }
}

/// A line of a readable configuration file that begins with `db_dir` (or
/// `db_var`) assigns that key.
proof fn lemma_line_begins_with_key(line: Seq<char>, key: Seq<char>, acc: ConfigVars)
    requires
        key == "db_dir"@ || key == "db_var"@,
        key.len() <= line.len(),
        line.subrange(0, key.len() as int) == key,
        apply_line(acc, line) is Ok,
    ensures
        line_key(line) == Some(key),
{
    lemma_literals();
    lemma_find_char_from(line, '=', 0);
    let idx = find_char_from(line, '=', 0)->0;
    assert(idx >= 6) by {
        if idx < 6 {
            assert(line[idx] == line.subrange(0, 6)[idx]);
            assert(key[idx] != '=');
        }
    }
    let k = line.subrange(0, idx);
    assert(k.subrange(0, 6) =~= key);
    assert(k[0] == 'd') by {
        assert(k[0] == k.subrange(0, 6)[0]);
    }
    assert(!is_ws('d'));
    assert(trim_start(k) == k);
    assert(key.last() == 'r');
    assert(!is_ws('r'));
    lemma_trim_end_keeps_prefix(k, key);
    let t = trim(k);
    assert(t == "db_dir"@ || t == "db_var"@);
    assert(t.len() == 6);
    assert(t =~= t.subrange(0, 6));
}

/// The line on which a key first occurs, after nothing but blanks, assigns
/// the key, when the file is readable.
proof fn lemma_key_line_assigns_key(
    before: Seq<char>,
    indent: Seq<char>,
    line: Seq<char>,
    after: Seq<char>,
    key: Seq<char>,
)
    requires
        key == "db_dir"@ || key == "db_var"@,
        before.len() == 0 || before.last() == '\n',
        blanks(indent),
        !line.contains('\n'),
        find(before + indent + line + seq!['\n'] + after, key) == Some(
            (before.len() + indent.len()) as int,
        ),
        parse_config(split_lines(before + indent + line + seq!['\n'] + after)) is Ok,
    ensures
        line_key(strip_cr(indent + line)) == Some(key),
{
    lemma_literals();
    let contents = before + indent + line + seq!['\n'] + after;
    let i = (before.len() + indent.len()) as int;
    lemma_find_from(contents, key, 0);
    assert(occurs_at(contents, key, i));
    // the key lies within the line
    assert(key.len() <= line.len()) by {
        if line.len() < key.len() {
            assert(contents[i + line.len()] == '\n');
            assert(contents.subrange(i, i + 6)[line.len() as int] == key[line.len() as int]);
        }
    }
    let l = strip_cr(line);
    assert(l.len() >= 6) by {
        if line.len() == 6 && line.len() > 0 && line.last() == '\r' {
            assert(line[5] == contents[i + 5]);
            assert(contents.subrange(i, i + 6)[5] == key[5]);
        }
    }
    assert(l.subrange(0, 6) =~= key) by {
        assert forall|j: int| 0 <= j < 6 implies l[j] == key[j] by {
            assert(l[j] == line[j]);
            assert(line[j] == contents[i + j]);
            assert(contents.subrange(i, i + 6)[j] == key[j]);
        }
    }
    // the blanks stay in front of the line when a carriage return goes
    let full = indent + line;
    assert(strip_cr(full) =~= indent + l) by {
        if line.last() == '\r' {
            assert(full.last() == line.last());
            assert(full.drop_last() =~= indent + line.drop_last());
        } else {
            assert(full.last() == line.last());
        }
    }
    assert(!full.contains('\n')) by {
        if full.contains('\n') {
            let k = choose|k: int| 0 <= k < full.len() && full[k] == '\n';
            if k < indent.len() {
                assert(indent[k] == full[k]);
            } else {
                assert(line[k - indent.len()] == full[k]);
            }
        }
    }
    // the line is read after the lines before it
    assert(contents =~= before + full + seq!['\n'] + after);
    lemma_lines_around(before, full, after);
    let pre = split_lines(before);
    let ol = strip_cr(full);
    lemma_parse_concat(pre + seq![ol], split_lines(after));
    assert((pre + seq![ol]).drop_last() =~= pre);
    if parse_config(pre + seq![ol]) is Err {
        lemma_parse_from_err(parse_config(pre + seq![ol])->Err_0, split_lines(after));
    }
    if parse_config(pre) is Err {
        assert(parse_config(pre + seq![ol]) is Err);
    }
    let acc = parse_config(pre)->Ok_0;
    lemma_blank_prefix_line(acc, indent, l);
    lemma_line_begins_with_key(l, key, acc);
}

/// A line of blanks and a line without newline, together, hold no newline.
proof fn lemma_indented_one_line(indent: Seq<char>, x: Seq<char>)
    requires
        blanks(indent),
        !x.contains('\n'),
    ensures
        !(indent + x).contains('\n'),
{
    let full = indent + x;
    if full.contains('\n') {
        let k = choose|k: int| 0 <= k < full.len() && full[k] == '\n';
        if k < indent.len() {
            assert(indent[k] == full[k]);
        } else {
            assert(x[k - indent.len()] == full[k]);
        }
    }
}

/// Agreement of the file and the state after an update: in a configuration
/// file that reads as the state's variables, where the first occurrence of
/// the key begins a line (`line`, ended by a newline), perhaps after blanks
/// (`indent`), and no later line assigns the key again, setting the key to a
/// non-empty plain value rewrites that line, and reading the rewritten file
/// gives the variables of the updated state.  The lines may come in any
/// order, with any spacing around `=`, and the other key may be assigned any
/// number of times.
pub proof fn law_config_agrees_after_update(
    st: StateView,
    before: Seq<char>,
    indent: Seq<char>,
    line: Seq<char>,
    after: Seq<char>,
    key: Seq<char>,
    val: Seq<char>,
)
    requires
        key == "db_dir"@ || key == "db_var"@,
        before.len() == 0 || before.last() == '\n',
        blanks(indent),
        !line.contains('\n'),
        find(before + indent + line + seq!['\n'] + after, key) == Some(
            (before.len() + indent.len()) as int,
        ),
        forall|j: int|
            0 <= j < split_lines(after).len() ==> line_key(#[trigger] split_lines(after)[j])
                != Some(key),
        parse_config(split_lines(before + indent + line + seq!['\n'] + after)) == Ok::<
            ConfigVars,
            ConfigFailure,
        >((st.0, st.1)),
        plain_value(val),
        val.len() > 0,
    ensures
        line_terminated(before + indent + line + seq!['\n'] + after, key),
        update_text(before + indent + line + seq!['\n'] + after, key, val) == before + indent
            + assignment(key, val) + seq!['\n'] + after,
        parse_config(split_lines(update_text(before + indent + line + seq!['\n'] + after, key, val)))
            == Ok::<ConfigVars, ConfigFailure>(
            (updated_state(st, key, val).0, updated_state(st, key, val).1),
        ),
{
    let head = before + indent;
    let contents = before + indent + line + seq!['\n'] + after;
    lemma_key_line_assigns_key(before, indent, line, after, key);
    lemma_update_at_line(head, line, after, key, val);
    lemma_assignment_one_line(key, val);
    lemma_indented_one_line(indent, line);
    lemma_indented_one_line(indent, assignment(key, val));
    assert(contents =~= before + (indent + line) + seq!['\n'] + after);
    lemma_lines_around(before, indent + line, after);
    let written = before + indent + assignment(key, val) + seq!['\n'] + after;
    assert(written =~= before + (indent + assignment(key, val)) + seq!['\n'] + after);
    lemma_lines_around(before, indent + assignment(key, val), after);
    assert(strip_cr(indent + assignment(key, val)) == indent + assignment(key, val)) by {
        assert((indent + assignment(key, val)).last() == assignment(key, val).last());
    }
    lemma_parse_replaced_line(
        split_lines(before),
        strip_cr(indent + line),
        split_lines(after),
        indent,
        key,
        val,
        (st.0, st.1),
    );
    reveal_strlit("db_dir");
    reveal_strlit("db_var");
    assert("db_dir"@[3] != "db_var"@[3]);
}

/// A fresh configuration file leaves both variables unset.
pub proof fn law_initial_config_unset()
    ensures
        "db_dir = \"\"\ndb_var = \"\"\n"@ == render_config(Seq::empty(), Seq::empty()),
        parse_config(split_lines("db_dir = \"\"\ndb_var = \"\"\n"@)) == Ok::<
            ConfigVars,
            ConfigFailure,
        >((None, None)),
{
    lemma_literals();
    reveal_strlit("db_dir = \"\"\ndb_var = \"\"\n");
    assert("db_dir = \"\"\ndb_var = \"\"\n"@ =~= render_config(Seq::empty(), Seq::empty()));
    lemma_parse_render(Seq::empty(), Seq::empty());
}

// ------------------------------------------------------------------
// The state
// ------------------------------------------------------------------

/// The configuration file: `path` when one is given, else
/// `tmgr_config.toml` in the executable's directory `exe_dir`.
pub open spec fn config_file(path: Option<Seq<char>>, exe_dir: Seq<char>) -> Seq<char> {
    match path {
        Some(p) => p,
        None => join_path(exe_dir, "tmgr_config.toml"@),
    }
}

/// The path of the configuration file, as [`config_file`] describes it.
pub fn config_path(path: Option<String>, exe_dir: &str) -> (p: String)
    ensures
        p@ == config_file(path.deep_view(), exe_dir@),
{
    match path {
        Some(p) => p,
        None => join_path_exec(exe_dir, "tmgr_config.toml"),
    }
}

/// The state manager's variables and the path of its configuration file.
pub struct State {
    db_dir: Option<String>,
    db_var: Option<String>,
    path: String,
}

/// A state as values: (`db_dir`, `db_var`, path of the configuration file).
pub type StateView = (Option<Seq<char>>, Option<Seq<char>>, Seq<char>);

impl View for State {
    type V = StateView;

    open spec fn view(&self) -> StateView {
        (self.spec_db_dir(), self.spec_db_var(), self.spec_path())
    }
}

/// The state after setting `key` to `value`: `db_dir` and `db_var` take the
/// value, any other key leaves the state as it was.
pub open spec fn updated_state(st: StateView, key: Seq<char>, value: Seq<char>) -> StateView {
    if key == "db_dir"@ {
        (Some(value), st.1, st.2)
    } else if key == "db_var"@ {
        (st.0, Some(value), st.2)
    } else {
        st
    }
}

/// The state after a sequence of settings, each a (key, value) pair, made in
/// order.
pub open spec fn apply_updates(st: StateView, updates: Seq<(Seq<char>, Seq<char>)>) -> StateView
    decreases updates.len(),
{
    if updates.len() == 0 {
        st
    } else {
        let last = updates.last();
        updated_state(apply_updates(st, updates.drop_last()), last.0, last.1)
    }
}

/// The configuration file stays where it is: whatever variables are set, and
/// whether or not a setting is refused, the state's path is unchanged.
pub proof fn law_updates_keep_path(st: StateView, updates: Seq<(Seq<char>, Seq<char>)>)
    ensures
        apply_updates(st, updates).2 == st.2,
    decreases updates.len(),
{
    if updates.len() > 0 {
        law_updates_keep_path(st, updates.drop_last());
    }
}

/// Setting `db_dir` gives it the value and leaves `db_var` and the path as
/// they were; setting `db_var` gives it the value and leaves `db_dir` and the
/// path as they were.
pub proof fn law_update_sets_only_its_variable(st: StateView, value: Seq<char>)
    ensures
        updated_state(st, "db_dir"@, value) == (Some(value), st.1, st.2),
        updated_state(st, "db_var"@, value) == (st.0, Some(value), st.2),
{
    reveal_strlit("db_dir");
    reveal_strlit("db_var");
    assert("db_dir"@[3] != "db_var"@[3]);
}

impl State {
    /// The database directory, if set.
    pub closed spec fn spec_db_dir(&self) -> Option<Seq<char>> {
        self.db_dir.deep_view()
    }

    /// The current database's name, if set.
    pub closed spec fn spec_db_var(&self) -> Option<Seq<char>> {
        self.db_var.deep_view()
    }

    /// The path of the configuration file.
    pub closed spec fn spec_path(&self) -> Seq<char> {
        self.path@
    }

    /// The path of the configuration file.
    pub fn get_path(&self) -> (p: String)
        ensures
            p@ == self.spec_path(),
    {
        self.path.clone()
    }

    /// The database directory, if set.
    pub fn get_db_dir(&self) -> (d: Option<String>)
        ensures
            d.deep_view() == self.spec_db_dir(),
    {
        match &self.db_dir {
            Some(d) => Some(d.clone()),
            None => None,
        }
    }

    /// The current database's name, if set.
    pub fn get_db_name(&self) -> (n: Option<String>)
        ensures
            n.deep_view() == self.spec_db_var(),
    {
        match &self.db_var {
            Some(v) => Some(v.clone()),
            None => None,
        }
    }

    /// The state read from the configuration file.
    ///
    /// The file is at `path`, or, when no path is given, the file
    /// `tmgr_config.toml` in `exe_dir`, the directory of the executable (see
    /// [`config_path`]).  `lines` holds the file's lines, or is `None` when
    /// the file does not exist yet; then both variables are unset (the caller
    /// creates the file with [`initial_config`]).  Every line must be
    /// `key = value` with key `db_dir` or `db_var`; the last line for a key
    /// wins.
    pub fn new(path: Option<String>, exe_dir: &str, lines: Option<&Vec<String>>) -> (r: Result<
        State,
        StateManagerError,
    >)
        ensures
            match lines {
                None => r matches Ok(s) && s.spec_db_dir() is None && s.spec_db_var() is None
                    && s.spec_path() == config_file(path.deep_view(), exe_dir@),
                Some(ls) => match (r, parse_config(lines_view(ls@))) {
                    (Ok(s), Ok((d, v))) => s.spec_db_dir() == d && s.spec_db_var() == v
                        && s.spec_path() == config_file(path.deep_view(), exe_dir@),
                    (Err(e), Err((k, m))) => e.spec_kind() == k && e.spec_message() == m,
                    _ => false,
                },
            },
    {
        let path = config_path(path, exe_dir);
        match lines {
            None => Ok(State { db_dir: None, db_var: None, path }),
            Some(ls) => match read_config(ls) {
                Ok((db_dir, db_var)) => Ok(State { db_dir, db_var, path }),
                Err(e) => Err(e),
            },
        }
    }

    /// Sets the variable `key` to `value`.
    ///
    /// `contents` is the configuration file's text; on success the text to
    /// write back is returned and the state holds the new value.  A key other
    /// than `db_dir` or `db_var` is refused and nothing changes.
    pub fn update_var(&mut self, key: &str, value: &str, contents: &str) -> (r: Result<
        String,
        StateManagerError,
    >)
        requires
            key@ == "db_dir"@ ==> line_terminated(contents@, "db_dir"@),
            key@ == "db_var"@ ==> line_terminated(contents@, "db_var"@),
        ensures
            final(self)@ == updated_state(old(self)@, key@, value@),
            key@ == "db_dir"@ ==> {
                &&& r matches Ok(t) && t@ == update_text(contents@, "db_dir"@, value@)
                &&& final(self).spec_db_dir() == Some(value@)
                &&& final(self).spec_db_var() == old(self).spec_db_var()
                &&& final(self).spec_path() == old(self).spec_path()
            },
            key@ == "db_var"@ ==> {
                &&& r matches Ok(t) && t@ == update_text(contents@, "db_var"@, value@)
                &&& final(self).spec_db_var() == Some(value@)
                &&& final(self).spec_db_dir() == old(self).spec_db_dir()
                &&& final(self).spec_path() == old(self).spec_path()
            },
            key@ != "db_dir"@ && key@ != "db_var"@ ==> {
                &&& r matches Err(e) && e.spec_kind() == StateManagerErrorKind::UpdateVariableFailed
                    && e.spec_message() == "state manager encountered variable not being tracked "@
                    + key@
                &&& final(self).spec_db_dir() == old(self).spec_db_dir()
                &&& final(self).spec_db_var() == old(self).spec_db_var()
                &&& final(self).spec_path() == old(self).spec_path()
            },
    {
        proof {
            reveal_strlit("db_dir");
            reveal_strlit("db_var");
            assert("db_dir"@[3] != "db_var"@[3]);
        }
        if str_eq(key, "db_dir") {
            self.db_dir = Some(owned(value));
            Ok(update_text_exec(contents, "db_dir", value))
        } else if str_eq(key, "db_var") {
            self.db_var = Some(owned(value));
            Ok(update_text_exec(contents, "db_var", value))
        } else {
            Err(
                StateManagerError::new(
                    StateManagerErrorKind::UpdateVariableFailed,
                    concat2("state manager encountered variable not being tracked ", key),
                ),
            )
        }
    }
}

} // verus!
