//! The first state manager: the database directory and the current database,
//! read from `tmgr_config.toml` next to the executable.
//!
//! The file has the format of [`crate::parser::state_mgr`]: `key = "value"`
//! lines for `db_dir` and `db_var`.  Here a file that cannot be read leaves
//! both variables unset, and a line that is not such an assignment is a
//! fault of the caller.
use vstd::prelude::*;
use crate::parser::state_mgr::{ConfigFailure, ConfigVars, lines_view, parse_config, read_config};

verus! {

/// The state manager's variables.
pub struct State {
    db_dir: Option<String>,
    db_var: Option<String>,
}

impl State {
    /// The database directory, if set.
    pub closed spec fn spec_db_dir(&self) -> Option<Seq<char>> {
        self.db_dir.deep_view()
    }

    /// The current database's name, if set.
    pub closed spec fn spec_db_var(&self) -> Option<Seq<char>> {
        self.db_var.deep_view()
    }

    /// The database directory, if set.
    pub fn db_dir(&self) -> (d: Option<String>)
        ensures
            d.deep_view() == self.spec_db_dir(),
    {
        match &self.db_dir {
            Some(d) => Some(d.clone()),
            None => None,
        }
    }

    /// The current database's name, if set.
    pub fn db_var(&self) -> (v: Option<String>)
        ensures
            v.deep_view() == self.spec_db_var(),
    {
        match &self.db_var {
            Some(v) => Some(v.clone()),
            None => None,
        }
    }

    /// The state read from the configuration file's lines.
    ///
    /// `None` stands for a file that did not exist (it is then created with
    /// both variables empty) or could not be read: both variables are unset.
    /// Every line read must assign `db_dir` or `db_var`.
    pub fn new(lines: Option<&Vec<String>>) -> (s: State)
        requires
            lines matches Some(ls) ==> parse_config(lines_view(ls@)) is Ok,
        ensures
            match lines {
                None => s.spec_db_dir() is None && s.spec_db_var() is None,
                Some(ls) => parse_config(lines_view(ls@)) == Ok::<ConfigVars, ConfigFailure>(
                    (s.spec_db_dir(), s.spec_db_var()),
                ),
            },
    {
        match lines {
            None => State { db_dir: None, db_var: None },
            Some(ls) => match read_config(ls) {
                Ok((db_dir, db_var)) => State { db_dir, db_var },
                Err(_) => State { db_dir: None, db_var: None },
            },
        }
    }
}

} // verus!
