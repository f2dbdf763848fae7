//! What the command line prints for a command's outcome, and its exit code.
use vstd::prelude::*;
use colored::Colorize;
use crate::model::{TmgrError, tmgr_error_text};
use crate::text::{concat3, contains_seq};

verus! {

/// The reset sequence of ANSI terminals.
pub open spec fn ansi_reset() -> Seq<char> {
    "\u{1b}[0m"@
}

/// `text.red()` from colored, written out by its `Display`.  Colored decides
/// from the environment (`NO_COLOR`, `CLICOLOR`, `CLICOLOR_FORCE`) and from
/// whether stdout is a terminal whether to colour at all, so either the plain
/// text or the text between the ANSI codes for red and for reset comes back;
/// which one is not stated.
#[verifier::external_body]
fn red(text: &str) -> (s: String)
    requires
        !contains_seq(text@, ansi_reset()),
    ensures
        s@ == text@ || s@ == "\u{1b}[31m"@ + text@ + ansi_reset(),
{
    text.red().to_string()
}

/// The text printed for a command's outcome and the exit code of the process.
pub struct ResultHandler {
    result_string: String,
    exit_code: i32,
}

impl ResultHandler {
    pub closed spec fn spec_result_string(&self) -> Seq<char> {
        self.result_string@
    }

    pub closed spec fn spec_exit_code(&self) -> i32 {
        self.exit_code
    }

    /// The text to print.
    pub fn result_string(&self) -> (s: &str)
        ensures
            s@ == self.spec_result_string(),
    {
        self.result_string.as_str()
    }

    /// The exit code of the process.
    pub fn exit_code(&self) -> (c: i32)
        ensures
            c == self.spec_exit_code(),
    {
        self.exit_code
    }
}

/// The label in front of an error: `error`, in red where the terminal shows colours.
pub open spec fn error_label(l: Seq<char>) -> bool {
    l == "error"@ || l == "\u{1b}[31merror"@ + ansi_reset()
}

/// What to print and which exit code to give: a success prints its message and
/// exits with 0; an error prints `error: ` and the error's text, and exits with 1.
pub fn handle_result(result: Result<String, TmgrError>) -> (h: ResultHandler)
    ensures
        match result {
            Ok(s) => h.spec_result_string() == s@ && h.spec_exit_code() == 0,
            Err(e) => h.spec_exit_code() == 1 && exists|l: Seq<char>|
                error_label(l) && h.spec_result_string() == l + ": "@ + tmgr_error_text(
                    e.spec_kind(),
                    e.spec_message(),
                ),
        },
{
    match result {
        Ok(res) => ResultHandler { result_string: res, exit_code: 0 },
        Err(err) => {
            proof {
                reveal_strlit("error");
                reveal_strlit("\u{1b}[0m");
                assert(!contains_seq("error"@, ansi_reset())) by {
                    assert forall|i: int| !crate::text::occurs_at("error"@, ansi_reset(), i) by {
                        if crate::text::occurs_at("error"@, ansi_reset(), i) {
                            assert("error"@.subrange(i, i + 4)[0] == ansi_reset()[0]);
                        }
                    }
                }
            }
            let label = red("error");
            let text = err.to_string();
            let response = concat3(label.as_str(), ": ", text.as_str());
            proof {
                reveal_strlit("\u{1b}[31m");
                reveal_strlit("\u{1b}[31merror");
                assert("\u{1b}[31m"@ + "error"@ + ansi_reset() =~= "\u{1b}[31merror"@ + ansi_reset());
                assert(error_label(label@));
            }
            ResultHandler { result_string: response, exit_code: 1 }
        },
    }
}

} // verus!
