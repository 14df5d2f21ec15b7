//! Running external programs: how a command line is split, and how what a
//! finished program reported is read. Starting the program is the
//! application's work.
use vstd::prelude::*;
use crate::text::{is_word, split_whitespace, string_views, words};

verus! {

/// What came of starting an external program.
pub enum CommandOutcome {
    /// The program could not be started; the error's text.
    NotRun { error: String },
    /// The program ran to its end.
    Exited { success: bool, stdout: String, stderr: String },
}

/// A command line split at whitespace: the program and its arguments.
/// `None` when the line holds no word, where there is no program to run.
pub fn command_line(cmd: &str) -> (r: Option<(String, Vec<String>)>)
    ensures
        match r {
            None => words(cmd@).len() == 0,
            Some((program, args)) => words(cmd@).len() > 0 && program@ == words(cmd@)[0]
                && string_views(args@) == words(cmd@).drop_first() && is_word(program@) && forall|i: int|
                0 <= i < args@.len() ==> is_word(#[trigger] args@[i]@),
        },
{
    let mut parts = split_whitespace(cmd);
    if parts.len() == 0 {
        return None;
    }
    let ghost all = parts@;
    let program = parts.remove(0);
    proof {
        assert(string_views(parts@) =~= string_views(all).drop_first());
        assert forall|i: int| 0 <= i < parts@.len() implies is_word(#[trigger] parts@[i]@) by {
            assert(parts@[i] == all[i + 1]);
        }
    }
    Some((program, parts))
}

pub open spec fn spec_run_command_result(outcome: CommandOutcome) -> Result<bool, Seq<char>> {
    match outcome {
        CommandOutcome::NotRun { error } => Err("error while getting output result "@ + error@),
        CommandOutcome::Exited { success, stderr, .. } => if success {
            Ok(true)
        } else {
            Err("error while running command, error - "@ + stderr@)
        },
    }
}

/// What running a command line yields: `true` when the program succeeded,
/// otherwise the error's text.
pub fn run_command_result(outcome: CommandOutcome) -> (r: Result<bool, String>)
    ensures
        match (r, spec_run_command_result(outcome)) {
            (Ok(a), Ok(b)) => a == b,
            (Err(a), Err(b)) => a@ == b,
            _ => false,
        },
{
    match outcome {
        CommandOutcome::NotRun { error } => Err(
            String::from_str("error while getting output result ").concat(error.as_str()),
        ),
        CommandOutcome::Exited { success, stderr, .. } => if success {
            Ok(true)
        } else {
            Err(String::from_str("error while running command, error - ").concat(stderr.as_str()))
        },
    }
}

/// The error text when a command line could not be spawned.
pub fn spawn_command_error(cmd: &str, error: &str) -> (r: String)
    ensures
        r@ == "failed to spawn command "@ + cmd@ + ", error - "@ + error@,
{
    String::from_str("failed to spawn command ").concat(cmd).concat(", error - ").concat(error)
}

} // verus!
