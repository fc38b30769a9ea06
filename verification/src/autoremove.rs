//! The autoremove path: the two package-manager invocations it uses
//! and the decision taken on the query's captured output.

use vstd::prelude::*;
use crate::command::Invocation;

verus! {

/// What to do after the orphan query has run: nothing, because the
/// query found no packages, or feed the captured list to a removal
/// process.
pub enum AutoremovePlan {
    Nothing,
    Remove { feed: Vec<u8> },
}

/// How the removal process ended: its standard-input pipe could not be
/// obtained, or it was waited on, successfully or not.
#[derive(Clone, Copy, PartialEq, Eq, Structural, Debug)]
pub enum RemovalOutcome {
    StdinUnavailable,
    WaitSucceeded,
    WaitFailed,
}

/// The unprivileged query that lists orphaned packages, whose output
/// is captured rather than shown.
pub fn query_invocation() -> (inv: Invocation)
    ensures
        inv.program@ == "pacman"@,
        inv.args@.len() == 1,
        inv.args@[0]@ == "-Qqtd"@,
        !inv.privileged,
        !inv.piped_stdin,
{
    let mut args: Vec<String> = Vec::new();
    args.push("-Qqtd".to_owned());
    Invocation { program: "pacman".to_owned(), args, privileged: false, piped_stdin: false }
}

/// The privileged removal process, reading the package list from its
/// standard input.
pub fn removal_invocation() -> (inv: Invocation)
    ensures
        inv.program@ == "pacman"@,
        inv.args@.len() == 2,
        inv.args@[0]@ == "-Rsu"@,
        inv.args@[1]@ == "-"@,
        inv.privileged,
        inv.piped_stdin,
{
    let mut args: Vec<String> = Vec::new();
    args.push("-Rsu".to_owned());
    args.push("-".to_owned());
    Invocation { program: "pacman".to_owned(), args, privileged: true, piped_stdin: true }
}

/// Decides on the query's captured output: empty output means nothing
/// to remove and no removal process; otherwise exactly the captured
/// bytes are fed to the removal process.
pub fn autoremove_plan(query_output: Vec<u8>) -> (r: AutoremovePlan)
    ensures
        (query_output@.len() == 0) <==> (r is Nothing),
        r matches AutoremovePlan::Remove { feed } ==> feed@ == query_output@,
{
    if query_output.len() == 0 {
        AutoremovePlan::Nothing
    } else {
        AutoremovePlan::Remove { feed: query_output }
    }
}

/// This program's exit code for each way the removal process can end:
/// a distinct code for the pipe failure, success after a normal wait,
/// failure after a wait error.
pub fn removal_exit_code(outcome: RemovalOutcome) -> (c: i32)
    ensures
        outcome is StdinUnavailable ==> c == 129,
        outcome is WaitSucceeded ==> c == 0,
        outcome is WaitFailed ==> c == 1,
{
    match outcome {
        RemovalOutcome::StdinUnavailable => 129,
        RemovalOutcome::WaitSucceeded => 0,
        RemovalOutcome::WaitFailed => 1,
    }
}

} // verus!
