//! Repository initialization outcomes. The git subprocess itself is run by
//! the caller; this module fixes what each observed outcome means: which
//! exit turns into which error, and how the captured output of a failed
//! `git init` becomes the error's message.

use vstd::prelude::*;
use vstd::string::StringExecFns;

verus! {

/// The failure of one step of a run.
pub enum RunError {
    /// A filesystem operation failed; the text describes it.
    Io(String),
    /// The git executable could not be launched.
    Process(String),
    /// `git init` exited with a failure; the text holds its captured output.
    GitInit(String),
}

/// The message of a failed `git init`: the captured standard output, then
/// the captured standard error, each included only if non-empty, separated
/// by a line break when both are.
pub open spec fn git_failure_message(stdout: Seq<char>, stderr: Seq<char>) -> Seq<char> {
    if stdout.len() > 0 && stderr.len() > 0 {
        stdout + seq!['\n'] + stderr
    } else if stdout.len() > 0 {
        stdout
    } else {
        stderr
    }
}

/// Interprets what a finished `git init` left behind: success exactly on a
/// successful exit, and otherwise the error that carries the captured
/// output.
pub fn git_init_outcome(exit_ok: bool, stdout: &String, stderr: &String) -> (r: Result<
    (),
    RunError,
>)
    ensures
        exit_ok <==> r is Ok,
        !exit_ok ==> (r matches Err(RunError::GitInit(m)) && m@ == git_failure_message(
            stdout@,
            stderr@,
        )),
{
    if exit_ok {
        Ok(())
    } else {
        let mut m = String::new();
        if !stdout.as_str().is_empty() {
            m.append(stdout.as_str());
            if !stderr.as_str().is_empty() {
                m.append("\n");
            }
        }
        if !stderr.as_str().is_empty() {
            m.append(stderr.as_str());
        }
        proof {
            reveal_strlit("\n");
            assert(m@ =~= git_failure_message(stdout@, stderr@));
        }
        Err(RunError::GitInit(m))
    }
}

} // verus!
