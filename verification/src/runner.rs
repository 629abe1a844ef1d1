//! Which program is run, and what its captured output amounts to.

use crate::error::PipelineError;
use crate::text::followed_by;
use crate::text::decode_lossy;
use crate::text::lossy_text;
use vstd::prelude::*;
use vstd::utf8::decode_utf8;
use vstd::utf8::valid_utf8;

verus! {

/// The path of the program to run: the directory, a slash, and the name.
pub open spec fn program_path_of(directory: Seq<char>, name: Seq<char>) -> Seq<char> {
    directory + "/"@ + name
}

/// Builds the path of the program named `name` in `directory`. Nothing is
/// looked up: the name is not searched for anywhere else.
pub fn program_path(directory: &str, name: &str) -> (path: String)
    ensures
        path@ == program_path_of(directory@, name@),
{
    let mut path = followed_by(directory, "/");
    path.append(name);
    path
}

/// What a program left behind when it ended: its exit code, where the
/// system reported one, and everything it wrote to its standard output.
#[derive(Clone, Debug, PartialEq, Eq)]
pub struct ExecutionOutcome {
    pub exit_code: Option<i32>,
    pub stdout: Vec<u8>,
}

/// How running the program ended.
#[derive(Clone, Debug, PartialEq, Eq)]
pub enum RunOutcome {
    /// The program could not be started or waited for. Carries what the
    /// system said.
    SpawnError(String),
    /// The program ran to its end.
    Completed(ExecutionOutcome),
}

/// The text that a program wrote, or the error that ends the invocation.
///
/// A program that could not be started is a failed spawn. One that ran is
/// decoded whatever its exit code was; bytes that are not UTF-8 are
/// replaced, never refused, and output that is UTF-8 comes back as the
/// very text that it encodes.
pub fn actual_output(outcome: RunOutcome) -> (output: Result<String, PipelineError>)
    ensures
        match outcome {
            RunOutcome::SpawnError(message) => output == Err::<String, PipelineError>(
                PipelineError::SpawnFailed(message),
            ),
            RunOutcome::Completed(done) => {
                &&& output matches Ok(text) && text@ == lossy_text(done.stdout@)
                &&& valid_utf8(done.stdout@) ==> (output matches Ok(text) && text@
                    == decode_utf8(done.stdout@))
            },
        },
{
    match outcome {
        RunOutcome::SpawnError(message) => Err(PipelineError::SpawnFailed(message)),
        RunOutcome::Completed(done) => Ok(decode_lossy(done.stdout.as_slice())),
    }
}

} // verus!
