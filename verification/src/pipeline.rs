//! The order of a sample check: fetch the page, run the solution, compare.
//!
//! The library does none of the outside work. It says what is to be done
//! next and, given how that ended, what follows: the next request, the
//! comparison, or the error that ends the invocation.

use crate::comparator::compare;
use crate::comparator::is_comparison_of;
use crate::comparator::Comparison;
use crate::error::PipelineError;
use crate::fetcher::expected_output;
use crate::fetcher::is_sample_of_page;
use crate::fetcher::page_of;
use crate::fetcher::problem_url;
use crate::fetcher::problem_url_of;
use crate::fetcher::user_agent;
use crate::fetcher::FetchOutcome;
use crate::runner::actual_output;
use crate::runner::program_path;
use crate::runner::program_path_of;
use crate::runner::RunOutcome;
use crate::text::lossy_text;
use vstd::prelude::*;

verus! {

/// The request for a problem's page: one GET of `url` that names
/// `user_agent`.
#[derive(Clone, Debug, PartialEq, Eq)]
pub struct FetchRequest {
    pub url: String,
    pub user_agent: String,
}

/// The request to run the solution at `program`, together with the sample
/// output that its output will be held against.
#[derive(Clone, Debug, PartialEq, Eq)]
pub struct RunRequest {
    pub program: String,
    pub expected: String,
}

/// The first step of a sample check: the request for the problem's page.
pub fn begin(contest_number: &str, problem_letter: &str) -> (request: FetchRequest)
    ensures
        request.url@ == problem_url_of(contest_number@, problem_letter@),
        request.user_agent@ == "Mozilla/5.0"@,
{
    FetchRequest {
        url: problem_url(contest_number, problem_letter),
        user_agent: user_agent().to_owned(),
    }
}

/// The step after the fetch. A failed fetch or a malformed page ends the
/// invocation, and the solution is not run. Otherwise the solution named
/// after the problem letter, in `directory`, is to be run next.
pub fn after_fetch(outcome: FetchOutcome, directory: &str, problem_letter: &str) -> (next: Result<
    RunRequest,
    PipelineError,
>)
    ensures
        match outcome {
            FetchOutcome::TransportError(message) => next == Err::<RunRequest, PipelineError>(
                PipelineError::FetchFailed(message),
            ),
            FetchOutcome::Answered { success, body, error_body } => if success {
                match next {
                    Ok(request) => {
                        &&& is_sample_of_page(Ok(request.expected), page_of(body@))
                        &&& request.program@ == program_path_of(directory@, problem_letter@)
                    },
                    Err(error) => is_sample_of_page(Err(error), page_of(body@)),
                }
            } else {
                next matches Err(PipelineError::FetchFailed(report)) && report@ == lossy_text(
                    error_body@,
                )
            },
        },
{
    match expected_output(outcome) {
        Ok(expected) => Ok(
            RunRequest { program: program_path(directory, problem_letter), expected },
        ),
        Err(error) => Err(error),
    }
}

/// The step after the run. A solution that could not be started ends the
/// invocation with no comparison made. One that ran is compared with the
/// sample output, whatever its exit code was.
pub fn after_run(request: &RunRequest, outcome: RunOutcome) -> (result: Result<
    Comparison,
    PipelineError,
>)
    ensures
        match outcome {
            RunOutcome::SpawnError(message) => result == Err::<Comparison, PipelineError>(
                PipelineError::SpawnFailed(message),
            ),
            RunOutcome::Completed(done) => result matches Ok(comparison) && is_comparison_of(
                comparison,
                request.expected@,
                lossy_text(done.stdout@),
            ),
        },
{
    match actual_output(outcome) {
        Ok(actual) => Ok(compare(request.expected.as_str(), actual.as_str())),
        Err(error) => Err(error),
    }
}

} // verus!
