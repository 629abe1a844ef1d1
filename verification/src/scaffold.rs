//! Names and choices for creating a solution file from a template.

use crate::error::PipelineError;
use crate::text::followed_by;
use vstd::prelude::*;

verus! {

/// The name of the file, in the user's home directory, that holds the path
/// of the default template as plain text.
pub fn config_file_name() -> (name: &'static str)
    ensures
        name@ == ".cp_cli_config"@,
{
    ".cp_cli_config"
}

/// The name of the solution file for `filename`: the name with the
/// extension of a C++ source file.
pub fn solution_file_name(filename: &str) -> (path: String)
    ensures
        path@ == filename@ + ".cpp"@,
{
    followed_by(filename, ".cpp")
}

/// Picks the template to copy: the one named on the command line where
/// there is one, else the stored default, else nothing can be created.
pub fn choose_template(named: Option<String>, stored: Option<String>) -> (template: Result<
    String,
    PipelineError,
>)
    ensures
        match (named, stored) {
            (Some(path), _) => template == Ok::<String, PipelineError>(path),
            (None, Some(path)) => template == Ok::<String, PipelineError>(path),
            (None, None) => template == Err::<String, PipelineError>(
                PipelineError::ConfigUnavailable,
            ),
        },
{
    match named {
        Some(path) => Ok(path),
        None => match stored {
            Some(path) => Ok(path),
            None => Err(PipelineError::ConfigUnavailable),
        },
    }
}

} // verus!
