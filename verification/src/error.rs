//! The ways in which checking a sample can fail before a verdict exists.

use vstd::prelude::*;

verus! {

/// Why an invocation ended without a verdict. Each of these is final: nothing
/// is tried again.
#[derive(Clone, Debug, PartialEq, Eq)]
pub enum PipelineError {
    /// The page could not be had: the transport failed, or the server
    /// answered without success. Carries what the failure said.
    FetchFailed(String),
    /// The page was had, but its text does not begin with the label of a
    /// sample output.
    MalformedPage,
    /// The solution could not be started or waited for. Carries what the
    /// system said.
    SpawnFailed(String),
    /// No template was named and none is stored.
    ConfigUnavailable,
}

} // verus!
