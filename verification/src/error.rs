//! What can go wrong with a workflow and its file.

use vstd::prelude::*;

verus! {

/// The failures that the library reports.
#[derive(Debug, Clone, PartialEq, Eq)]
pub enum Error {
    /// The workflow that was generated differs from the one it is compared
    /// with.
    GitHubWorkflowMismatch,
    /// A job stands under the identifier already.
    JobIdAlreadyExists(String),
    /// The file of the workflow holds something else than what is
    /// generated.
    OutdatedWorkflow,
    /// There is no file of the workflow at the path.
    MissingWorkflowFile(String),
}

} // verus!
