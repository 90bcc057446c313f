//! Routes a source to the fetcher of its kind.

use crate::job::git::service::{git_begins, GitError, GitService, GitStep};
use crate::job::oci::service::{OciError, OciService};
use crate::kubernetes::object::ObjectMeta;
use crate::stack::source::Source;
use vstd::prelude::*;

verus! {

/// Why a source could not be fetched.
#[derive(Debug, Clone, Copy, PartialEq, Eq, Structural)]
pub enum FetchError {
    /// The Git repository could not be set up.
    Git(GitError),
    /// The OCI artifact could not be set up.
    Oci(OciError),
}

/// What fetching a source begins with.
#[derive(Debug)]
pub enum FetchStep {
    /// The Git fetcher goes on with this step.
    Git(GitStep),
    /// The source is materialized at this path already.
    Fetched(String),
}

/// Fetches the program source of a stack.
#[derive(Debug)]
pub struct FetchService {
    pub git_service: GitService,
    pub oci_service: OciService,
}

impl FetchService {
    /// What fetching `source` for the stack with `metadata` begins with:
    /// a Git source goes to the Git fetcher, an OCI source to the OCI
    /// fetcher.
    pub fn fetch(&self, source: &Source, metadata: &ObjectMeta) -> (begin: Result<
        FetchStep,
        FetchError,
    >)
        ensures
            match source {
                Source::Git(git) => match begin {
                    Ok(FetchStep::Git(step)) => git_begins(
                        self.git_service.config_provider@,
                        *git,
                        metadata@,
                        Ok(step),
                    ),
                    Ok(FetchStep::Fetched(_)) => false,
                    Err(FetchError::Git(e)) => git_begins(
                        self.git_service.config_provider@,
                        *git,
                        metadata@,
                        Err(e),
                    ),
                    Err(FetchError::Oci(_)) => false,
                },
                Source::Oci(_) => begin matches Ok(FetchStep::Fetched(path)) && path@ == "/"@,
            },
    {
        match source {
            Source::Git(git) => match self.git_service.fetch(git, metadata) {
                Ok(step) => Ok(FetchStep::Git(step)),
                Err(e) => Err(FetchError::Git(e)),
            },
            Source::Oci(oci) => match self.oci_service.fetch(oci, metadata) {
                Ok(path) => Ok(FetchStep::Fetched(path)),
                Err(e) => Err(FetchError::Oci(e)),
            },
        }
    }
}

} // verus!
