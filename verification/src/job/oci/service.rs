//! The OCI fetcher.

use crate::kubernetes::object::ObjectMeta;
use crate::stack::source::oci::inner::InnerOciStackSourceSpec;
use vstd::prelude::*;

verus! {

/// Pulls OCI artifacts.
#[derive(Debug, Clone, Copy)]
pub struct OciService {}

/// Why an artifact could not be set up.
#[derive(Debug, Clone, Copy, PartialEq, Eq, Structural)]
pub enum OciError {
    /// The artifact could not be pulled.
    PullFailed,
}

impl OciService {
    /// Where the artifact of `spec` is materialized: at the root of the
    /// file system, whatever the artifact.
    pub fn fetch(&self, spec: &InnerOciStackSourceSpec, metadata: &ObjectMeta) -> (fetched: Result<
        String,
        OciError,
    >)
        ensures
            fetched is Ok,
            fetched->Ok_0@ == "/"@,
    {
        Ok(String::from_str("/"))
    }
}

} // verus!
