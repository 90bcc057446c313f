//! Program source of a stack: a Git repository or an OCI artifact.

use crate::stack::source::git::inner::InnerGitStackSourceSpec;
use crate::stack::source::oci::inner::InnerOciStackSourceSpec;
use vstd::prelude::*;

pub mod git;
pub mod oci;

verus! {

/// A resolved program source.
#[derive(Debug)]
pub enum Source {
    Git(InnerGitStackSourceSpec),
    Oci(InnerOciStackSourceSpec),
}

impl From<InnerGitStackSourceSpec> for Source {
    fn from(inner: InnerGitStackSourceSpec) -> (source: Source) {
        Source::Git(inner)
    }
}

impl vstd::std_specs::convert::FromSpecImpl<InnerGitStackSourceSpec> for Source {
    open spec fn obeys_from_spec() -> bool {
        true
    }

    open spec fn from_spec(inner: InnerGitStackSourceSpec) -> Source {
        Source::Git(inner)
    }
}

impl From<InnerOciStackSourceSpec> for Source {
    fn from(inner: InnerOciStackSourceSpec) -> (source: Source) {
        Source::Oci(inner)
    }
}

impl vstd::std_specs::convert::FromSpecImpl<InnerOciStackSourceSpec> for Source {
    open spec fn obeys_from_spec() -> bool {
        true
    }

    open spec fn from_spec(inner: InnerOciStackSourceSpec) -> Source {
        Source::Oci(inner)
    }
}

} // verus!
