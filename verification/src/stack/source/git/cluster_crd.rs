//! The cluster-wide `ClusterGitStackSource` resource.

use crate::kubernetes::object::ObjectMeta;
use crate::stack::source::git::inner::InnerGitStackSourceSpec;
use vstd::prelude::*;

verus! {

/// Desired state of a `ClusterGitStackSource`.
#[derive(Debug)]
pub struct ClusterGitStackSourceSpec {
    pub inner: InnerGitStackSourceSpec,
}

/// A `ClusterGitStackSource` as observed in the cluster.
#[derive(Debug)]
pub struct ClusterGitStackSource {
    pub metadata: ObjectMeta,
    pub spec: ClusterGitStackSourceSpec,
}

} // verus!
