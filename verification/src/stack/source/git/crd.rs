//! The namespaced `GitStackSource` resource.

use crate::kubernetes::object::ObjectMeta;
use crate::stack::source::git::inner::InnerGitStackSourceSpec;
use vstd::prelude::*;

verus! {

/// Desired state of a `GitStackSource`.
#[derive(Debug)]
pub struct GitStackSourceSpec {
    pub inner: InnerGitStackSourceSpec,
}

/// A `GitStackSource` as observed in the cluster.
#[derive(Debug)]
pub struct GitStackSource {
    pub metadata: ObjectMeta,
    pub spec: GitStackSourceSpec,
}

} // verus!
