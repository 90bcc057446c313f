//! The cluster-wide `ClusterStackAuth` resource.

use crate::kubernetes::object::ObjectMeta;
use crate::stack::auth::inner::InnerStackAuthSpec;
use vstd::prelude::*;

verus! {

/// Desired state of a `ClusterStackAuth`.
#[derive(Debug)]
pub struct ClusterStackAuthSpec {
    pub inner: InnerStackAuthSpec,
}

/// A `ClusterStackAuth` as observed in the cluster.
#[derive(Debug)]
pub struct ClusterStackAuth {
    pub metadata: ObjectMeta,
    pub spec: ClusterStackAuthSpec,
}

} // verus!
