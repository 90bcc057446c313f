//! The cluster-wide `ClusterOciStackSource` resource.

use crate::kubernetes::object::ObjectMeta;
use crate::stack::source::oci::inner::InnerOciStackSourceSpec;
use vstd::prelude::*;

verus! {

/// Desired state of a `ClusterOciStackSource`.
#[derive(Debug)]
pub struct ClusterOciStackSourceSpec {
    pub inner: InnerOciStackSourceSpec,
}

/// A `ClusterOciStackSource` as observed in the cluster.
#[derive(Debug)]
pub struct ClusterOciStackSource {
    pub metadata: ObjectMeta,
    pub spec: ClusterOciStackSourceSpec,
}

} // verus!
