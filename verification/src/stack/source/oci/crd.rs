//! The namespaced `OciStackSource` resource.

use crate::kubernetes::object::ObjectMeta;
use crate::stack::source::oci::inner::InnerOciStackSourceSpec;
use vstd::prelude::*;

verus! {

/// Desired state of an `OciStackSource`.
#[derive(Debug)]
pub struct OciStackSourceSpec {
    pub inner: InnerOciStackSourceSpec,
}

/// An `OciStackSource` as observed in the cluster.
#[derive(Debug)]
pub struct OciStackSource {
    pub metadata: ObjectMeta,
    pub spec: OciStackSourceSpec,
}

} // verus!
