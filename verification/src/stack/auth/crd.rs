//! The namespaced `StackAuth` resource.

use crate::kubernetes::object::ObjectMeta;
use crate::stack::auth::inner::InnerStackAuthSpec;
use vstd::prelude::*;

verus! {

/// Desired state of a `StackAuth`.
#[derive(Debug)]
pub struct StackAuthSpec {
    pub inner: InnerStackAuthSpec,
}

/// A `StackAuth` as observed in the cluster.
#[derive(Debug)]
pub struct StackAuth {
    pub metadata: ObjectMeta,
    pub spec: StackAuthSpec,
}

} // verus!
