//! Where OCI source objects are found.

use crate::kubernetes::resource::{CustomKind, Lookup};
use vstd::prelude::*;

verus! {

/// Finds OCI source objects by name.
#[derive(Debug, Clone, Copy)]
pub struct OciStackSourceRepository {}

impl OciStackSourceRepository {
    /// The lookup of the `OciStackSource` called `name` in `namespace`.
    pub fn get_namespaced_by_name_and_namespace(&self, name: &str, namespace: &str) -> (lookup:
        Lookup)
        ensures
            lookup.asks(CustomKind::OciStackSource, Some(namespace@), name@),
    {
        Lookup::namespaced(CustomKind::OciStackSource, namespace, name)
    }

    /// The lookup of the cluster-wide `ClusterOciStackSource` called `name`.
    pub fn get_by_name(&self, name: &str) -> (lookup: Lookup)
        ensures
            lookup.asks(CustomKind::ClusterOciStackSource, None, name@),
    {
        Lookup::cluster(CustomKind::ClusterOciStackSource, name)
    }
}

} // verus!
