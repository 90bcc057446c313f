//! Where stack auth objects are found.

use crate::kubernetes::resource::{CustomKind, Lookup};
use vstd::prelude::*;

verus! {

/// Finds stack auth objects by name.
#[derive(Debug, Clone, Copy)]
pub struct StackAuthRepository {}

impl StackAuthRepository {
    /// The lookup of the `StackAuth` called `name` in `namespace`.
    pub fn get_namespaced_by_name_and_namespace(&self, name: &str, namespace: &str) -> (lookup:
        Lookup)
        ensures
            lookup.asks(CustomKind::StackAuth, Some(namespace@), name@),
    {
        Lookup::namespaced(CustomKind::StackAuth, namespace, name)
    }

    /// The lookup of the cluster-wide `ClusterStackAuth` called `name`.
    pub fn get_by_name(&self, name: &str) -> (lookup: Lookup)
        ensures
            lookup.asks(CustomKind::ClusterStackAuth, None, name@),
    {
        Lookup::cluster(CustomKind::ClusterStackAuth, name)
    }
}

} // verus!
