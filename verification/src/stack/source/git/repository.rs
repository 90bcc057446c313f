//! Where Git source objects are found.

use crate::kubernetes::resource::{CustomKind, Lookup};
use vstd::prelude::*;

verus! {

/// Finds Git source objects by name.
#[derive(Debug, Clone, Copy)]
pub struct GitStackSourceRepository {}

impl GitStackSourceRepository {
    /// The lookup of the `GitStackSource` called `name` in `namespace`.
    pub fn get_namespaced_by_name_and_namespace(&self, name: &str, namespace: &str) -> (lookup:
        Lookup)
        ensures
            lookup.asks(CustomKind::GitStackSource, Some(namespace@), name@),
    {
        Lookup::namespaced(CustomKind::GitStackSource, namespace, name)
    }

    /// The lookup of the cluster-wide `ClusterGitStackSource` called `name`.
    pub fn get_by_name(&self, name: &str) -> (lookup: Lookup)
        ensures
            lookup.asks(CustomKind::ClusterGitStackSource, None, name@),
    {
        Lookup::cluster(CustomKind::ClusterGitStackSource, name)
    }
}

} // verus!
