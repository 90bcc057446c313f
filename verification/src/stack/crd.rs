//! The `PulumiStack` custom resource.

use crate::kubernetes::object::ObjectMeta;
use crate::kubernetes::resource::CustomKind;
use crate::stack::status::StackStatus;
use std::collections::BTreeMap;
use vstd::prelude::*;

verus! {

/// Which kind of object holds a stack's backend credentials.
#[derive(Debug, Clone, Copy, PartialEq, Eq, Structural)]
pub enum StackAuthRefType {
    /// A `StackAuth` in the stack's namespace.
    Namespace,
    /// A cluster-wide `ClusterStackAuth`.
    Cluster,
}

/// Which kind of object describes a stack's program source.
#[derive(Debug, Clone, Copy, PartialEq, Eq, Structural)]
pub enum StackSourceRefType {
    /// A `GitStackSource` in the stack's namespace.
    Git,
    /// A cluster-wide `ClusterGitStackSource`.
    ClusterGit,
    /// An `OciStackSource` in the stack's namespace.
    Oci,
    /// A cluster-wide `ClusterOciStackSource`.
    ClusterOci,
}

/// Reference to the object with the backend credentials.
#[derive(Debug)]
pub struct StackAuthRef {
    pub name: String,
    pub type_: StackAuthRefType,
}

/// Reference to the object with the program source.
#[derive(Debug)]
pub struct StackSourceRef {
    pub name: String,
    pub type_: StackSourceRefType,
}

/// Additions to the generated main container.
#[derive(Debug)]
pub struct MainContainerOverride {
    pub extra_volume_mounts: Option<Vec<k8s_openapi::api::core::v1::VolumeMount>>,
    pub extra_env: Option<Vec<k8s_openapi::api::core::v1::EnvVar>>,
}

/// Additions to the generated pod.
#[derive(Debug)]
pub struct MainPodOverride {
    pub extra_annotations: Option<BTreeMap<String, String>>,
}

/// Desired state of a `PulumiStack`.
#[derive(Debug)]
pub struct StackSpec {
    pub stack_name: Option<String>,
    pub source: StackSourceRef,
    pub auth: StackAuthRef,
    pub path: Option<String>,
    pub init_containers: Option<Vec<k8s_openapi::api::core::v1::Container>>,
    pub extra_volumes: Option<Vec<k8s_openapi::api::core::v1::Volume>>,
    pub main_container: Option<MainContainerOverride>,
    pub main_pod: Option<MainPodOverride>,
    pub organization: Option<String>,
}

/// A `PulumiStack` as observed in the cluster.
#[derive(Debug)]
pub struct PulumiStack {
    pub metadata: ObjectMeta,
    pub spec: StackSpec,
    pub status: Option<StackStatus>,
}

impl StackAuthRefType {
    /// The kind of object that a reference of this type points to.
    pub open spec fn custom_kind(self) -> CustomKind {
        match self {
            StackAuthRefType::Namespace => CustomKind::StackAuth,
            StackAuthRefType::Cluster => CustomKind::ClusterStackAuth,
        }
    }

    /// The kind of object that a reference of this type points to.
    pub fn resource_kind(&self) -> (kind: CustomKind)
        ensures
            kind == self.custom_kind(),
    {
        match self {
            StackAuthRefType::Namespace => CustomKind::StackAuth,
            StackAuthRefType::Cluster => CustomKind::ClusterStackAuth,
        }
    }
}

impl StackSourceRefType {
    /// The kind of object that a reference of this type points to.
    pub open spec fn custom_kind(self) -> CustomKind {
        match self {
            StackSourceRefType::Git => CustomKind::GitStackSource,
            StackSourceRefType::ClusterGit => CustomKind::ClusterGitStackSource,
            StackSourceRefType::Oci => CustomKind::OciStackSource,
            StackSourceRefType::ClusterOci => CustomKind::ClusterOciStackSource,
        }
    }

    /// The kind of object that a reference of this type points to.
    pub fn resource_kind(&self) -> (kind: CustomKind)
        ensures
            kind == self.custom_kind(),
    {
        match self {
            StackSourceRefType::Git => CustomKind::GitStackSource,
            StackSourceRefType::ClusterGit => CustomKind::ClusterGitStackSource,
            StackSourceRefType::Oci => CustomKind::OciStackSource,
            StackSourceRefType::ClusterOci => CustomKind::ClusterOciStackSource,
        }
    }
}

} // verus!
