//! The custom resource kinds of the operator and how one object is
//! addressed.

use vstd::prelude::*;

verus! {

/// The custom resource kinds of the group `pulumi.stromee.de`.
#[derive(Debug, Clone, Copy, PartialEq, Eq, Structural)]
pub enum CustomKind {
    PulumiStack,
    StackAuth,
    ClusterStackAuth,
    GitStackSource,
    ClusterGitStackSource,
    OciStackSource,
    ClusterOciStackSource,
}

/// Where an object of a given name is looked up.
#[derive(Debug)]
pub struct Lookup {
    pub kind: CustomKind,
    /// The namespace, or `None` for a cluster-wide object.
    pub namespace: Option<String>,
    pub name: String,
}

/// API group of every custom resource of the operator.
pub open spec fn group_name() -> Seq<char> {
    "pulumi.stromee.de"@
}

/// API version of every custom resource of the operator.
pub open spec fn version_name() -> Seq<char> {
    "v1"@
}

/// API group of every custom resource of the operator.
pub fn group() -> (name: &'static str)
    ensures
        name@ == group_name(),
{
    "pulumi.stromee.de"
}

/// API version of every custom resource of the operator.
pub fn version() -> (name: &'static str)
    ensures
        name@ == version_name(),
{
    "v1"
}

impl CustomKind {
    /// The kind as written in a manifest.
    pub open spec fn kind_name(self) -> Seq<char> {
        match self {
            CustomKind::PulumiStack => "PulumiStack"@,
            CustomKind::StackAuth => "StackAuth"@,
            CustomKind::ClusterStackAuth => "ClusterStackAuth"@,
            CustomKind::GitStackSource => "GitStackSource"@,
            CustomKind::ClusterGitStackSource => "ClusterGitStackSource"@,
            CustomKind::OciStackSource => "OciStackSource"@,
            CustomKind::ClusterOciStackSource => "ClusterOciStackSource"@,
        }
    }

    /// The plural under which the kind is served.
    pub open spec fn plural_name(self) -> Seq<char> {
        match self {
            CustomKind::PulumiStack => "pulumistacks"@,
            CustomKind::StackAuth => "stackauths"@,
            CustomKind::ClusterStackAuth => "clusterstackauths"@,
            CustomKind::GitStackSource => "gitstacksources"@,
            CustomKind::ClusterGitStackSource => "clustergitstacksources"@,
            CustomKind::OciStackSource => "ocistacksources"@,
            CustomKind::ClusterOciStackSource => "clusterocistacksources"@,
        }
    }

    /// Whether objects of the kind live in a namespace.
    pub open spec fn is_namespaced(self) -> bool {
        match self {
            CustomKind::PulumiStack => true,
            CustomKind::StackAuth => true,
            CustomKind::ClusterStackAuth => false,
            CustomKind::GitStackSource => true,
            CustomKind::ClusterGitStackSource => false,
            CustomKind::OciStackSource => true,
            CustomKind::ClusterOciStackSource => false,
        }
    }

    /// The name of the kind's definition: plural, a dot, the group.
    pub open spec fn definition_name(self) -> Seq<char> {
        self.plural_name() + "."@ + group_name()
    }

    /// The kind as written in a manifest.
    pub fn kind(&self) -> (name: &'static str)
        ensures
            name@ == self.kind_name(),
    {
        match self {
            CustomKind::PulumiStack => "PulumiStack",
            CustomKind::StackAuth => "StackAuth",
            CustomKind::ClusterStackAuth => "ClusterStackAuth",
            CustomKind::GitStackSource => "GitStackSource",
            CustomKind::ClusterGitStackSource => "ClusterGitStackSource",
            CustomKind::OciStackSource => "OciStackSource",
            CustomKind::ClusterOciStackSource => "ClusterOciStackSource",
        }
    }

    /// The plural under which the kind is served.
    pub fn plural(&self) -> (name: &'static str)
        ensures
            name@ == self.plural_name(),
    {
        match self {
            CustomKind::PulumiStack => "pulumistacks",
            CustomKind::StackAuth => "stackauths",
            CustomKind::ClusterStackAuth => "clusterstackauths",
            CustomKind::GitStackSource => "gitstacksources",
            CustomKind::ClusterGitStackSource => "clustergitstacksources",
            CustomKind::OciStackSource => "ocistacksources",
            CustomKind::ClusterOciStackSource => "clusterocistacksources",
        }
    }

    /// Whether objects of the kind live in a namespace.
    pub fn namespaced(&self) -> (yes: bool)
        ensures
            yes == self.is_namespaced(),
    {
        match self {
            CustomKind::PulumiStack => true,
            CustomKind::StackAuth => true,
            CustomKind::ClusterStackAuth => false,
            CustomKind::GitStackSource => true,
            CustomKind::ClusterGitStackSource => false,
            CustomKind::OciStackSource => true,
            CustomKind::ClusterOciStackSource => false,
        }
    }

    /// The name of the kind's definition: plural, a dot, the group.
    pub fn definition(&self) -> (name: String)
        ensures
            name@ == self.definition_name(),
    {
        String::from_str(self.plural()).concat(".").concat(group())
    }
}

impl Lookup {
    /// Whether this lookup asks for `name` of `kind` in `namespace`.
    pub open spec fn asks(&self, kind: CustomKind, namespace: Option<Seq<char>>, name: Seq<char>) -> bool {
        &&& self.kind == kind
        &&& self.namespace.deep_view() == namespace
        &&& self.name@ == name
    }

    /// A lookup of a namespaced object.
    pub fn namespaced(kind: CustomKind, namespace: &str, name: &str) -> (lookup: Lookup)
        ensures
            lookup.asks(kind, Some(namespace@), name@),
    {
        Lookup { kind, namespace: Some(String::from_str(namespace)), name: String::from_str(name) }
    }

    /// A lookup of a cluster-wide object.
    pub fn cluster(kind: CustomKind, name: &str) -> (lookup: Lookup)
        ensures
            lookup.asks(kind, None, name@),
    {
        Lookup { kind, namespace: None, name: String::from_str(name) }
    }
}

} // verus!
