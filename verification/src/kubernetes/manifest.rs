//! The objects that the operator generates for a stack, as plain data.

use std::collections::BTreeMap;
use vstd::prelude::*;

verus! {

/// A generated service account.
#[derive(Debug)]
pub struct ServiceAccountManifest {
    pub name: String,
    pub namespace: String,
}

/// One rule of a role.
#[derive(Debug)]
pub struct PolicyRule {
    pub api_groups: Vec<String>,
    pub resources: Vec<String>,
    pub verbs: Vec<String>,
}

/// A generated role.
#[derive(Debug)]
pub struct RoleManifest {
    pub name: String,
    pub namespace: String,
    pub rules: Vec<PolicyRule>,
}

/// Who a role binding grants its role to.
#[derive(Debug)]
pub struct Subject {
    pub kind: String,
    pub name: String,
    pub namespace: String,
}

/// The role that a role binding grants.
#[derive(Debug)]
pub struct RoleRef {
    pub api_group: String,
    pub kind: String,
    pub name: String,
}

/// A generated role binding.
#[derive(Debug)]
pub struct RoleBindingManifest {
    pub name: String,
    pub namespace: String,
    pub subjects: Vec<Subject>,
    pub role_ref: RoleRef,
}

/// One environment variable of the worker container: set by the operator
/// to a literal value, or supplied by the user.
#[derive(Debug)]
pub enum EnvEntry {
    Literal { name: String, value: String },
    Provided(k8s_openapi::api::core::v1::EnvVar),
}

/// The worker container.
#[derive(Debug)]
pub struct ContainerManifest {
    pub name: String,
    pub image: String,
    pub image_pull_policy: String,
    pub env: Vec<EnvEntry>,
    pub volume_mounts: Option<Vec<k8s_openapi::api::core::v1::VolumeMount>>,
}

/// The scheduled workload of a stack.
#[derive(Debug)]
pub struct CronJobManifest {
    pub name: String,
    pub namespace: String,
    pub schedule: String,
    pub concurrency_policy: String,
    pub successful_jobs_history_limit: i32,
    pub failed_jobs_history_limit: i32,
    pub backoff_limit: i32,
    pub pod_name: String,
    pub pod_annotations: Option<BTreeMap<String, String>>,
    pub init_containers: Option<Vec<k8s_openapi::api::core::v1::Container>>,
    pub main_container: ContainerManifest,
    pub volumes: Option<Vec<k8s_openapi::api::core::v1::Volume>>,
    pub service_account_name: String,
    pub restart_policy: String,
}

/// Mathematical content of [`ServiceAccountManifest`].
pub struct ServiceAccountView {
    pub name: Seq<char>,
    pub namespace: Seq<char>,
}

/// Mathematical content of [`PolicyRule`].
pub struct PolicyRuleView {
    pub api_groups: Seq<Seq<char>>,
    pub resources: Seq<Seq<char>>,
    pub verbs: Seq<Seq<char>>,
}

/// Mathematical content of [`RoleManifest`].
pub struct RoleView {
    pub name: Seq<char>,
    pub namespace: Seq<char>,
    pub rules: Seq<PolicyRuleView>,
}

/// Mathematical content of [`Subject`].
pub struct SubjectView {
    pub kind: Seq<char>,
    pub name: Seq<char>,
    pub namespace: Seq<char>,
}

/// Mathematical content of [`RoleRef`].
pub struct RoleRefView {
    pub api_group: Seq<char>,
    pub kind: Seq<char>,
    pub name: Seq<char>,
}

/// Mathematical content of [`RoleBindingManifest`].
pub struct RoleBindingView {
    pub name: Seq<char>,
    pub namespace: Seq<char>,
    pub subjects: Seq<SubjectView>,
    pub role_ref: RoleRefView,
}

/// Mathematical content of [`EnvEntry`].
pub enum EnvEntryView {
    Literal { name: Seq<char>, value: Seq<char> },
    Provided(k8s_openapi::api::core::v1::EnvVar),
}

/// Mathematical content of [`ContainerManifest`].
pub struct ContainerView {
    pub name: Seq<char>,
    pub image: Seq<char>,
    pub image_pull_policy: Seq<char>,
    pub env: Seq<EnvEntryView>,
    pub volume_mounts: Option<Seq<k8s_openapi::api::core::v1::VolumeMount>>,
}

/// Mathematical content of [`CronJobManifest`].
pub struct CronJobView {
    pub name: Seq<char>,
    pub namespace: Seq<char>,
    pub schedule: Seq<char>,
    pub concurrency_policy: Seq<char>,
    pub successful_jobs_history_limit: int,
    pub failed_jobs_history_limit: int,
    pub backoff_limit: int,
    pub pod_name: Seq<char>,
    pub pod_annotations: Option<BTreeMap<String, String>>,
    pub init_containers: Option<Seq<k8s_openapi::api::core::v1::Container>>,
    pub main_container: ContainerView,
    pub volumes: Option<Seq<k8s_openapi::api::core::v1::Volume>>,
    pub service_account_name: Seq<char>,
    pub restart_policy: Seq<char>,
}

/// The items of an optional list.
pub open spec fn optional_items<T>(list: Option<Vec<T>>) -> Option<Seq<T>> {
    match list {
        Some(items) => Some(items@),
        None => None,
    }
}

impl DeepView for ServiceAccountManifest {
    type V = ServiceAccountView;

    open spec fn deep_view(&self) -> ServiceAccountView {
        ServiceAccountView { name: self.name@, namespace: self.namespace@ }
    }
}

impl DeepView for PolicyRule {
    type V = PolicyRuleView;

    open spec fn deep_view(&self) -> PolicyRuleView {
        PolicyRuleView {
            api_groups: self.api_groups.deep_view(),
            resources: self.resources.deep_view(),
            verbs: self.verbs.deep_view(),
        }
    }
}

impl DeepView for RoleManifest {
    type V = RoleView;

    open spec fn deep_view(&self) -> RoleView {
        RoleView { name: self.name@, namespace: self.namespace@, rules: self.rules.deep_view() }
    }
}

impl DeepView for Subject {
    type V = SubjectView;

    open spec fn deep_view(&self) -> SubjectView {
        SubjectView { kind: self.kind@, name: self.name@, namespace: self.namespace@ }
    }
}

impl DeepView for RoleRef {
    type V = RoleRefView;

    open spec fn deep_view(&self) -> RoleRefView {
        RoleRefView { api_group: self.api_group@, kind: self.kind@, name: self.name@ }
    }
}

impl DeepView for RoleBindingManifest {
    type V = RoleBindingView;

    open spec fn deep_view(&self) -> RoleBindingView {
        RoleBindingView {
            name: self.name@,
            namespace: self.namespace@,
            subjects: self.subjects.deep_view(),
            role_ref: self.role_ref.deep_view(),
        }
    }
}

impl DeepView for EnvEntry {
    type V = EnvEntryView;

    open spec fn deep_view(&self) -> EnvEntryView {
        match self {
            EnvEntry::Literal { name, value } => EnvEntryView::Literal {
                name: name@,
                value: value@,
            },
            EnvEntry::Provided(var) => EnvEntryView::Provided(*var),
        }
    }
}

impl DeepView for ContainerManifest {
    type V = ContainerView;

    open spec fn deep_view(&self) -> ContainerView {
        ContainerView {
            name: self.name@,
            image: self.image@,
            image_pull_policy: self.image_pull_policy@,
            env: self.env.deep_view(),
            volume_mounts: optional_items(self.volume_mounts),
        }
    }
}

impl DeepView for CronJobManifest {
    type V = CronJobView;

    open spec fn deep_view(&self) -> CronJobView {
        CronJobView {
            name: self.name@,
            namespace: self.namespace@,
            schedule: self.schedule@,
            concurrency_policy: self.concurrency_policy@,
            successful_jobs_history_limit: self.successful_jobs_history_limit as int,
            failed_jobs_history_limit: self.failed_jobs_history_limit as int,
            backoff_limit: self.backoff_limit as int,
            pod_name: self.pod_name@,
            pod_annotations: self.pod_annotations,
            init_containers: optional_items(self.init_containers),
            main_container: self.main_container.deep_view(),
            volumes: optional_items(self.volumes),
            service_account_name: self.service_account_name@,
            restart_policy: self.restart_policy@,
        }
    }
}

} // verus!
