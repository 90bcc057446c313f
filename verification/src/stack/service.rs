//! The stack service: what is generated for a stack, and in which order
//! the cluster is asked to take it.

use crate::config_provider::{ConfigError, ConfigProvider, VarError};
use crate::kubernetes::manifest::{
    optional_items, ContainerManifest, ContainerView, CronJobManifest, CronJobView, EnvEntry,
    EnvEntryView, PolicyRule, PolicyRuleView, RoleBindingManifest, RoleBindingView, RoleManifest,
    RoleRef, RoleRefView, RoleView, ServiceAccountManifest, ServiceAccountView, Subject,
    SubjectView,
};
use crate::kubernetes::service::ApiFailure;
use crate::stack::crd::{MainContainerOverride, PulumiStack, StackSpec};
use std::collections::BTreeMap;
use vstd::prelude::*;

verus! {

/// Which generated object an update could not write.
#[derive(Debug, Clone, Copy, PartialEq, Eq, Structural)]
pub enum UpdateFailure {
    ServiceAccount,
    Role,
    RoleBinding,
    Workload,
}

/// Why the stack service gave up.
#[derive(Debug, Clone, Copy, PartialEq, Eq, Structural)]
pub enum PulumiStackServiceError {
    /// The scheduled workload could not be revoked, for the cause given.
    CancelFailed(ApiFailure),
    /// The operator's configuration is incomplete.
    Config(ConfigError),
    /// A generated object could not be written, for the cause given.
    UpdateFailed(UpdateFailure, ApiFailure),
}

/// Everything an update writes, and the workload it first revokes.
#[derive(Debug)]
pub struct UpdatePlan {
    pub service_account: ServiceAccountManifest,
    pub role: RoleManifest,
    pub role_binding: RoleBindingManifest,
    pub cron_job: CronJobManifest,
}

/// The workload that a cancellation revokes.
#[derive(Debug)]
pub struct CancelPlan {
    pub workload_namespace: String,
    pub workload_name: String,
}

/// Mathematical content of [`UpdatePlan`].
pub struct UpdatePlanView {
    pub service_account: ServiceAccountView,
    pub role: RoleView,
    pub role_binding: RoleBindingView,
    pub cron_job: CronJobView,
}

impl DeepView for UpdatePlan {
    type V = UpdatePlanView;

    open spec fn deep_view(&self) -> UpdatePlanView {
        UpdatePlanView {
            service_account: self.service_account.deep_view(),
            role: self.role.deep_view(),
            role_binding: self.role_binding.deep_view(),
            cron_job: self.cron_job.deep_view(),
        }
    }
}

/// Materializes stacks as workloads in the operator namespace.
#[derive(Debug)]
pub struct KubernetesPulumiStackService {
    pub config_provider: ConfigProvider,
}

/// Plans the materialization of stacks and its undoing.
pub trait PulumiStackService {
    /// What reading the operator namespace gave: the namespace that hosts
    /// the scheduled workloads, or why there is none.
    spec fn operator_namespace(&self) -> Result<Seq<char>, VarError>;

    /// Everything that an update of `stack` writes.
    ///
    /// Fails with `Config` exactly when the operator namespace is not
    /// configured.
    fn update_stack(&self, stack: PulumiStack) -> (planned: Result<
        UpdatePlan,
        PulumiStackServiceError,
    >)
        requires
            addressable(stack),
        ensures
            match planned {
                Ok(plan) => self.operator_namespace() is Ok && plan.deep_view() == update_plan_of(
                    stack,
                    self.operator_namespace()->Ok_0,
                ),
                Err(e) => self.operator_namespace() is Err && e == PulumiStackServiceError::Config(
                    ConfigError::Var(self.operator_namespace()->Err_0),
                ),
            },
    ;

    /// The workload that a cancellation of `stack` revokes.
    ///
    /// Fails with `Config` exactly when the operator namespace is not
    /// configured.
    fn cancel_stack(&self, stack: &PulumiStack) -> (planned: Result<
        CancelPlan,
        PulumiStackServiceError,
    >)
        requires
            addressable(*stack),
        ensures
            match planned {
                Ok(plan) => {
                    &&& self.operator_namespace() == Ok::<Seq<char>, VarError>(
                        plan.workload_namespace@,
                    )
                    &&& plan.workload_name@ == workload_name(name_of(*stack))
                },
                Err(e) => self.operator_namespace() is Err && e == PulumiStackServiceError::Config(
                    ConfigError::Var(self.operator_namespace()->Err_0),
                ),
            },
    ;
}

/// Whether a stack carries both a name and a namespace.
pub open spec fn addressable(stack: PulumiStack) -> bool {
    stack.metadata.name is Some && stack.metadata.namespace is Some
}

/// Name of an addressable stack.
pub open spec fn name_of(stack: PulumiStack) -> Seq<char> {
    stack.metadata.name->0@
}

/// Namespace of an addressable stack.
pub open spec fn namespace_of(stack: PulumiStack) -> Seq<char> {
    stack.metadata.namespace->0@
}

/// Name of the scheduled workload of the stack called `name`.
pub open spec fn workload_name(name: Seq<char>) -> Seq<char> {
    "pulumi-"@ + name
}

/// Image of the worker container.
pub open spec fn worker_image() -> Seq<char> {
    "ghcr.io/stromee/pulumi-operator/pulumi-operator-kubernetes-job:1.0.25"@
}

/// The service account of a stack: named like the stack, in its namespace.
pub open spec fn service_account_of(name: Seq<char>, namespace: Seq<char>) -> ServiceAccountView {
    ServiceAccountView { name, namespace }
}

/// The role of a stack: every verb on every resource of every API group,
/// within the stack's namespace.
pub open spec fn role_of(name: Seq<char>, namespace: Seq<char>) -> RoleView {
    RoleView {
        name,
        namespace,
        rules: seq![
            PolicyRuleView {
                api_groups: seq!["*"@],
                resources: seq!["*"@],
                verbs: seq!["*"@],
            },
        ],
    }
}

/// The role binding of a stack: grants the stack's role to the stack's
/// service account.
pub open spec fn role_binding_of(name: Seq<char>, namespace: Seq<char>) -> RoleBindingView {
    RoleBindingView {
        name,
        namespace,
        subjects: seq![SubjectView { kind: "ServiceAccount"@, name, namespace }],
        role_ref: RoleRefView {
            api_group: "rbac.authorization.k8s.io"@,
            kind: "Role"@,
            name,
        },
    }
}

/// The variables that the operator sets on every worker container.
pub open spec fn baseline_env(
    name: Seq<char>,
    namespace: Seq<char>,
    operator_namespace: Seq<char>,
) -> Seq<EnvEntryView> {
    seq![
        EnvEntryView::Literal { name: "PULUMI_STACK"@, value: name },
        EnvEntryView::Literal { name: "WATCH_NAMESPACE"@, value: namespace },
        EnvEntryView::Literal { name: "OPERATOR_NAMESPACE"@, value: operator_namespace },
        EnvEntryView::Literal { name: "RUST_BACKTRACE"@, value: "full"@ },
        EnvEntryView::Literal { name: "RUST_LOG"@, value: "trace"@ },
    ]
}

/// User-supplied variables as entries of the worker container.
pub open spec fn provided_env(vars: Seq<k8s_openapi::api::core::v1::EnvVar>) -> Seq<
    EnvEntryView,
> {
    Seq::new(vars.len(), |i: int| EnvEntryView::Provided(vars[i]))
}

/// The variables that a stack adds to the worker container.
pub open spec fn extra_env_of(spec: StackSpec) -> Seq<k8s_openapi::api::core::v1::EnvVar> {
    match spec.main_container {
        Some(MainContainerOverride { extra_env: Some(vars), .. }) => vars@,
        _ => Seq::empty(),
    }
}

/// The volume mounts that a stack adds to the worker container.
pub open spec fn extra_mounts_of(spec: StackSpec) -> Option<
    Seq<k8s_openapi::api::core::v1::VolumeMount>,
> {
    match spec.main_container {
        Some(container) => optional_items(container.extra_volume_mounts),
        None => None,
    }
}

/// The annotations that a stack adds to the worker pod.
pub open spec fn extra_annotations_of(spec: StackSpec) -> Option<BTreeMap<String, String>> {
    match spec.main_pod {
        Some(pod) => pod.extra_annotations,
        None => None,
    }
}

/// The worker container of a stack: the pinned image, always pulled, with
/// the operator's variables first and the stack's own after them.
pub open spec fn main_container_of(stack: PulumiStack, operator_namespace: Seq<char>) -> ContainerView {
    ContainerView {
        name: "pulumi"@,
        image: worker_image(),
        image_pull_policy: "Always"@,
        env: baseline_env(name_of(stack), namespace_of(stack), operator_namespace) + provided_env(
            extra_env_of(stack.spec),
        ),
        volume_mounts: extra_mounts_of(stack.spec),
    }
}

/// The scheduled workload of a stack: `pulumi-<name>` in the operator
/// namespace, due every minute, never two runs at once, one finished run
/// kept of each outcome; the pod runs under the stack's service account
/// and is not restarted.
pub open spec fn cron_job_of(stack: PulumiStack, operator_namespace: Seq<char>) -> CronJobView {
    CronJobView {
        name: workload_name(name_of(stack)),
        namespace: operator_namespace,
        schedule: "* * * * *"@,
        concurrency_policy: "Forbid"@,
        successful_jobs_history_limit: 1,
        failed_jobs_history_limit: 1,
        backoff_limit: 100,
        pod_name: "pulumi"@,
        pod_annotations: extra_annotations_of(stack.spec),
        init_containers: optional_items(stack.spec.init_containers),
        main_container: main_container_of(stack, operator_namespace),
        volumes: optional_items(stack.spec.extra_volumes),
        service_account_name: name_of(stack),
        restart_policy: "Never"@,
    }
}

/// Everything that an update of a stack writes.
pub open spec fn update_plan_of(stack: PulumiStack, operator_namespace: Seq<char>) -> UpdatePlanView {
    UpdatePlanView {
        service_account: service_account_of(name_of(stack), namespace_of(stack)),
        role: role_of(name_of(stack), namespace_of(stack)),
        role_binding: role_binding_of(name_of(stack), namespace_of(stack)),
        cron_job: cron_job_of(stack, operator_namespace),
    }
}

fn text(s: &str) -> (owned: String)
    ensures
        owned@ == s@,
{
    String::from_str(s)
}

fn wildcard() -> (list: Vec<String>)
    ensures
        list.deep_view() == seq!["*"@],
{
    let mut list: Vec<String> = Vec::new();
    list.push(text("*"));
    assert(list.deep_view() =~= seq!["*"@]);
    list
}

fn literal(name: &str, value: &str) -> (entry: EnvEntry)
    ensures
        entry.deep_view() == (EnvEntryView::Literal { name: name@, value: value@ }),
{
    EnvEntry::Literal { name: text(name), value: text(value) }
}

fn worker_env(
    name: &str,
    namespace: &str,
    operator_namespace: &str,
    extra: Option<Vec<k8s_openapi::api::core::v1::EnvVar>>,
) -> (env: Vec<EnvEntry>)
    ensures
        env.deep_view() == baseline_env(name@, namespace@, operator_namespace@) + provided_env(
            match extra {
                Some(vars) => vars@,
                None => Seq::empty(),
            },
        ),
{
    let mut env: Vec<EnvEntry> = Vec::new();
    env.push(literal("PULUMI_STACK", name));
    env.push(literal("WATCH_NAMESPACE", namespace));
    env.push(literal(ConfigProvider::operator_ns_var_name(), operator_namespace));
    env.push(literal("RUST_BACKTRACE", "full"));
    env.push(literal("RUST_LOG", "trace"));
    let ghost base = baseline_env(name@, namespace@, operator_namespace@);
    assert(env.deep_view() =~= base);
    match extra {
        Some(vars) => {
            let ghost all = vars@;
            let mut vars = vars;
            while vars.len() > 0
                invariant
                    vars@.len() <= all.len(),
                    vars@ =~= all.subrange(all.len() - vars@.len(), all.len() as int),
                    env.deep_view() =~= base + provided_env(
                        all.subrange(0, all.len() - vars@.len()),
                    ),
                decreases vars.len(),
            {
                let ghost before = env.deep_view();
                let ghost done = all.len() - vars@.len();
                let var = vars.remove(0);
                assert(var == all[done]);
                env.push(EnvEntry::Provided(var));
                assert(env.deep_view() =~= before.push(EnvEntryView::Provided(var)));
                assert(all.subrange(0, done + 1) =~= all.subrange(0, done).push(all[done]));
            }
            assert(all.subrange(0, all.len() as int) =~= all);
        },
        None => {
            assert(env.deep_view() =~= base + provided_env(Seq::empty()));
        },
    }
    env
}

impl KubernetesPulumiStackService {
    /// The service account that an update writes for `stack`.
    pub fn create_service_account(&self, stack: &PulumiStack) -> (manifest: ServiceAccountManifest)
        requires
            addressable(*stack),
        ensures
            manifest.deep_view() == service_account_of(name_of(*stack), namespace_of(*stack)),
    {
        let name = stack.metadata.name.as_ref().unwrap();
        let namespace = stack.metadata.namespace.as_ref().unwrap();
        ServiceAccountManifest { name: name.clone(), namespace: namespace.clone() }
    }

    /// The role that an update writes for `stack`.
    pub fn create_role(&self, stack: &PulumiStack) -> (manifest: RoleManifest)
        requires
            addressable(*stack),
        ensures
            manifest.deep_view() == role_of(name_of(*stack), namespace_of(*stack)),
    {
        let name = stack.metadata.name.as_ref().unwrap();
        let namespace = stack.metadata.namespace.as_ref().unwrap();
        let rule = PolicyRule { api_groups: wildcard(), resources: wildcard(), verbs: wildcard() };
        let mut rules: Vec<PolicyRule> = Vec::new();
        rules.push(rule);
        let manifest = RoleManifest { name: name.clone(), namespace: namespace.clone(), rules };
        assert(manifest.rules.deep_view() =~= role_of(name@, namespace@).rules);
        manifest
    }

    /// The role binding that an update writes for `stack`.
    pub fn create_role_binding(&self, stack: &PulumiStack) -> (manifest: RoleBindingManifest)
        requires
            addressable(*stack),
        ensures
            manifest.deep_view() == role_binding_of(name_of(*stack), namespace_of(*stack)),
    {
        let name = stack.metadata.name.as_ref().unwrap();
        let namespace = stack.metadata.namespace.as_ref().unwrap();
        let subject = Subject {
            kind: text("ServiceAccount"),
            name: name.clone(),
            namespace: namespace.clone(),
        };
        let mut subjects: Vec<Subject> = Vec::new();
        subjects.push(subject);
        let manifest = RoleBindingManifest {
            name: name.clone(),
            namespace: namespace.clone(),
            subjects,
            role_ref: RoleRef {
                api_group: text("rbac.authorization.k8s.io"),
                kind: text("Role"),
                name: name.clone(),
            },
        };
        assert(manifest.subjects.deep_view() =~= role_binding_of(name@, namespace@).subjects);
        manifest
    }
}

impl PulumiStackService for KubernetesPulumiStackService {
    open spec fn operator_namespace(&self) -> Result<Seq<char>, VarError> {
        self.config_provider@
    }

    fn update_stack(&self, stack: PulumiStack) -> (planned: Result<
        UpdatePlan,
        PulumiStackServiceError,
    >) {
        let operator_namespace = match self.config_provider.operator_namespace() {
            Ok(ns) => ns,
            Err(e) => {
                return Err(PulumiStackServiceError::Config(e));
            },
        };
        let service_account = self.create_service_account(&stack);
        let role = self.create_role(&stack);
        let role_binding = self.create_role_binding(&stack);
        let PulumiStack { metadata, spec, status: _ } = stack;
        let name = metadata.name.unwrap();
        let namespace = metadata.namespace.unwrap();
        let StackSpec {
            stack_name: _,
            source: _,
            auth: _,
            path: _,
            init_containers,
            extra_volumes,
            main_container,
            main_pod,
            organization: _,
        } = spec;
        let (extra_mounts, extra_env) = match main_container {
            Some(MainContainerOverride { extra_volume_mounts, extra_env }) => (
                extra_volume_mounts,
                extra_env,
            ),
            None => (None, None),
        };
        let pod_annotations = match main_pod {
            Some(pod) => pod.extra_annotations,
            None => None,
        };
        let container = ContainerManifest {
            name: text("pulumi"),
            image: text("ghcr.io/stromee/pulumi-operator/pulumi-operator-kubernetes-job:1.0.25"),
            image_pull_policy: text("Always"),
            env: worker_env(
                name.as_str(),
                namespace.as_str(),
                operator_namespace.as_str(),
                extra_env,
            ),
            volume_mounts: extra_mounts,
        };
        let cron_job = CronJobManifest {
            name: text("pulumi-").concat(name.as_str()),
            namespace: operator_namespace,
            schedule: text("* * * * *"),
            concurrency_policy: text("Forbid"),
            successful_jobs_history_limit: 1,
            failed_jobs_history_limit: 1,
            backoff_limit: 100,
            pod_name: text("pulumi"),
            pod_annotations,
            init_containers,
            main_container: container,
            volumes: extra_volumes,
            service_account_name: name,
            restart_policy: text("Never"),
        };
        Ok(UpdatePlan { service_account, role, role_binding, cron_job })
    }

    fn cancel_stack(&self, stack: &PulumiStack) -> (planned: Result<
        CancelPlan,
        PulumiStackServiceError,
    >) {
        let operator_namespace = match self.config_provider.operator_namespace() {
            Ok(ns) => ns,
            Err(e) => {
                return Err(PulumiStackServiceError::Config(e));
            },
        };
        let name = stack.metadata.name.as_ref().unwrap();
        Ok(
            CancelPlan {
                workload_namespace: operator_namespace,
                workload_name: text("pulumi-").concat(name.as_str()),
            },
        )
    }
}

} // verus!
