use pulumi_operator::config_provider::{ConfigError, ConfigProvider, VarError};
use pulumi_operator::kubernetes::manifest::EnvEntry;
use pulumi_operator::kubernetes::object::ObjectMeta;
use pulumi_operator::kubernetes::service::ApiFailure;
use pulumi_operator::stack::crd::{
    MainContainerOverride, MainPodOverride, PulumiStack, StackAuthRef, StackAuthRefType,
    StackSourceRef, StackSourceRefType, StackSpec,
};
use pulumi_operator::stack::service::{
    KubernetesPulumiStackService, PulumiStackService, PulumiStackServiceError, UpdateFailure,
    UpdatePlan,
};
use pulumi_operator::stack::service_steps::{
    advance, classify, start, AbortCause, Goal, ObjectKind, Rbac, Reply, ServiceOutcome,
    ServiceRequest, ServiceState, ServiceStep, Signal, CANCEL_GRACE_PERIOD_SECONDS,
    CANCEL_TIMEOUT_SECONDS,
};
use std::collections::{BTreeMap, BTreeSet};

type GivenContainer = k8s_openapi::api::core::v1::Container;
type GivenVariable = k8s_openapi::api::core::v1::EnvVar;
type GivenVolume = k8s_openapi::api::core::v1::Volume;
type GivenMount = k8s_openapi::api::core::v1::VolumeMount;

fn stack(name: &str, namespace: &str) -> PulumiStack {
    PulumiStack {
        metadata: ObjectMeta {
            name: Some(name.to_string()),
            namespace: Some(namespace.to_string()),
            finalizers: None,
            deletion_timestamp: None,
        },
        spec: StackSpec {
            stack_name: Some("dev".to_string()),
            source: StackSourceRef { name: name.to_string(), type_: StackSourceRefType::Git },
            auth: StackAuthRef { name: name.to_string(), type_: StackAuthRefType::Namespace },
            path: None,
            init_containers: None,
            extra_volumes: None,
            main_container: None,
            main_pod: None,
            organization: None,
        },
        status: None,
    }
}

fn service(operator_namespace: &str) -> KubernetesPulumiStackService {
    KubernetesPulumiStackService {
        config_provider: ConfigProvider::new(Ok(operator_namespace.to_string())),
    }
}

fn literal(entry: &EnvEntry) -> (String, String) {
    match entry {
        EnvEntry::Literal { name, value } => (name.clone(), value.clone()),
        other => panic!("expected a literal variable, got {:?}", other),
    }
}

fn strings(items: &[&str]) -> Vec<String> {
    items.iter().map(|s| s.to_string()).collect()
}

/// A cluster that holds objects by kind, namespace and name; the deletion
/// of a workload shows up as the next event of the watch.
struct Cluster {
    objects: BTreeSet<(String, String, String)>,
    doomed: Option<String>,
    noise: usize,
    refuse: Option<ServiceRequest>,
    log: Vec<ServiceRequest>,
}

impl Cluster {
    fn empty() -> Cluster {
        Cluster { objects: BTreeSet::new(), doomed: None, noise: 0, refuse: None, log: Vec::new() }
    }

    fn key(plan: &UpdatePlan, object: Rbac) -> (String, String, String) {
        match object {
            Rbac::ServiceAccount => (
                "ServiceAccount".to_string(),
                plan.service_account.namespace.clone(),
                plan.service_account.name.clone(),
            ),
            Rbac::Role => ("Role".to_string(), plan.role.namespace.clone(), plan.role.name.clone()),
            Rbac::RoleBinding => (
                "RoleBinding".to_string(),
                plan.role_binding.namespace.clone(),
                plan.role_binding.name.clone(),
            ),
        }
    }

    fn workload(plan: &UpdatePlan) -> (String, String, String) {
        ("CronJob".to_string(), plan.cron_job.namespace.clone(), plan.cron_job.name.clone())
    }

    fn serve(&mut self, plan: &UpdatePlan, request: ServiceRequest) -> Reply {
        self.log.push(request);
        if self.refuse == Some(request) {
            return Reply::Rejected(REFUSED);
        }
        match request {
            ServiceRequest::GetWorkload => {
                if self.objects.contains(&Self::workload(plan)) {
                    Reply::Found
                } else {
                    Reply::Missing
                }
            }
            ServiceRequest::DeleteWorkload { .. } => {
                if self.objects.contains(&Self::workload(plan)) {
                    self.doomed = Some(plan.cron_job.name.clone());
                    Reply::Accepted
                } else {
                    Reply::Rejected(ApiFailure::Status { code: 409 })
                }
            }
            ServiceRequest::WatchWorkloads { .. } => Reply::Accepted,
            ServiceRequest::NextEvent => {
                if self.noise > 0 {
                    self.noise -= 1;
                    if self.noise % 2 == 0 {
                        Reply::OtherEvent
                    } else {
                        Reply::Deleted { name: Some("pulumi-someone-else".to_string()) }
                    }
                } else {
                    match self.doomed.take() {
                        Some(name) => {
                            self.objects.remove(&Self::workload(plan));
                            Reply::Deleted { name: Some(name) }
                        }
                        None => Reply::TimedOut,
                    }
                }
            }
            ServiceRequest::Get(object) => {
                if self.objects.contains(&Self::key(plan, object)) {
                    Reply::Found
                } else {
                    Reply::Missing
                }
            }
            ServiceRequest::Replace(object) => {
                if self.objects.contains(&Self::key(plan, object)) {
                    Reply::Accepted
                } else {
                    Reply::Rejected(ApiFailure::Status { code: 409 })
                }
            }
            ServiceRequest::Create(object) => {
                if self.objects.insert(Self::key(plan, object)) {
                    Reply::Accepted
                } else {
                    Reply::Rejected(ApiFailure::Status { code: 409 })
                }
            }
            ServiceRequest::CreateWorkload => {
                if self.objects.insert(Self::workload(plan)) {
                    Reply::Accepted
                } else {
                    Reply::Rejected(ApiFailure::Status { code: 409 })
                }
            }
        }
    }

    fn run(&mut self, plan: &UpdatePlan, goal: Goal) -> ServiceOutcome {
        let (mut state, mut step) = start();
        loop {
            match step {
                ServiceStep::Finish(outcome) => return outcome,
                ServiceStep::Call(request) => {
                    let reply = self.serve(plan, request);
                    let following =
                        advance(goal, state, classify(plan.cron_job.name.as_str(), &reply));
                    state = following.0;
                    step = following.1;
                }
            }
        }
    }
}

const REFUSED: ApiFailure = ApiFailure::Status { code: 403 };

fn demo_plan() -> UpdatePlan {
    service("operators").update_stack(stack("demo", "team-a")).unwrap()
}

fn cron_jobs_named(cluster: &Cluster, namespace: &str, name: &str) -> usize {
    cluster
        .objects
        .iter()
        .filter(|(kind, ns, n)| kind == "CronJob" && ns == namespace && n == name)
        .count()
}

#[test]
fn the_generated_objects_of_demo_in_team_a() {
    let plan = demo_plan();

    assert_eq!(plan.service_account.name, "demo");
    assert_eq!(plan.service_account.namespace, "team-a");

    assert_eq!(plan.role.name, "demo");
    assert_eq!(plan.role.namespace, "team-a");
    assert_eq!(plan.role.rules.len(), 1);
    assert_eq!(plan.role.rules[0].api_groups, strings(&["*"]));
    assert_eq!(plan.role.rules[0].resources, strings(&["*"]));
    assert_eq!(plan.role.rules[0].verbs, strings(&["*"]));

    assert_eq!(plan.role_binding.name, "demo");
    assert_eq!(plan.role_binding.namespace, "team-a");
    assert_eq!(plan.role_binding.subjects.len(), 1);
    assert_eq!(plan.role_binding.subjects[0].kind, "ServiceAccount");
    assert_eq!(plan.role_binding.subjects[0].name, "demo");
    assert_eq!(plan.role_binding.subjects[0].namespace, "team-a");
    assert_eq!(plan.role_binding.role_ref.api_group, "rbac.authorization.k8s.io");
    assert_eq!(plan.role_binding.role_ref.kind, "Role");
    assert_eq!(plan.role_binding.role_ref.name, "demo");

    let job = &plan.cron_job;
    assert_eq!(job.name, "pulumi-demo");
    assert_eq!(job.namespace, "operators");
    assert_eq!(job.schedule, "* * * * *");
    assert_eq!(job.concurrency_policy, "Forbid");
    assert_eq!(job.successful_jobs_history_limit, 1);
    assert_eq!(job.failed_jobs_history_limit, 1);
    assert_eq!(job.backoff_limit, 100);
    assert_eq!(job.pod_name, "pulumi");
    assert_eq!(job.service_account_name, "demo");
    assert_eq!(job.restart_policy, "Never");
    assert!(job.pod_annotations.is_none());
    assert!(job.init_containers.is_none());
    assert!(job.volumes.is_none());
}

#[test]
fn the_worker_container_carries_the_baseline() {
    let plan = demo_plan();
    let container = &plan.cron_job.main_container;
    assert_eq!(container.name, "pulumi");
    assert_eq!(
        container.image,
        "ghcr.io/stromee/pulumi-operator/pulumi-operator-kubernetes-job:1.0.25"
    );
    assert_eq!(container.image_pull_policy, "Always");
    assert!(container.volume_mounts.is_none());
    let env: Vec<(String, String)> = container.env.iter().map(literal).collect();
    let expected: Vec<(String, String)> = [
        ("PULUMI_STACK", "demo"),
        ("WATCH_NAMESPACE", "team-a"),
        ("OPERATOR_NAMESPACE", "operators"),
        ("RUST_BACKTRACE", "full"),
        ("RUST_LOG", "trace"),
    ]
    .iter()
    .map(|(n, v)| (n.to_string(), v.to_string()))
    .collect();
    assert_eq!(env, expected);
}

#[test]
fn overrides_are_merged_into_the_workload() {
    let mut wanted = stack("shop", "team-b");
    let init = GivenContainer { name: "fetch-tools".to_string(), ..GivenContainer::default() };
    let volume = GivenVolume { name: "cache".to_string(), ..GivenVolume::default() };
    let mount = GivenMount {
        name: "cache".to_string(),
        mount_path: "/cache".to_string(),
        ..GivenMount::default()
    };
    let first = GivenVariable { name: "A".to_string(), value: Some("1".to_string()), value_from: None };
    let second = GivenVariable { name: "B".to_string(), value: None, value_from: None };
    let third = GivenVariable { name: "C".to_string(), value: Some("3".to_string()), value_from: None };
    let mut annotations = BTreeMap::new();
    annotations.insert("team".to_string(), "b".to_string());
    wanted.spec.init_containers = Some(vec![init.clone()]);
    wanted.spec.extra_volumes = Some(vec![volume.clone()]);
    wanted.spec.main_container = Some(MainContainerOverride {
        extra_volume_mounts: Some(vec![mount.clone()]),
        extra_env: Some(vec![first.clone(), second.clone(), third.clone()]),
    });
    wanted.spec.main_pod = Some(MainPodOverride { extra_annotations: Some(annotations.clone()) });

    let plan = service("operators").update_stack(wanted).unwrap();
    let job = &plan.cron_job;
    assert_eq!(job.name, "pulumi-shop");
    assert_eq!(job.init_containers, Some(vec![init]));
    assert_eq!(job.volumes, Some(vec![volume]));
    assert_eq!(job.pod_annotations, Some(annotations));
    assert_eq!(job.main_container.volume_mounts, Some(vec![mount]));
    assert_eq!(job.main_container.env.len(), 8);
    assert_eq!(literal(&job.main_container.env[0]), ("PULUMI_STACK".to_string(), "shop".to_string()));
    assert_eq!(literal(&job.main_container.env[4]), ("RUST_LOG".to_string(), "trace".to_string()));
    let provided: Vec<GivenVariable> = job.main_container.env[5..]
        .iter()
        .map(|entry| match entry {
            EnvEntry::Provided(var) => var.clone(),
            other => panic!("expected a provided variable, got {:?}", other),
        })
        .collect();
    assert_eq!(provided, vec![first, second, third]);
}

#[test]
fn an_override_without_additions_changes_nothing() {
    let mut wanted = stack("demo", "team-a");
    wanted.spec.main_container =
        Some(MainContainerOverride { extra_volume_mounts: None, extra_env: Some(Vec::new()) });
    wanted.spec.main_pod = Some(MainPodOverride { extra_annotations: None });
    let plan = service("operators").update_stack(wanted).unwrap();
    assert_eq!(plan.cron_job.main_container.env.len(), 5);
    assert!(plan.cron_job.main_container.volume_mounts.is_none());
    assert!(plan.cron_job.pod_annotations.is_none());
}

#[test]
fn each_access_object_is_built_on_its_own() {
    let svc = service("operators");
    let wanted = stack("demo", "team-a");
    let account = svc.create_service_account(&wanted);
    assert_eq!((account.name.as_str(), account.namespace.as_str()), ("demo", "team-a"));
    let role = svc.create_role(&wanted);
    assert_eq!((role.name.as_str(), role.namespace.as_str()), ("demo", "team-a"));
    assert_eq!(role.rules[0].verbs, strings(&["*"]));
    let binding = svc.create_role_binding(&wanted);
    assert_eq!((binding.name.as_str(), binding.namespace.as_str()), ("demo", "team-a"));
    assert_eq!(binding.subjects[0].name, "demo");
    assert_eq!(binding.role_ref.name, "demo");
}

#[test]
fn a_missing_operator_namespace_is_a_configuration_error() {
    for cause in [VarError::NotPresent, VarError::NotUnicode] {
        let svc = KubernetesPulumiStackService { config_provider: ConfigProvider::new(Err(cause)) };
        assert_eq!(
            svc.update_stack(stack("demo", "team-a")).unwrap_err(),
            PulumiStackServiceError::Config(ConfigError::Var(cause))
        );
        assert_eq!(
            svc.cancel_stack(&stack("demo", "team-a")).unwrap_err(),
            PulumiStackServiceError::Config(ConfigError::Var(cause))
        );
    }
}

#[test]
fn a_cancellation_targets_the_workload_in_the_operator_namespace() {
    let plan = service("operators").cancel_stack(&stack("demo", "team-a")).unwrap();
    assert_eq!(plan.workload_name, "pulumi-demo");
    assert_eq!(plan.workload_namespace, "operators");
}

#[test]
fn a_first_update_creates_everything_in_order() {
    let plan = demo_plan();
    let mut cluster = Cluster::empty();
    assert_eq!(cluster.run(&plan, Goal::Update), ServiceOutcome::Done);
    assert_eq!(
        cluster.log,
        vec![
            ServiceRequest::GetWorkload,
            ServiceRequest::Get(Rbac::ServiceAccount),
            ServiceRequest::Create(Rbac::ServiceAccount),
            ServiceRequest::Get(Rbac::Role),
            ServiceRequest::Create(Rbac::Role),
            ServiceRequest::Get(Rbac::RoleBinding),
            ServiceRequest::Create(Rbac::RoleBinding),
            ServiceRequest::CreateWorkload,
        ]
    );
    let expected: BTreeSet<(String, String, String)> = [
        ("ServiceAccount", "team-a", "demo"),
        ("Role", "team-a", "demo"),
        ("RoleBinding", "team-a", "demo"),
        ("CronJob", "operators", "pulumi-demo"),
    ]
    .iter()
    .map(|(k, ns, n)| (k.to_string(), ns.to_string(), n.to_string()))
    .collect();
    assert_eq!(cluster.objects, expected);
    assert_eq!(cron_jobs_named(&cluster, "operators", "pulumi-demo"), 1);
}

#[test]
fn a_second_update_revokes_replaces_and_recreates() {
    let plan = demo_plan();
    let mut cluster = Cluster::empty();
    assert_eq!(cluster.run(&plan, Goal::Update), ServiceOutcome::Done);
    let after_first = cluster.objects.clone();
    cluster.log.clear();
    assert_eq!(cluster.run(&plan, Goal::Update), ServiceOutcome::Done);
    assert_eq!(
        cluster.log,
        vec![
            ServiceRequest::GetWorkload,
            ServiceRequest::DeleteWorkload { grace_period_seconds: 15, foreground: true },
            ServiceRequest::WatchWorkloads { timeout_seconds: 1800 },
            ServiceRequest::NextEvent,
            ServiceRequest::Get(Rbac::ServiceAccount),
            ServiceRequest::Replace(Rbac::ServiceAccount),
            ServiceRequest::Get(Rbac::Role),
            ServiceRequest::Replace(Rbac::Role),
            ServiceRequest::Get(Rbac::RoleBinding),
            ServiceRequest::Replace(Rbac::RoleBinding),
            ServiceRequest::CreateWorkload,
        ]
    );
    assert_eq!(cluster.objects, after_first);
    assert_eq!(cron_jobs_named(&cluster, "operators", "pulumi-demo"), 1);
}

#[test]
fn a_cancellation_removes_the_workload_and_nothing_else() {
    let plan = demo_plan();
    let mut cluster = Cluster::empty();
    cluster.objects.insert(("CronJob".to_string(), "operators".to_string(), "pulumi-other".to_string()));
    assert_eq!(cluster.run(&plan, Goal::Update), ServiceOutcome::Done);
    cluster.log.clear();
    cluster.noise = 3;
    assert_eq!(cluster.run(&plan, Goal::Cancel), ServiceOutcome::Done);
    assert_eq!(cron_jobs_named(&cluster, "operators", "pulumi-demo"), 0);
    assert_eq!(cron_jobs_named(&cluster, "operators", "pulumi-other"), 1);
    assert_eq!(cluster.objects.len(), 4);
    assert_eq!(cluster.log.iter().filter(|r| **r == ServiceRequest::NextEvent).count(), 4);
}

#[test]
fn a_cancellation_without_a_workload_returns_at_once() {
    let plan = demo_plan();
    let mut cluster = Cluster::empty();
    assert_eq!(cluster.run(&plan, Goal::Cancel), ServiceOutcome::Done);
    assert_eq!(cluster.log, vec![ServiceRequest::GetWorkload]);
    assert!(cluster.objects.is_empty());
}

#[test]
fn an_update_after_a_cancellation_equals_the_update_alone() {
    let plan = demo_plan();
    let mut alone = Cluster::empty();
    assert_eq!(alone.run(&plan, Goal::Update), ServiceOutcome::Done);
    assert_eq!(alone.run(&plan, Goal::Update), ServiceOutcome::Done);

    let mut both = Cluster::empty();
    assert_eq!(both.run(&plan, Goal::Update), ServiceOutcome::Done);
    assert_eq!(both.run(&plan, Goal::Cancel), ServiceOutcome::Done);
    assert_eq!(both.run(&plan, Goal::Update), ServiceOutcome::Done);
    assert_eq!(both.objects, alone.objects);
}

#[test]
fn a_refused_deletion_fails_the_cancellation() {
    let plan = demo_plan();
    let mut cluster = Cluster::empty();
    assert_eq!(cluster.run(&plan, Goal::Update), ServiceOutcome::Done);
    cluster.refuse = Some(ServiceRequest::DeleteWorkload {
        grace_period_seconds: CANCEL_GRACE_PERIOD_SECONDS,
        foreground: true,
    });
    assert_eq!(
        cluster.run(&plan, Goal::Cancel),
        ServiceOutcome::Failed(PulumiStackServiceError::CancelFailed(REFUSED))
    );
    assert_eq!(
        cluster.run(&plan, Goal::Update),
        ServiceOutcome::Failed(PulumiStackServiceError::CancelFailed(REFUSED))
    );
    assert_eq!(cron_jobs_named(&cluster, "operators", "pulumi-demo"), 1);
}

#[test]
fn a_refused_write_fails_the_update_with_its_object() {
    let cases = [
        (ServiceRequest::Create(Rbac::ServiceAccount), UpdateFailure::ServiceAccount),
        (ServiceRequest::Create(Rbac::Role), UpdateFailure::Role),
        (ServiceRequest::Create(Rbac::RoleBinding), UpdateFailure::RoleBinding),
        (ServiceRequest::CreateWorkload, UpdateFailure::Workload),
    ];
    for (refused, failure) in cases {
        let plan = demo_plan();
        let mut cluster = Cluster::empty();
        cluster.refuse = Some(refused);
        assert_eq!(
            cluster.run(&plan, Goal::Update),
            ServiceOutcome::Failed(PulumiStackServiceError::UpdateFailed(failure, REFUSED))
        );
        assert_eq!(cluster.log.last(), Some(&refused));
    }
    let replaced = [
        (ServiceRequest::Replace(Rbac::ServiceAccount), UpdateFailure::ServiceAccount),
        (ServiceRequest::Replace(Rbac::Role), UpdateFailure::Role),
        (ServiceRequest::Replace(Rbac::RoleBinding), UpdateFailure::RoleBinding),
    ];
    for (refused, failure) in replaced {
        let plan = demo_plan();
        let mut cluster = Cluster::empty();
        assert_eq!(cluster.run(&plan, Goal::Update), ServiceOutcome::Done);
        cluster.refuse = Some(refused);
        assert_eq!(
            cluster.run(&plan, Goal::Update),
            ServiceOutcome::Failed(PulumiStackServiceError::UpdateFailed(failure, REFUSED))
        );
    }
}

#[test]
fn the_wait_for_the_deletion_is_bounded() {
    assert_eq!(CANCEL_GRACE_PERIOD_SECONDS, 15);
    assert_eq!(CANCEL_TIMEOUT_SECONDS, 1800);
    for goal in [Goal::Update, Goal::Cancel] {
        assert_eq!(
            advance(goal, ServiceState::AwaitingDeletion, Signal::TimedOut),
            (
                ServiceState::Finished(ServiceOutcome::Aborted(AbortCause::WatchTimedOut)),
                ServiceStep::Finish(ServiceOutcome::Aborted(AbortCause::WatchTimedOut)),
            )
        );
    }
}

#[test]
fn a_broken_watch_aborts() {
    let aborted = ServiceOutcome::Aborted(AbortCause::WatchFailed);
    assert_eq!(
        advance(Goal::Cancel, ServiceState::OpeningWatch, Signal::Rejected(REFUSED)),
        (ServiceState::Finished(aborted), ServiceStep::Finish(aborted))
    );
    assert_eq!(
        advance(Goal::Cancel, ServiceState::AwaitingDeletion, Signal::StreamFailed),
        (ServiceState::Finished(aborted), ServiceStep::Finish(aborted))
    );
}

#[test]
fn a_watch_that_ends_before_the_deletion_aborts() {
    let aborted = ServiceOutcome::Aborted(AbortCause::WatchFailed);
    for goal in [Goal::Cancel, Goal::Update] {
        assert_eq!(
            advance(goal, ServiceState::AwaitingDeletion, Signal::StreamEnded),
            (ServiceState::Finished(aborted), ServiceStep::Finish(aborted))
        );
    }
    let cancel = service("operators").cancel_stack(&stack("demo", "team-a")).unwrap();
    let mut state = start().0;
    let mut step = start().1;
    for reply in [Reply::Found, Reply::Accepted, Reply::Accepted, Reply::StreamEnded] {
        assert!(matches!(step, ServiceStep::Call(_)));
        let following = cancel.step(state, &reply);
        state = following.0;
        step = following.1;
    }
    assert_eq!(state, ServiceState::Finished(aborted));
    assert_eq!(step, ServiceStep::Finish(aborted));
}

#[test]
fn a_failure_keeps_the_cause_that_the_cluster_gave() {
    let causes = [
        ApiFailure::Status { code: 403 },
        ApiFailure::Status { code: 409 },
        ApiFailure::Status { code: 500 },
        ApiFailure::Transport,
    ];
    for cause in causes {
        let refused = Signal::Rejected(cause);
        assert_eq!(
            advance(Goal::Cancel, ServiceState::DeletingWorkload, refused).1,
            ServiceStep::Finish(ServiceOutcome::Failed(PulumiStackServiceError::CancelFailed(
                cause
            )))
        );
        assert_eq!(
            advance(Goal::Update, ServiceState::Writing(Rbac::Role), refused).1,
            ServiceStep::Finish(ServiceOutcome::Failed(PulumiStackServiceError::UpdateFailed(
                UpdateFailure::Role,
                cause
            )))
        );
        assert_eq!(
            advance(Goal::Update, ServiceState::CreatingWorkload, refused).1,
            ServiceStep::Finish(ServiceOutcome::Failed(PulumiStackServiceError::UpdateFailed(
                UpdateFailure::Workload,
                cause
            )))
        );
    }
}

#[test]
fn an_answer_that_names_no_cause_counts_as_not_getting_through() {
    assert_eq!(
        advance(Goal::Cancel, ServiceState::DeletingWorkload, Signal::Missing).1,
        ServiceStep::Finish(ServiceOutcome::Failed(PulumiStackServiceError::CancelFailed(
            ApiFailure::Transport
        )))
    );
    assert_eq!(
        advance(Goal::Update, ServiceState::Writing(Rbac::ServiceAccount), Signal::Found).1,
        ServiceStep::Finish(ServiceOutcome::Failed(PulumiStackServiceError::UpdateFailed(
            UpdateFailure::ServiceAccount,
            ApiFailure::Transport
        )))
    );
}

#[test]
fn only_the_deletion_of_the_own_workload_confirms() {
    let named = |name: &str| Reply::Deleted { name: Some(name.to_string()) };
    assert_eq!(classify("pulumi-demo", &named("pulumi-demo")), Signal::Confirmed);
    assert_eq!(classify("pulumi-demo", &named("pulumi-demo2")), Signal::Unrelated);
    assert_eq!(classify("pulumi-demo", &named("demo")), Signal::Unrelated);
    assert_eq!(classify("pulumi-demo", &Reply::Deleted { name: None }), Signal::Unrelated);
    assert_eq!(classify("pulumi-demo", &Reply::OtherEvent), Signal::Unrelated);
    assert_eq!(classify("pulumi-demo", &Reply::Found), Signal::Found);
    assert_eq!(classify("pulumi-demo", &Reply::Missing), Signal::Missing);
    assert_eq!(classify("pulumi-demo", &Reply::Accepted), Signal::Accepted);
    assert_eq!(classify("pulumi-demo", &Reply::Rejected(REFUSED)), Signal::Rejected(REFUSED));
    assert_eq!(classify("pulumi-demo", &Reply::StreamEnded), Signal::StreamEnded);
    assert_eq!(classify("pulumi-demo", &Reply::StreamFailed), Signal::StreamFailed);
    assert_eq!(classify("pulumi-demo", &Reply::TimedOut), Signal::TimedOut);
}

#[test]
fn plans_step_on_their_own_workload() {
    let update = demo_plan();
    let cancel = service("operators").cancel_stack(&stack("demo", "team-a")).unwrap();
    let gone = Reply::Deleted { name: Some("pulumi-demo".to_string()) };
    let other = Reply::Deleted { name: Some("pulumi-shop".to_string()) };
    assert_eq!(
        update.step(ServiceState::AwaitingDeletion, &gone),
        (
            ServiceState::LookingUp(Rbac::ServiceAccount),
            ServiceStep::Call(ServiceRequest::Get(Rbac::ServiceAccount)),
        )
    );
    assert_eq!(
        update.step(ServiceState::AwaitingDeletion, &other),
        (ServiceState::AwaitingDeletion, ServiceStep::Call(ServiceRequest::NextEvent))
    );
    assert_eq!(
        cancel.step(ServiceState::AwaitingDeletion, &gone),
        (ServiceState::Finished(ServiceOutcome::Done), ServiceStep::Finish(ServiceOutcome::Done))
    );
    assert_eq!(
        cancel.step(ServiceState::AwaitingDeletion, &other),
        (ServiceState::AwaitingDeletion, ServiceStep::Call(ServiceRequest::NextEvent))
    );
    assert_eq!(
        cancel.step(ServiceState::LookingUpWorkload, &Reply::Missing),
        (ServiceState::Finished(ServiceOutcome::Done), ServiceStep::Finish(ServiceOutcome::Done))
    );
}

#[test]
fn a_finished_run_stays_finished() {
    let failed = ServiceOutcome::Failed(PulumiStackServiceError::CancelFailed(REFUSED));
    for signal in [Signal::Found, Signal::Accepted, Signal::Confirmed, Signal::TimedOut] {
        assert_eq!(
            advance(Goal::Update, ServiceState::Finished(failed), signal),
            (ServiceState::Finished(failed), ServiceStep::Finish(failed))
        );
    }
}

#[test]
fn every_request_has_its_object() {
    let plan = demo_plan();
    let at = |request: ServiceRequest| {
        let address = plan.address(request);
        (address.kind, address.namespace, address.name)
    };
    let workload = (ObjectKind::CronJob, "operators".to_string(), "pulumi-demo".to_string());
    assert_eq!(at(ServiceRequest::GetWorkload), workload);
    assert_eq!(
        at(ServiceRequest::DeleteWorkload { grace_period_seconds: 15, foreground: true }),
        workload
    );
    assert_eq!(at(ServiceRequest::WatchWorkloads { timeout_seconds: 1800 }), workload);
    assert_eq!(at(ServiceRequest::NextEvent), workload);
    assert_eq!(at(ServiceRequest::CreateWorkload), workload);
    let kinds = [
        (Rbac::ServiceAccount, ObjectKind::ServiceAccount),
        (Rbac::Role, ObjectKind::Role),
        (Rbac::RoleBinding, ObjectKind::RoleBinding),
    ];
    for (object, kind) in kinds {
        let expected = (kind, "team-a".to_string(), "demo".to_string());
        assert_eq!(at(ServiceRequest::Get(object)), expected);
        assert_eq!(at(ServiceRequest::Replace(object)), expected);
        assert_eq!(at(ServiceRequest::Create(object)), expected);
    }
    let cancel = service("operators").cancel_stack(&stack("demo", "team-a")).unwrap().address();
    assert_eq!((cancel.kind, cancel.namespace, cancel.name), workload);
}
