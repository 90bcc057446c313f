//! A model of the cluster as the stack service sees it, and what every run
//! of the service does to it.
//!
//! The model holds the generated objects by kind, namespace and name. It
//! answers lookups truthfully, creates only what is absent, replaces only
//! what is present, and may refuse any write. Nobody else writes the four
//! objects of the stack while a run lasts.

use crate::kubernetes::manifest::{CronJobView, RoleBindingView, RoleView, ServiceAccountView};
use crate::stack::crd::PulumiStack;
use crate::stack::service::{
    addressable, cron_job_of, name_of, update_plan_of, workload_name, UpdatePlanView,
};
use crate::stack::service_steps::{
    initial, next, rbac_key, workload_key, Goal, ObjectKey, ObjectKind, Rbac, ServiceOutcome,
    ServiceRequest, ServiceState, ServiceStep, Signal,
};
use vstd::prelude::*;

verus! {

/// The content of a generated object.
pub enum ObjectView {
    ServiceAccount(ServiceAccountView),
    Role(RoleView),
    RoleBinding(RoleBindingView),
    CronJob(CronJobView),
}

/// The generated objects that a cluster holds.
pub struct Cluster {
    pub objects: Map<ObjectKey, ObjectView>,
}

/// The content that a plan gives an access object.
pub open spec fn rbac_object(plan: UpdatePlanView, object: Rbac) -> ObjectView {
    match object {
        Rbac::ServiceAccount => ObjectView::ServiceAccount(plan.service_account),
        Rbac::Role => ObjectView::Role(plan.role),
        Rbac::RoleBinding => ObjectView::RoleBinding(plan.role_binding),
    }
}

impl Cluster {
    /// Whether the cluster holds an object under `key`.
    pub open spec fn holds(self, key: ObjectKey) -> bool {
        self.objects.contains_key(key)
    }

    /// The cluster with `object` under `key`.
    pub open spec fn with(self, key: ObjectKey, object: ObjectView) -> Cluster {
        Cluster { objects: self.objects.insert(key, object) }
    }

    /// The cluster without the object under `key`.
    pub open spec fn without(self, key: ObjectKey) -> Cluster {
        Cluster { objects: self.objects.remove(key) }
    }

    /// The cluster after a successful update: the three access objects and
    /// the workload are as the plan has them, everything else is untouched.
    pub open spec fn settled(self, plan: UpdatePlanView) -> Cluster {
        self.with(
            rbac_key(plan, Rbac::ServiceAccount),
            rbac_object(plan, Rbac::ServiceAccount),
        ).with(rbac_key(plan, Rbac::Role), rbac_object(plan, Rbac::Role)).with(
            rbac_key(plan, Rbac::RoleBinding),
            rbac_object(plan, Rbac::RoleBinding),
        ).with(workload_key(plan), ObjectView::CronJob(plan.cron_job))
    }

    /// Whether two clusters hold the same objects, the workload of `plan`
    /// aside.
    pub open spec fn same_but_workload(self, other: Cluster, plan: UpdatePlanView) -> bool {
        forall|key: ObjectKey|
            #![trigger self.objects.contains_key(key)]
            #![trigger other.objects.contains_key(key)]
            key != workload_key(plan) ==> {
                &&& self.objects.contains_key(key) <==> other.objects.contains_key(key)
                &&& self.objects.contains_key(key) ==> self.objects[key] == other.objects[key]
            }
    }
}

/// The cluster after it has answered `request` with `signal`, or `None`
/// where the model never answers so.
pub open spec fn answered(
    plan: UpdatePlanView,
    cluster: Cluster,
    request: ServiceRequest,
    signal: Signal,
) -> Option<Cluster> {
    match request {
        ServiceRequest::GetWorkload => match signal {
            Signal::Found => if cluster.holds(workload_key(plan)) {
                Some(cluster)
            } else {
                None
            },
            Signal::Missing => if cluster.holds(workload_key(plan)) {
                None
            } else {
                Some(cluster)
            },
            _ => None,
        },
        ServiceRequest::DeleteWorkload { .. } => match signal {
            Signal::Accepted => if cluster.holds(workload_key(plan)) {
                Some(cluster)
            } else {
                None
            },
            Signal::Rejected(_) => Some(cluster),
            _ => None,
        },
        ServiceRequest::WatchWorkloads { .. } => match signal {
            Signal::Accepted => Some(cluster),
            Signal::Rejected(_) => Some(cluster),
            _ => None,
        },
        ServiceRequest::NextEvent => match signal {
            Signal::Confirmed => Some(cluster.without(workload_key(plan))),
            Signal::Unrelated => Some(cluster),
            Signal::StreamEnded => Some(cluster),
            Signal::StreamFailed => Some(cluster),
            Signal::TimedOut => Some(cluster),
            _ => None,
        },
        ServiceRequest::Get(object) => match signal {
            Signal::Found => if cluster.holds(rbac_key(plan, object)) {
                Some(cluster)
            } else {
                None
            },
            Signal::Missing => if cluster.holds(rbac_key(plan, object)) {
                None
            } else {
                Some(cluster)
            },
            _ => None,
        },
        ServiceRequest::Replace(object) => match signal {
            Signal::Accepted => if cluster.holds(rbac_key(plan, object)) {
                Some(cluster.with(rbac_key(plan, object), rbac_object(plan, object)))
            } else {
                None
            },
            Signal::Rejected(_) => Some(cluster),
            _ => None,
        },
        ServiceRequest::Create(object) => match signal {
            Signal::Accepted => if cluster.holds(rbac_key(plan, object)) {
                None
            } else {
                Some(cluster.with(rbac_key(plan, object), rbac_object(plan, object)))
            },
            Signal::Rejected(_) => Some(cluster),
            _ => None,
        },
        ServiceRequest::CreateWorkload => match signal {
            Signal::Accepted => if cluster.holds(workload_key(plan)) {
                None
            } else {
                Some(cluster.with(workload_key(plan), ObjectView::CronJob(plan.cron_job)))
            },
            Signal::Rejected(_) => Some(cluster),
            _ => None,
        },
    }
}

/// Runs the service from `state` against a cluster that answers with
/// `signals`, one after the other.
///
/// The result is the cluster and the outcome at the end of the run, or
/// `None` where the signals run out before the service finishes or the
/// model never answers as they say.
pub open spec fn run(
    plan: UpdatePlanView,
    goal: Goal,
    cluster: Cluster,
    state: ServiceState,
    step: ServiceStep,
    signals: Seq<Signal>,
) -> Option<(Cluster, ServiceOutcome)>
    decreases signals.len(),
{
    match step {
        ServiceStep::Finish(outcome) => Some((cluster, outcome)),
        ServiceStep::Call(request) => if signals.len() == 0 {
            None
        } else {
            match answered(plan, cluster, request, signals[0]) {
                None => None,
                Some(after) => run(
                    plan,
                    goal,
                    after,
                    next(goal, state, signals[0]).0,
                    next(goal, state, signals[0]).1,
                    signals.drop_first(),
                ),
            }
        },
    }
}

/// A whole run of the service, from its first lookup.
pub open spec fn run_from_start(
    plan: UpdatePlanView,
    goal: Goal,
    cluster: Cluster,
    signals: Seq<Signal>,
) -> Option<(Cluster, ServiceOutcome)> {
    run(plan, goal, cluster, initial().0, initial().1, signals)
}

/// Whether a run of `goal` from `cluster` under `signals` succeeds and
/// leaves `after`.
pub open spec fn succeeds(
    plan: UpdatePlanView,
    goal: Goal,
    cluster: Cluster,
    signals: Seq<Signal>,
    after: Cluster,
) -> bool {
    run_from_start(plan, goal, cluster, signals) == Some((after, ServiceOutcome::Done))
}

/// What an update has written once it stands at `state`, on a cluster that
/// began as `origin`.
pub open spec fn written(plan: UpdatePlanView, origin: Cluster, state: ServiceState) -> Cluster {
    let first = origin.with(
        rbac_key(plan, Rbac::ServiceAccount),
        rbac_object(plan, Rbac::ServiceAccount),
    );
    let second = first.with(rbac_key(plan, Rbac::Role), rbac_object(plan, Rbac::Role));
    let third = second.with(
        rbac_key(plan, Rbac::RoleBinding),
        rbac_object(plan, Rbac::RoleBinding),
    );
    match state {
        ServiceState::LookingUp(Rbac::Role) => first,
        ServiceState::Writing(Rbac::Role) => first,
        ServiceState::LookingUp(Rbac::RoleBinding) => second,
        ServiceState::Writing(Rbac::RoleBinding) => second,
        ServiceState::CreatingWorkload => third,
        ServiceState::Finished(_) => third,
        _ => origin,
    }
}

/// Whether `step` is a step that the service takes on entering `state`.
pub open spec fn pending(state: ServiceState, step: ServiceStep) -> bool {
    match state {
        ServiceState::LookingUpWorkload => step == ServiceStep::Call(ServiceRequest::GetWorkload),
        ServiceState::DeletingWorkload => step matches ServiceStep::Call(
            ServiceRequest::DeleteWorkload { .. },
        ),
        ServiceState::OpeningWatch => step matches ServiceStep::Call(
            ServiceRequest::WatchWorkloads { .. },
        ),
        ServiceState::AwaitingDeletion => step == ServiceStep::Call(ServiceRequest::NextEvent),
        ServiceState::LookingUp(object) => step == ServiceStep::Call(ServiceRequest::Get(object)),
        ServiceState::Writing(object) => step == ServiceStep::Call(ServiceRequest::Replace(object))
            || step == ServiceStep::Call(ServiceRequest::Create(object)),
        ServiceState::CreatingWorkload => step == ServiceStep::Call(ServiceRequest::CreateWorkload),
        ServiceState::Finished(outcome) => step == ServiceStep::Finish(outcome),
    }
}

/// What holds of the cluster while an update stands at `state`.
pub open spec fn update_invariant(
    plan: UpdatePlanView,
    origin: Cluster,
    cluster: Cluster,
    state: ServiceState,
    step: ServiceStep,
) -> bool {
    &&& pending(state, step)
    &&& match state {
        ServiceState::Finished(ServiceOutcome::Done) => cluster.objects =~= origin.settled(
            plan,
        ).objects,
        ServiceState::Finished(_) => true,
        _ => cluster.same_but_workload(written(plan, origin, state), plan),
    }
}

/// Every update that succeeds leaves the cluster that began as `origin`
/// settled, from wherever in the run it is taken up.
pub proof fn lemma_update_settles(
    plan: UpdatePlanView,
    origin: Cluster,
    cluster: Cluster,
    state: ServiceState,
    step: ServiceStep,
    signals: Seq<Signal>,
    after: Cluster,
)
    requires
        update_invariant(plan, origin, cluster, state, step),
        run(plan, Goal::Update, cluster, state, step, signals) == Some(
            (after, ServiceOutcome::Done),
        ),
    ensures
        after.objects =~= origin.settled(plan).objects,
    decreases signals.len(),
{
    match step {
        ServiceStep::Finish(outcome) => {},
        ServiceStep::Call(request) => {
            let signal = signals[0];
            let following = next(Goal::Update, state, signal);
            let then = answered(plan, cluster, request, signal)->0;
            assert(update_invariant(plan, origin, then, following.0, following.1));
            lemma_update_settles(
                plan,
                origin,
                then,
                following.0,
                following.1,
                signals.drop_first(),
                after,
            );
        },
    }
}

/// What holds of the cluster while a cancellation stands at `state`.
pub open spec fn cancel_invariant(
    plan: UpdatePlanView,
    origin: Cluster,
    cluster: Cluster,
    state: ServiceState,
    step: ServiceStep,
) -> bool {
    &&& pending(state, step)
    &&& cluster.same_but_workload(origin, plan)
    &&& state == ServiceState::Finished(ServiceOutcome::Done) ==> !cluster.holds(
        workload_key(plan),
    )
    &&& state matches ServiceState::LookingUp(_) ==> false
    &&& state matches ServiceState::Writing(_) ==> false
    &&& state == ServiceState::CreatingWorkload ==> false
}

/// Every cancellation that succeeds leaves the cluster without the
/// workload and otherwise as it was, from wherever in the run it is taken
/// up.
pub proof fn lemma_cancel_clears(
    plan: UpdatePlanView,
    origin: Cluster,
    cluster: Cluster,
    state: ServiceState,
    step: ServiceStep,
    signals: Seq<Signal>,
    after: Cluster,
)
    requires
        cancel_invariant(plan, origin, cluster, state, step),
        run(plan, Goal::Cancel, cluster, state, step, signals) == Some(
            (after, ServiceOutcome::Done),
        ),
    ensures
        after.objects =~= origin.without(workload_key(plan)).objects,
    decreases signals.len(),
{
    match step {
        ServiceStep::Finish(outcome) => {},
        ServiceStep::Call(request) => {
            let signal = signals[0];
            let following = next(Goal::Cancel, state, signal);
            let then = answered(plan, cluster, request, signal)->0;
            assert(cancel_invariant(plan, origin, then, following.0, following.1));
            lemma_cancel_clears(
                plan,
                origin,
                then,
                following.0,
                following.1,
                signals.drop_first(),
                after,
            );
        },
    }
}

/// Two clusters that differ in the workload alone are settled alike.
pub proof fn lemma_settled_alike(plan: UpdatePlanView, one: Cluster, other: Cluster)
    requires
        one.same_but_workload(other, plan),
    ensures
        one.settled(plan).objects =~= other.settled(plan).objects,
{
}

/// After every successful update the cluster holds the scheduled workload
/// of the plan, under the plan's name in the plan's namespace and with the
/// plan's content, and the three access objects beside it; nothing else
/// has changed.
pub proof fn law_update_installs_workload(
    plan: UpdatePlanView,
    before: Cluster,
    signals: Seq<Signal>,
    after: Cluster,
)
    requires
        succeeds(plan, Goal::Update, before, signals, after),
    ensures
        after == before.settled(plan),
        after.holds(workload_key(plan)),
        after.objects[workload_key(plan)] == ObjectView::CronJob(plan.cron_job),
        forall|key: ObjectKey|
            key.kind == ObjectKind::CronJob && key.namespace == plan.cron_job.namespace && key.name
                == plan.cron_job.name ==> key == workload_key(plan),
{
    lemma_update_settles(plan, before, before, initial().0, initial().1, signals, after);
}

/// After every successful update of a stack, the operator namespace holds
/// the one scheduled workload called `pulumi-<name>`, as generated for the
/// stack, and that workload never runs twice at once.
pub proof fn law_updated_stack_has_its_workload(
    stack: PulumiStack,
    operator_namespace: Seq<char>,
    before: Cluster,
    signals: Seq<Signal>,
    after: Cluster,
)
    requires
        addressable(stack),
        succeeds(update_plan_of(stack, operator_namespace), Goal::Update, before, signals, after),
    ensures
        after.holds(
            ObjectKey {
                kind: ObjectKind::CronJob,
                namespace: operator_namespace,
                name: workload_name(name_of(stack)),
            },
        ),
        after.objects[ObjectKey {
            kind: ObjectKind::CronJob,
            namespace: operator_namespace,
            name: workload_name(name_of(stack)),
        }] == ObjectView::CronJob(cron_job_of(stack, operator_namespace)),
        cron_job_of(stack, operator_namespace).concurrency_policy == "Forbid"@,
{
    law_update_installs_workload(
        update_plan_of(stack, operator_namespace),
        before,
        signals,
        after,
    );
}

/// After every successful cancellation the cluster holds no scheduled
/// workload under the plan's name, and everything else is as it was.
pub proof fn law_cancel_removes_workload(
    plan: UpdatePlanView,
    before: Cluster,
    signals: Seq<Signal>,
    after: Cluster,
)
    requires
        succeeds(plan, Goal::Cancel, before, signals, after),
    ensures
        !after.holds(workload_key(plan)),
        after == before.without(workload_key(plan)),
{
    lemma_cancel_clears(plan, before, before, initial().0, initial().1, signals, after);
}

/// An update after a cancellation leaves the cluster as the update alone
/// does.
pub proof fn law_update_after_cancel(
    plan: UpdatePlanView,
    before: Cluster,
    cancel_signals: Seq<Signal>,
    cancelled: Cluster,
    update_signals: Seq<Signal>,
    after_both: Cluster,
    alone_signals: Seq<Signal>,
    after_alone: Cluster,
)
    requires
        succeeds(plan, Goal::Cancel, before, cancel_signals, cancelled),
        succeeds(plan, Goal::Update, cancelled, update_signals, after_both),
        succeeds(plan, Goal::Update, before, alone_signals, after_alone),
    ensures
        after_both == after_alone,
{
    lemma_cancel_clears(
        plan,
        before,
        before,
        initial().0,
        initial().1,
        cancel_signals,
        cancelled,
    );
    assert(cancelled.same_but_workload(before, plan));
    lemma_update_settles(
        plan,
        cancelled,
        cancelled,
        initial().0,
        initial().1,
        update_signals,
        after_both,
    );
    lemma_update_settles(plan, before, before, initial().0, initial().1, alone_signals, after_alone);
    lemma_settled_alike(plan, cancelled, before);
    assert(after_both.objects =~= after_alone.objects);
}

/// A second update leaves the cluster as the first one left it.
pub proof fn law_update_is_idempotent(
    plan: UpdatePlanView,
    before: Cluster,
    first_signals: Seq<Signal>,
    after_first: Cluster,
    second_signals: Seq<Signal>,
    after_second: Cluster,
)
    requires
        succeeds(plan, Goal::Update, before, first_signals, after_first),
        succeeds(plan, Goal::Update, after_first, second_signals, after_second),
    ensures
        after_second == after_first,
{
    lemma_update_settles(plan, before, before, initial().0, initial().1, first_signals, after_first);
    lemma_update_settles(
        plan,
        after_first,
        after_first,
        initial().0,
        initial().1,
        second_signals,
        after_second,
    );
    assert(after_second.objects =~= after_first.objects);
}

/// The answers of a cluster that holds none of the objects of a plan and
/// accepts every write of an update.
pub open spec fn fresh_signals() -> Seq<Signal> {
    seq![
        Signal::Missing,
        Signal::Missing,
        Signal::Accepted,
        Signal::Missing,
        Signal::Accepted,
        Signal::Missing,
        Signal::Accepted,
        Signal::Accepted,
    ]
}

/// The answers of a cluster that holds the workload of a plan, reports
/// its deletion at once, and holds none of the other objects.
pub open spec fn revoking_signals() -> Seq<Signal> {
    seq![Signal::Found, Signal::Accepted, Signal::Accepted, Signal::Confirmed]
}

/// One answered request takes a run to the state that the transition
/// gives, on the cluster that the answer leaves.
pub proof fn lemma_run_unfolds(
    plan: UpdatePlanView,
    goal: Goal,
    cluster: Cluster,
    state: ServiceState,
    request: ServiceRequest,
    signal: Signal,
    rest: Seq<Signal>,
)
    requires
        answered(plan, cluster, request, signal) is Some,
    ensures
        run(plan, goal, cluster, state, ServiceStep::Call(request), seq![signal] + rest) == run(
            plan,
            goal,
            answered(plan, cluster, request, signal)->0,
            next(goal, state, signal).0,
            next(goal, state, signal).1,
            rest,
        ),
{
    let signals = seq![signal] + rest;
    assert(signals.drop_first() =~= rest);
}

/// On a cluster that holds none of the four objects of a plan and accepts
/// every write, an update succeeds.
pub proof fn law_update_succeeds_on_fresh_cluster(plan: UpdatePlanView, before: Cluster)
    requires
        !before.holds(workload_key(plan)),
        !before.holds(rbac_key(plan, Rbac::ServiceAccount)),
        !before.holds(rbac_key(plan, Rbac::Role)),
        !before.holds(rbac_key(plan, Rbac::RoleBinding)),
    ensures
        succeeds(plan, Goal::Update, before, fresh_signals(), before.settled(plan)),
{
    let sa = Rbac::ServiceAccount;
    let role = Rbac::Role;
    let rb = Rbac::RoleBinding;
    let c1 = before.with(rbac_key(plan, sa), rbac_object(plan, sa));
    let c2 = c1.with(rbac_key(plan, role), rbac_object(plan, role));
    let c3 = c2.with(rbac_key(plan, rb), rbac_object(plan, rb));
    let s7 = seq![Signal::Accepted];
    let s6 = seq![Signal::Accepted] + s7;
    let s5 = seq![Signal::Missing] + s6;
    let s4 = seq![Signal::Accepted] + s5;
    let s3 = seq![Signal::Missing] + s4;
    let s2 = seq![Signal::Accepted] + s3;
    let s1 = seq![Signal::Missing] + s2;
    let s0 = seq![Signal::Missing] + s1;
    assert(s0 =~= fresh_signals());
    assert(s7 =~= seq![Signal::Accepted] + Seq::<Signal>::empty());
    let update = Goal::Update;
    lemma_run_unfolds(
        plan,
        update,
        before,
        ServiceState::LookingUpWorkload,
        ServiceRequest::GetWorkload,
        Signal::Missing,
        s1,
    );
    lemma_run_unfolds(
        plan,
        update,
        before,
        ServiceState::LookingUp(sa),
        ServiceRequest::Get(sa),
        Signal::Missing,
        s2,
    );
    lemma_run_unfolds(
        plan,
        update,
        before,
        ServiceState::Writing(sa),
        ServiceRequest::Create(sa),
        Signal::Accepted,
        s3,
    );
    lemma_run_unfolds(
        plan,
        update,
        c1,
        ServiceState::LookingUp(role),
        ServiceRequest::Get(role),
        Signal::Missing,
        s4,
    );
    lemma_run_unfolds(
        plan,
        update,
        c1,
        ServiceState::Writing(role),
        ServiceRequest::Create(role),
        Signal::Accepted,
        s5,
    );
    lemma_run_unfolds(
        plan,
        update,
        c2,
        ServiceState::LookingUp(rb),
        ServiceRequest::Get(rb),
        Signal::Missing,
        s6,
    );
    lemma_run_unfolds(
        plan,
        update,
        c2,
        ServiceState::Writing(rb),
        ServiceRequest::Create(rb),
        Signal::Accepted,
        s7,
    );
    lemma_run_unfolds(
        plan,
        update,
        c3,
        ServiceState::CreatingWorkload,
        ServiceRequest::CreateWorkload,
        Signal::Accepted,
        Seq::empty(),
    );
}

/// On a cluster that holds the workload of a plan and reports its
/// deletion, a cancellation succeeds.
pub proof fn law_cancel_succeeds_on_running_workload(plan: UpdatePlanView, before: Cluster)
    requires
        before.holds(workload_key(plan)),
    ensures
        succeeds(
            plan,
            Goal::Cancel,
            before,
            revoking_signals(),
            before.without(workload_key(plan)),
        ),
{
    let s3 = seq![Signal::Confirmed] + Seq::<Signal>::empty();
    let s2 = seq![Signal::Accepted] + s3;
    let s1 = seq![Signal::Accepted] + s2;
    let s0 = seq![Signal::Found] + s1;
    assert(s0 =~= revoking_signals());
    let cancel = Goal::Cancel;
    lemma_run_unfolds(
        plan,
        cancel,
        before,
        ServiceState::LookingUpWorkload,
        ServiceRequest::GetWorkload,
        Signal::Found,
        s1,
    );
    lemma_run_unfolds(
        plan,
        cancel,
        before,
        ServiceState::DeletingWorkload,
        ServiceRequest::DeleteWorkload { grace_period_seconds: 15, foreground: true },
        Signal::Accepted,
        s2,
    );
    lemma_run_unfolds(
        plan,
        cancel,
        before,
        ServiceState::OpeningWatch,
        ServiceRequest::WatchWorkloads { timeout_seconds: 1800 },
        Signal::Accepted,
        s3,
    );
    lemma_run_unfolds(
        plan,
        cancel,
        before,
        ServiceState::AwaitingDeletion,
        ServiceRequest::NextEvent,
        Signal::Confirmed,
        Seq::empty(),
    );
}

} // verus!
