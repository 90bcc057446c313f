//! The order in which the stack service talks to the cluster.
//!
//! The caller performs each request and reports what came of it; the
//! functions here decide what follows.

use crate::kubernetes::service::ApiFailure;
use crate::stack::service::{
    CancelPlan, PulumiStackServiceError, UpdateFailure, UpdatePlan, UpdatePlanView,
};
use vstd::prelude::*;

verus! {

/// Grace period that a revoked workload is given, in seconds.
pub const CANCEL_GRACE_PERIOD_SECONDS: u32 = 15;

/// How long the service waits for a revoked workload to disappear, in
/// seconds.
pub const CANCEL_TIMEOUT_SECONDS: u64 = 1800;

/// What the service is after.
#[derive(Debug, Clone, Copy, PartialEq, Eq, Structural)]
pub enum Goal {
    /// Revoke the workload, then write everything anew.
    Update,
    /// Revoke the workload.
    Cancel,
}

/// The access objects of a stack, in the order in which they are written.
#[derive(Debug, Clone, Copy, PartialEq, Eq, Structural)]
pub enum Rbac {
    ServiceAccount,
    Role,
    RoleBinding,
}

/// The kinds of generated objects.
#[derive(Debug, Clone, Copy, PartialEq, Eq, Structural)]
pub enum ObjectKind {
    ServiceAccount,
    Role,
    RoleBinding,
    CronJob,
}

/// The object that a request is about.
#[derive(Debug)]
pub struct Address {
    pub kind: ObjectKind,
    pub namespace: String,
    pub name: String,
}

/// What identifies an object in the cluster.
pub struct ObjectKey {
    pub kind: ObjectKind,
    pub namespace: Seq<char>,
    pub name: Seq<char>,
}

impl View for Address {
    type V = ObjectKey;

    open spec fn view(&self) -> ObjectKey {
        ObjectKey { kind: self.kind, namespace: self.namespace@, name: self.name@ }
    }
}

/// One request to the cluster.
#[derive(Debug, Clone, Copy, PartialEq, Eq, Structural)]
pub enum ServiceRequest {
    /// Look the scheduled workload up by name.
    GetWorkload,
    /// Delete the scheduled workload, dependents first.
    DeleteWorkload { grace_period_seconds: u32, foreground: bool },
    /// Start watching the workloads of the operator namespace; the wait
    /// that follows is bounded by `timeout_seconds`.
    WatchWorkloads { timeout_seconds: u64 },
    /// Take the next event of the watch.
    NextEvent,
    /// Look an access object up by name.
    Get(Rbac),
    /// Replace an access object that exists.
    Replace(Rbac),
    /// Create an access object that does not exist.
    Create(Rbac),
    /// Create the scheduled workload.
    CreateWorkload,
}

/// Why the service cannot go on and the caller must abort.
#[derive(Debug, Clone, Copy, PartialEq, Eq, Structural)]
pub enum AbortCause {
    /// The watch could not be opened, broke, or ended before it reported
    /// that the workload is gone.
    WatchFailed,
    /// The workload did not disappear in time.
    WatchTimedOut,
}

/// How a run of the service ended.
#[derive(Debug, Clone, Copy, PartialEq, Eq, Structural)]
pub enum ServiceOutcome {
    Done,
    Failed(PulumiStackServiceError),
    Aborted(AbortCause),
}

/// What the caller does next.
#[derive(Debug, Clone, Copy, PartialEq, Eq, Structural)]
pub enum ServiceStep {
    Call(ServiceRequest),
    Finish(ServiceOutcome),
}

/// Where a run of the service stands.
#[derive(Debug, Clone, Copy, PartialEq, Eq, Structural)]
pub enum ServiceState {
    LookingUpWorkload,
    DeletingWorkload,
    OpeningWatch,
    AwaitingDeletion,
    LookingUp(Rbac),
    Writing(Rbac),
    CreatingWorkload,
    Finished(ServiceOutcome),
}

/// What came of a request, as far as the service cares.
#[derive(Debug, Clone, Copy, PartialEq, Eq, Structural)]
pub enum Signal {
    /// The object looked up exists.
    Found,
    /// The lookup gave no object.
    Missing,
    /// The request was carried out.
    Accepted,
    /// The request was refused or failed, for the cause given.
    Rejected(ApiFailure),
    /// The watch reported that the workload is gone.
    Confirmed,
    /// The watch reported something else.
    Unrelated,
    /// The watch ended, without an error, before it reported that the
    /// workload is gone.
    StreamEnded,
    /// The watch broke.
    StreamFailed,
    /// The bound on the wait ran out.
    TimedOut,
}

/// What the cluster answered.
#[derive(Debug)]
pub enum Reply {
    Found,
    Missing,
    Accepted,
    /// The request was refused or failed, for the cause given.
    Rejected(ApiFailure),
    /// The watch reported the deletion of the object called `name`.
    Deleted { name: Option<String> },
    /// The watch reported any other event.
    OtherEvent,
    StreamEnded,
    StreamFailed,
    TimedOut,
}

/// Where the scheduled workload of a plan lives.
pub open spec fn workload_key(plan: UpdatePlanView) -> ObjectKey {
    ObjectKey {
        kind: ObjectKind::CronJob,
        namespace: plan.cron_job.namespace,
        name: plan.cron_job.name,
    }
}

/// Where an access object of a plan lives.
pub open spec fn rbac_key(plan: UpdatePlanView, object: Rbac) -> ObjectKey {
    match object {
        Rbac::ServiceAccount => ObjectKey {
            kind: ObjectKind::ServiceAccount,
            namespace: plan.service_account.namespace,
            name: plan.service_account.name,
        },
        Rbac::Role => ObjectKey {
            kind: ObjectKind::Role,
            namespace: plan.role.namespace,
            name: plan.role.name,
        },
        Rbac::RoleBinding => ObjectKey {
            kind: ObjectKind::RoleBinding,
            namespace: plan.role_binding.namespace,
            name: plan.role_binding.name,
        },
    }
}

/// The object that a request of an update is about: an access object for
/// the requests that name one, the scheduled workload for all others.
pub open spec fn request_key(plan: UpdatePlanView, request: ServiceRequest) -> ObjectKey {
    match request {
        ServiceRequest::Get(object) => rbac_key(plan, object),
        ServiceRequest::Replace(object) => rbac_key(plan, object),
        ServiceRequest::Create(object) => rbac_key(plan, object),
        _ => workload_key(plan),
    }
}

/// The request that deletes the workload: foreground, with the grace period.
pub open spec fn delete_request() -> ServiceRequest {
    ServiceRequest::DeleteWorkload { grace_period_seconds: 15, foreground: true }
}

/// The request that opens the watch, with the bound on the wait.
pub open spec fn watch_request() -> ServiceRequest {
    ServiceRequest::WatchWorkloads { timeout_seconds: 1800 }
}

/// What an answer means for a service that waits for `workload` to go.
pub open spec fn signal_of(workload: Seq<char>, reply: Reply) -> Signal {
    match reply {
        Reply::Found => Signal::Found,
        Reply::Missing => Signal::Missing,
        Reply::Accepted => Signal::Accepted,
        Reply::Rejected(failure) => Signal::Rejected(failure),
        Reply::Deleted { name } => if name.deep_view() == Some(workload) {
            Signal::Confirmed
        } else {
            Signal::Unrelated
        },
        Reply::OtherEvent => Signal::Unrelated,
        Reply::StreamEnded => Signal::StreamEnded,
        Reply::StreamFailed => Signal::StreamFailed,
        Reply::TimedOut => Signal::TimedOut,
    }
}

/// Where a run begins: with the lookup of the workload.
pub open spec fn initial() -> (ServiceState, ServiceStep) {
    (ServiceState::LookingUpWorkload, ServiceStep::Call(ServiceRequest::GetWorkload))
}

/// A run that ends here.
pub open spec fn finished(outcome: ServiceOutcome) -> (ServiceState, ServiceStep) {
    (ServiceState::Finished(outcome), ServiceStep::Finish(outcome))
}

/// What follows once the workload is known to be gone.
pub open spec fn after_cancel(goal: Goal) -> (ServiceState, ServiceStep) {
    match goal {
        Goal::Cancel => finished(ServiceOutcome::Done),
        Goal::Update => (
            ServiceState::LookingUp(Rbac::ServiceAccount),
            ServiceStep::Call(ServiceRequest::Get(Rbac::ServiceAccount)),
        ),
    }
}

/// What follows once an access object is written.
pub open spec fn after_write(written: Rbac) -> (ServiceState, ServiceStep) {
    match written {
        Rbac::ServiceAccount => (
            ServiceState::LookingUp(Rbac::Role),
            ServiceStep::Call(ServiceRequest::Get(Rbac::Role)),
        ),
        Rbac::Role => (
            ServiceState::LookingUp(Rbac::RoleBinding),
            ServiceStep::Call(ServiceRequest::Get(Rbac::RoleBinding)),
        ),
        Rbac::RoleBinding => (
            ServiceState::CreatingWorkload,
            ServiceStep::Call(ServiceRequest::CreateWorkload),
        ),
    }
}

/// Why a request that was not carried out failed: the cause that the
/// cluster gave, or a request that did not get through where the answer
/// names none.
pub open spec fn cause_of(signal: Signal) -> ApiFailure {
    match signal {
        Signal::Rejected(failure) => failure,
        _ => ApiFailure::Transport,
    }
}

/// The failure to write one access object.
pub open spec fn write_failure(object: Rbac) -> UpdateFailure {
    match object {
        Rbac::ServiceAccount => UpdateFailure::ServiceAccount,
        Rbac::Role => UpdateFailure::Role,
        Rbac::RoleBinding => UpdateFailure::RoleBinding,
    }
}

/// The transition of the service.
///
/// A workload that exists is deleted and awaited; one that cannot be found
/// counts as gone. The wait ends well only with the report that the
/// workload is gone: a watch that ends or breaks before that, and the
/// bound on the wait, abort the run. Each access object is looked up, then
/// replaced if it was found and created otherwise. The workload is
/// created last. A request that is not carried out fails the run with its
/// cause.
pub open spec fn next(goal: Goal, state: ServiceState, signal: Signal) -> (ServiceState, ServiceStep) {
    match state {
        ServiceState::LookingUpWorkload => if signal == Signal::Found {
            (ServiceState::DeletingWorkload, ServiceStep::Call(delete_request()))
        } else {
            after_cancel(goal)
        },
        ServiceState::DeletingWorkload => if signal == Signal::Accepted {
            (ServiceState::OpeningWatch, ServiceStep::Call(watch_request()))
        } else {
            finished(
                ServiceOutcome::Failed(PulumiStackServiceError::CancelFailed(cause_of(signal))),
            )
        },
        ServiceState::OpeningWatch => if signal == Signal::Accepted {
            (ServiceState::AwaitingDeletion, ServiceStep::Call(ServiceRequest::NextEvent))
        } else {
            finished(ServiceOutcome::Aborted(AbortCause::WatchFailed))
        },
        ServiceState::AwaitingDeletion => match signal {
            Signal::Confirmed => after_cancel(goal),
            Signal::TimedOut => finished(ServiceOutcome::Aborted(AbortCause::WatchTimedOut)),
            Signal::StreamEnded => finished(ServiceOutcome::Aborted(AbortCause::WatchFailed)),
            Signal::StreamFailed => finished(ServiceOutcome::Aborted(AbortCause::WatchFailed)),
            _ => (ServiceState::AwaitingDeletion, ServiceStep::Call(ServiceRequest::NextEvent)),
        },
        ServiceState::LookingUp(object) => if signal == Signal::Found {
            (ServiceState::Writing(object), ServiceStep::Call(ServiceRequest::Replace(object)))
        } else {
            (ServiceState::Writing(object), ServiceStep::Call(ServiceRequest::Create(object)))
        },
        ServiceState::Writing(object) => if signal == Signal::Accepted {
            after_write(object)
        } else {
            finished(
                ServiceOutcome::Failed(
                    PulumiStackServiceError::UpdateFailed(write_failure(object), cause_of(signal)),
                ),
            )
        },
        ServiceState::CreatingWorkload => if signal == Signal::Accepted {
            finished(ServiceOutcome::Done)
        } else {
            finished(
                ServiceOutcome::Failed(
                    PulumiStackServiceError::UpdateFailed(UpdateFailure::Workload, cause_of(signal)),
                ),
            )
        },
        ServiceState::Finished(outcome) => finished(outcome),
    }
}

/// Where a run begins.
pub fn start() -> (begin: (ServiceState, ServiceStep))
    ensures
        begin == initial(),
{
    (ServiceState::LookingUpWorkload, ServiceStep::Call(ServiceRequest::GetWorkload))
}

fn finish(outcome: ServiceOutcome) -> (end: (ServiceState, ServiceStep))
    ensures
        end == finished(outcome),
{
    (ServiceState::Finished(outcome), ServiceStep::Finish(outcome))
}

fn cause(signal: Signal) -> (failure: ApiFailure)
    ensures
        failure == cause_of(signal),
{
    match signal {
        Signal::Rejected(failure) => failure,
        _ => ApiFailure::Transport,
    }
}

fn proceed(goal: Goal) -> (following: (ServiceState, ServiceStep))
    ensures
        following == after_cancel(goal),
{
    match goal {
        Goal::Cancel => finish(ServiceOutcome::Done),
        Goal::Update => (
            ServiceState::LookingUp(Rbac::ServiceAccount),
            ServiceStep::Call(ServiceRequest::Get(Rbac::ServiceAccount)),
        ),
    }
}

/// Reads an answer of the cluster for a service that waits for the
/// workload called `workload` to go.
pub fn classify(workload: &str, reply: &Reply) -> (signal: Signal)
    ensures
        signal == signal_of(workload@, *reply),
{
    match reply {
        Reply::Found => Signal::Found,
        Reply::Missing => Signal::Missing,
        Reply::Accepted => Signal::Accepted,
        Reply::Rejected(failure) => Signal::Rejected(*failure),
        Reply::Deleted { name } => match name {
            Some(n) => {
                let expected = String::from_str(workload);
                if *n == expected {
                    Signal::Confirmed
                } else {
                    Signal::Unrelated
                }
            },
            None => Signal::Unrelated,
        },
        Reply::OtherEvent => Signal::Unrelated,
        Reply::StreamEnded => Signal::StreamEnded,
        Reply::StreamFailed => Signal::StreamFailed,
        Reply::TimedOut => Signal::TimedOut,
    }
}

/// Takes a run one step further.
pub fn advance(goal: Goal, state: ServiceState, signal: Signal) -> (following: (
    ServiceState,
    ServiceStep,
))
    ensures
        following == next(goal, state, signal),
{
    match state {
        ServiceState::LookingUpWorkload => match signal {
            Signal::Found => (
                ServiceState::DeletingWorkload,
                ServiceStep::Call(
                    ServiceRequest::DeleteWorkload {
                        grace_period_seconds: CANCEL_GRACE_PERIOD_SECONDS,
                        foreground: true,
                    },
                ),
            ),
            _ => proceed(goal),
        },
        ServiceState::DeletingWorkload => match signal {
            Signal::Accepted => (
                ServiceState::OpeningWatch,
                ServiceStep::Call(
                    ServiceRequest::WatchWorkloads { timeout_seconds: CANCEL_TIMEOUT_SECONDS },
                ),
            ),
            _ => finish(
                ServiceOutcome::Failed(PulumiStackServiceError::CancelFailed(cause(signal))),
            ),
        },
        ServiceState::OpeningWatch => match signal {
            Signal::Accepted => (
                ServiceState::AwaitingDeletion,
                ServiceStep::Call(ServiceRequest::NextEvent),
            ),
            _ => finish(ServiceOutcome::Aborted(AbortCause::WatchFailed)),
        },
        ServiceState::AwaitingDeletion => match signal {
            Signal::Confirmed => proceed(goal),
            Signal::TimedOut => finish(ServiceOutcome::Aborted(AbortCause::WatchTimedOut)),
            Signal::StreamEnded => finish(ServiceOutcome::Aborted(AbortCause::WatchFailed)),
            Signal::StreamFailed => finish(ServiceOutcome::Aborted(AbortCause::WatchFailed)),
            _ => (ServiceState::AwaitingDeletion, ServiceStep::Call(ServiceRequest::NextEvent)),
        },
        ServiceState::LookingUp(object) => match signal {
            Signal::Found => (
                ServiceState::Writing(object),
                ServiceStep::Call(ServiceRequest::Replace(object)),
            ),
            _ => (
                ServiceState::Writing(object),
                ServiceStep::Call(ServiceRequest::Create(object)),
            ),
        },
        ServiceState::Writing(object) => match signal {
            Signal::Accepted => match object {
                Rbac::ServiceAccount => (
                    ServiceState::LookingUp(Rbac::Role),
                    ServiceStep::Call(ServiceRequest::Get(Rbac::Role)),
                ),
                Rbac::Role => (
                    ServiceState::LookingUp(Rbac::RoleBinding),
                    ServiceStep::Call(ServiceRequest::Get(Rbac::RoleBinding)),
                ),
                Rbac::RoleBinding => (
                    ServiceState::CreatingWorkload,
                    ServiceStep::Call(ServiceRequest::CreateWorkload),
                ),
            },
            _ => {
                let unwritten = match object {
                    Rbac::ServiceAccount => UpdateFailure::ServiceAccount,
                    Rbac::Role => UpdateFailure::Role,
                    Rbac::RoleBinding => UpdateFailure::RoleBinding,
                };
                finish(
                    ServiceOutcome::Failed(
                        PulumiStackServiceError::UpdateFailed(unwritten, cause(signal)),
                    ),
                )
            },
        },
        ServiceState::CreatingWorkload => match signal {
            Signal::Accepted => finish(ServiceOutcome::Done),
            _ => finish(
                ServiceOutcome::Failed(
                    PulumiStackServiceError::UpdateFailed(UpdateFailure::Workload, cause(signal)),
                ),
            ),
        },
        ServiceState::Finished(outcome) => finish(outcome),
    }
}

fn address_of(kind: ObjectKind, namespace: &String, name: &String) -> (address: Address)
    ensures
        address@ == (ObjectKey { kind, namespace: namespace@, name: name@ }),
{
    Address { kind, namespace: namespace.clone(), name: name.clone() }
}

impl UpdatePlan {
    /// The object that `request` is about.
    pub fn address(&self, request: ServiceRequest) -> (address: Address)
        ensures
            address@ == request_key(self.deep_view(), request),
    {
        let object = match request {
            ServiceRequest::Get(object) => Some(object),
            ServiceRequest::Replace(object) => Some(object),
            ServiceRequest::Create(object) => Some(object),
            _ => None,
        };
        match object {
            Some(Rbac::ServiceAccount) => address_of(
                ObjectKind::ServiceAccount,
                &self.service_account.namespace,
                &self.service_account.name,
            ),
            Some(Rbac::Role) => address_of(ObjectKind::Role, &self.role.namespace, &self.role.name),
            Some(Rbac::RoleBinding) => address_of(
                ObjectKind::RoleBinding,
                &self.role_binding.namespace,
                &self.role_binding.name,
            ),
            None => address_of(ObjectKind::CronJob, &self.cron_job.namespace, &self.cron_job.name),
        }
    }

    /// What follows `state` once the cluster has answered with `reply`.
    pub fn step(&self, state: ServiceState, reply: &Reply) -> (following: (
        ServiceState,
        ServiceStep,
    ))
        ensures
            following == next(Goal::Update, state, signal_of(self.cron_job.name@, *reply)),
    {
        advance(Goal::Update, state, classify(self.cron_job.name.as_str(), reply))
    }
}

impl CancelPlan {
    /// The scheduled workload that every request of a cancellation is
    /// about.
    pub fn address(&self) -> (address: Address)
        ensures
            address@ == (ObjectKey {
                kind: ObjectKind::CronJob,
                namespace: self.workload_namespace@,
                name: self.workload_name@,
            }),
    {
        address_of(ObjectKind::CronJob, &self.workload_namespace, &self.workload_name)
    }

    /// What follows `state` once the cluster has answered with `reply`.
    pub fn step(&self, state: ServiceState, reply: &Reply) -> (following: (
        ServiceState,
        ServiceStep,
    ))
        ensures
            following == next(Goal::Cancel, state, signal_of(self.workload_name@, *reply)),
    {
        advance(Goal::Cancel, state, classify(self.workload_name.as_str(), reply))
    }
}

} // verus!
