//! The controller's state machine for one observed `PulumiStack`.
//!
//! The caller runs the stack service and sends the finalizer patches; the
//! functions here decide what is due and in which order.

use crate::kubernetes::object::{ObjectMeta, ObjectMetaView};
use crate::kubernetes::resource::CustomKind;
use crate::kubernetes::service::{patched, ApiFailure, KubernetesService};
use crate::stack::crd::PulumiStack;
use crate::stack::service::PulumiStackServiceError;
use vstd::prelude::*;

verus! {

/// Back-off after a failed reconciliation, in seconds.
pub const REQUEUE_SECONDS: u64 = 15;

/// Why a stack cannot be handed to the stack service.
#[derive(Debug, Clone, Copy, PartialEq, Eq, Structural)]
pub enum PulumiStackConversionError {
    NameEmpty,
    NamespaceEmpty,
}

/// What lies behind an error that the controller only passes on.
#[derive(Debug, Clone, Copy, PartialEq, Eq, Structural)]
pub enum UnknownCause {
    /// The stack lacks a name or a namespace.
    Conversion(PulumiStackConversionError),
    /// A request to the cluster failed.
    Api(ApiFailure),
}

/// Why a reconciliation or the controller itself failed.
#[derive(Debug, Clone, Copy, PartialEq, Eq, Structural)]
pub enum PulumiStackControllerStrategyError {
    /// Changed stacks could not be checked.
    Unknown(UnknownCause),
    /// The stack service failed.
    Service(PulumiStackServiceError),
    /// The stream of reconciliations ended.
    UpdateWatchFailed,
}

/// Where a stack stands in its life.
#[derive(Debug, Clone, Copy, PartialEq, Eq, Structural)]
pub enum Phase {
    /// Seen for the first time: no finalizer, not being deleted.
    Pending,
    /// Under the operator's care: finalizer set, not being deleted.
    Active,
    /// Being deleted while the finalizer still holds it.
    Terminating,
    /// Being deleted with no finalizer left: nothing to do.
    Inert,
}

/// What the controller runtime does with the stack afterwards.
#[derive(Debug, Clone, Copy, PartialEq, Eq, Structural)]
pub enum Action {
    /// Wait for the next change.
    AwaitChange,
    /// Reconcile again after `seconds`.
    Requeue { seconds: u64 },
}

/// One piece of work of a reconciliation.
#[derive(Debug, Clone, Copy, PartialEq, Eq, Structural)]
pub enum Task {
    /// Run an update of the stack service.
    UpdateStack,
    /// Run a cancellation of the stack service.
    CancelStack,
    /// Send the patch that sets the finalizer.
    AddFinalizer,
    /// Send the patch that clears the finalizers.
    RemoveFinalizer,
}

/// What the caller does next.
#[derive(Debug, Clone, Copy, PartialEq, Eq)]
pub enum ReconcileStep {
    Do(Task),
    Finish(Result<Action, PulumiStackControllerStrategyError>),
}

/// Where a reconciliation stands.
#[derive(Debug, Clone, Copy, PartialEq, Eq)]
pub enum ReconcileState {
    /// The update of a stack seen for the first time is running.
    Creating,
    /// The update of a stack under care is running.
    Updating,
    /// The cancellation is running.
    Deleting,
    /// The patch that sets the finalizer is under way.
    AddingFinalizer,
    /// The patch that clears the finalizers is under way.
    RemovingFinalizer,
    Finished(Result<Action, PulumiStackControllerStrategyError>),
}

/// How a piece of work ended.
#[derive(Debug, Clone, Copy, PartialEq, Eq, Structural)]
pub enum Completion {
    Succeeded,
    /// The stack service failed.
    ServiceFailed(PulumiStackServiceError),
    /// The patch was not applied.
    PatchFailed(ApiFailure),
}

/// Reconciles `PulumiStack` objects.
#[derive(Debug, Clone, Copy)]
pub struct KubernetesPulumiStackControllerStrategy {
    pub kubernetes_service: KubernetesService,
}

/// A stack addressed by a single key, `namespace/name`.
#[derive(Debug)]
pub struct CachedPulumiStack {
    pub name: String,
}

/// What an item of the stream of reconciliations says.
#[derive(Debug, Clone, Copy, PartialEq, Eq, Structural)]
pub enum StreamItem {
    /// One object was reconciled.
    Reconciled,
    /// The runtime reported a failure.
    Failed(ApiFailure),
    /// The stream has ended.
    Ended,
}

/// Which namespaces a watch covers.
#[derive(Debug, Clone, Copy, PartialEq, Eq, Structural)]
pub enum NamespaceScope {
    /// Every namespace of the cluster.
    All,
}

/// How the watch behind the controller is set up.
#[derive(Debug, Clone, Copy, PartialEq, Eq, Structural)]
pub struct WatchSetup {
    pub kind: CustomKind,
    pub scope: NamespaceScope,
    /// Lists are served from any version that the server has at hand.
    pub any_semantic: bool,
    /// The watch is drained when the process is told to shut down.
    pub shutdown_on_signal: bool,
}

/// The watch of the controller: every `PulumiStack` of every handled
/// namespace.
pub open spec fn controller_watch() -> WatchSetup {
    WatchSetup {
        kind: CustomKind::PulumiStack,
        scope: NamespaceScope::All,
        any_semantic: true,
        shutdown_on_signal: true,
    }
}

/// What an item of the stream says for the controller: it goes on after a
/// reconciliation, and fails when the runtime reports a failure or the
/// stream ends.
pub open spec fn stream_outcome(item: StreamItem) -> Result<(), PulumiStackControllerStrategyError> {
    match item {
        StreamItem::Reconciled => Ok(()),
        StreamItem::Failed(f) => Err(
            PulumiStackControllerStrategyError::Unknown(UnknownCause::Api(f)),
        ),
        StreamItem::Ended => Err(PulumiStackControllerStrategyError::UpdateWatchFailed),
    }
}

/// What the controller asks of the strategy that does its work.
pub trait PulumiStackControllerStrategy {
    /// How the watch behind the controller is set up.
    fn initialize(&self) -> (setup: WatchSetup)
        ensures
            setup == controller_watch(),
    ;

    /// Whether the controller goes on after `item` of its stream.
    fn update(&self, item: StreamItem) -> (outcome: Result<(), PulumiStackControllerStrategyError>)
        ensures
            outcome == stream_outcome(item),
    ;
}

/// The finalizer of the operator.
pub open spec fn finalizer_name() -> Seq<char> {
    "pulumi.stromee.de"@
}

/// The phase that an object's metadata puts it in.
pub open spec fn phase_of(meta: ObjectMetaView) -> Phase {
    if meta.is_terminating() {
        if meta.has_finalizer(finalizer_name()) {
            Phase::Terminating
        } else {
            Phase::Inert
        }
    } else {
        if meta.has_finalizer(finalizer_name()) {
            Phase::Active
        } else {
            Phase::Pending
        }
    }
}

/// Why the stack service cannot take an object, if it cannot: the
/// namespace is looked at first.
pub open spec fn conversion_error(meta: ObjectMetaView) -> Option<PulumiStackConversionError> {
    if meta.namespace is None {
        Some(PulumiStackConversionError::NamespaceEmpty)
    } else if meta.name is None {
        Some(PulumiStackConversionError::NameEmpty)
    } else {
        None
    }
}

/// The key of an object: its namespace, a slash, its name.
pub open spec fn cache_key(namespace: Seq<char>, name: Seq<char>) -> Seq<char> {
    namespace + "/"@ + name
}

/// A reconciliation that ends here.
pub open spec fn reconcile_finished(result: Result<Action, PulumiStackControllerStrategyError>) -> (
    ReconcileState,
    ReconcileStep,
) {
    (ReconcileState::Finished(result), ReconcileStep::Finish(result))
}

/// Where the reconciliation of an object begins.
///
/// An inert object is left alone. Any other object must carry a name and a
/// namespace. A pending or active one is updated, a terminating one is
/// cancelled.
pub open spec fn reconcile_initial(meta: ObjectMetaView) -> (ReconcileState, ReconcileStep) {
    match phase_of(meta) {
        Phase::Inert => reconcile_finished(Ok(Action::AwaitChange)),
        phase => match conversion_error(meta) {
            Some(e) => reconcile_finished(
                Err(PulumiStackControllerStrategyError::Unknown(UnknownCause::Conversion(e))),
            ),
            None => match phase {
                Phase::Pending => (ReconcileState::Creating, ReconcileStep::Do(Task::UpdateStack)),
                Phase::Active => (ReconcileState::Updating, ReconcileStep::Do(Task::UpdateStack)),
                _ => (ReconcileState::Deleting, ReconcileStep::Do(Task::CancelStack)),
            },
        },
    }
}

/// The error that a failed piece of work gives.
pub open spec fn failure_of(completion: Completion) -> PulumiStackControllerStrategyError {
    match completion {
        Completion::ServiceFailed(e) => PulumiStackControllerStrategyError::Service(e),
        Completion::PatchFailed(f) => PulumiStackControllerStrategyError::Unknown(
            UnknownCause::Api(f),
        ),
        Completion::Succeeded => PulumiStackControllerStrategyError::UpdateWatchFailed,
    }
}

/// The transition of a reconciliation.
///
/// The finalizer is set only after the first update has succeeded, and
/// cleared only after the cancellation has succeeded. Any failure ends the
/// reconciliation with its error.
pub open spec fn reconcile_next(state: ReconcileState, completion: Completion) -> (
    ReconcileState,
    ReconcileStep,
) {
    match state {
        ReconcileState::Finished(result) => reconcile_finished(result),
        _ => if completion != Completion::Succeeded {
            reconcile_finished(Err(failure_of(completion)))
        } else {
            match state {
                ReconcileState::Creating => (
                    ReconcileState::AddingFinalizer,
                    ReconcileStep::Do(Task::AddFinalizer),
                ),
                ReconcileState::Deleting => (
                    ReconcileState::RemovingFinalizer,
                    ReconcileStep::Do(Task::RemoveFinalizer),
                ),
                _ => reconcile_finished(Ok(Action::AwaitChange)),
            }
        },
    }
}

/// The metadata of an object once `task` has been carried out.
pub open spec fn after_task(meta: ObjectMetaView, task: Task) -> ObjectMetaView {
    match task {
        Task::AddFinalizer => patched(meta, Some(seq![finalizer_name()])),
        Task::RemoveFinalizer => patched(meta, None),
        _ => meta,
    }
}

/// What a reconciliation has done by its end.
pub struct ReconcileTrace {
    /// The pieces of work that were carried out, in order.
    pub done: Seq<Task>,
    /// The metadata of the object at the end.
    pub meta: ObjectMetaView,
    pub result: Result<Action, PulumiStackControllerStrategyError>,
}

/// Runs a reconciliation from `state` while the pieces of work end with
/// `completions`, one after the other; `None` where they run out before
/// the reconciliation ends.
pub open spec fn reconcile_run(
    meta: ObjectMetaView,
    done: Seq<Task>,
    state: ReconcileState,
    step: ReconcileStep,
    completions: Seq<Completion>,
) -> Option<ReconcileTrace>
    decreases completions.len(),
{
    match step {
        ReconcileStep::Finish(result) => Some(ReconcileTrace { done, meta, result }),
        ReconcileStep::Do(task) => if completions.len() == 0 {
            None
        } else {
            reconcile_run(
                if completions[0] == Completion::Succeeded {
                    after_task(meta, task)
                } else {
                    meta
                },
                if completions[0] == Completion::Succeeded {
                    done.push(task)
                } else {
                    done
                },
                reconcile_next(state, completions[0]).0,
                reconcile_next(state, completions[0]).1,
                completions.drop_first(),
            )
        },
    }
}

/// A whole reconciliation of the object with `meta`.
pub open spec fn reconciled(meta: ObjectMetaView, completions: Seq<Completion>) -> Option<
    ReconcileTrace,
> {
    reconcile_run(
        meta,
        Seq::empty(),
        reconcile_initial(meta).0,
        reconcile_initial(meta).1,
        completions,
    )
}

/// Whether the cluster has let go of an object: it is being deleted and no
/// finalizer holds it.
pub open spec fn released(meta: ObjectMetaView) -> bool {
    meta.is_terminating() && (meta.finalizers is None || meta.finalizers->0.len() == 0)
}

fn reconcile_finish(result: Result<Action, PulumiStackControllerStrategyError>) -> (end: (
    ReconcileState,
    ReconcileStep,
))
    ensures
        end == reconcile_finished(result),
{
    (ReconcileState::Finished(result), ReconcileStep::Finish(result))
}

impl CachedPulumiStack {
    /// The key of `k8s_stack`, or what it lacks to have one.
    pub fn try_from(k8s_stack: &PulumiStack) -> (converted: Result<
        CachedPulumiStack,
        PulumiStackConversionError,
    >)
        ensures
            match converted {
                Ok(cached) => conversion_error(k8s_stack.metadata@) is None && cached.name@
                    == cache_key(k8s_stack.metadata@.namespace->0, k8s_stack.metadata@.name->0),
                Err(e) => conversion_error(k8s_stack.metadata@) == Some(e),
            },
    {
        let namespace = match &k8s_stack.metadata.namespace {
            Some(namespace) => namespace,
            None => {
                return Err(PulumiStackConversionError::NamespaceEmpty);
            },
        };
        let name = match &k8s_stack.metadata.name {
            Some(name) => name,
            None => {
                return Err(PulumiStackConversionError::NameEmpty);
            },
        };
        Ok(CachedPulumiStack { name: namespace.clone().concat("/").concat(name.as_str()) })
    }
}

impl KubernetesPulumiStackControllerStrategy {
    /// The finalizer of the operator.
    pub fn finalizer() -> (name: &'static str)
        ensures
            name@ == finalizer_name(),
    {
        "pulumi.stromee.de"
    }

    /// The phase that `meta` puts its object in.
    pub fn phase(&self, meta: &ObjectMeta) -> (phase: Phase)
        ensures
            phase == phase_of(meta@),
    {
        let held = self.kubernetes_service.has_finalizer(meta, Self::finalizer());
        if meta.deletion_timestamp.is_some() {
            if held {
                Phase::Terminating
            } else {
                Phase::Inert
            }
        } else {
            if held {
                Phase::Active
            } else {
                Phase::Pending
            }
        }
    }

    /// Begins the reconciliation of `stack`.
    pub fn reconcile(&self, stack: &PulumiStack) -> (begin: (ReconcileState, ReconcileStep))
        ensures
            begin == reconcile_initial(stack.metadata@),
    {
        let phase = self.phase(&stack.metadata);
        match phase {
            Phase::Inert => reconcile_finish(Ok(Action::AwaitChange)),
            _ => {
                if stack.metadata.namespace.is_none() {
                    reconcile_finish(
                        Err(
                            PulumiStackControllerStrategyError::Unknown(
                                UnknownCause::Conversion(
                                    PulumiStackConversionError::NamespaceEmpty,
                                ),
                            ),
                        ),
                    )
                } else if stack.metadata.name.is_none() {
                    reconcile_finish(
                        Err(
                            PulumiStackControllerStrategyError::Unknown(
                                UnknownCause::Conversion(PulumiStackConversionError::NameEmpty),
                            ),
                        ),
                    )
                } else {
                    match phase {
                        Phase::Pending => (
                            ReconcileState::Creating,
                            ReconcileStep::Do(Task::UpdateStack),
                        ),
                        Phase::Active => (
                            ReconcileState::Updating,
                            ReconcileStep::Do(Task::UpdateStack),
                        ),
                        _ => (ReconcileState::Deleting, ReconcileStep::Do(Task::CancelStack)),
                    }
                }
            },
        }
    }

    /// Takes a reconciliation one step further, once the piece of work
    /// that was due has ended with `completion`.
    pub fn resume(&self, state: ReconcileState, completion: Completion) -> (following: (
        ReconcileState,
        ReconcileStep,
    ))
        ensures
            following == reconcile_next(state, completion),
    {
        match state {
            ReconcileState::Finished(result) => reconcile_finish(result),
            _ => match completion {
                Completion::ServiceFailed(e) => reconcile_finish(
                    Err(PulumiStackControllerStrategyError::Service(e)),
                ),
                Completion::PatchFailed(f) => reconcile_finish(
                    Err(PulumiStackControllerStrategyError::Unknown(UnknownCause::Api(f))),
                ),
                Completion::Succeeded => match state {
                    ReconcileState::Creating => (
                        ReconcileState::AddingFinalizer,
                        ReconcileStep::Do(Task::AddFinalizer),
                    ),
                    ReconcileState::Deleting => (
                        ReconcileState::RemovingFinalizer,
                        ReconcileStep::Do(Task::RemoveFinalizer),
                    ),
                    _ => reconcile_finish(Ok(Action::AwaitChange)),
                },
            },
        }
    }

    /// What the runtime does with a stack whose reconciliation failed:
    /// it reconciles again after the back-off, whatever the error.
    pub fn handle_error(&self, error: &PulumiStackControllerStrategyError) -> (action: Action)
        ensures
            action == (Action::Requeue { seconds: 15 }),
    {
        Action::Requeue { seconds: REQUEUE_SECONDS }
    }
}

impl PulumiStackControllerStrategy for KubernetesPulumiStackControllerStrategy {
    fn initialize(&self) -> (setup: WatchSetup) {
        WatchSetup {
            kind: CustomKind::PulumiStack,
            scope: NamespaceScope::All,
            any_semantic: true,
            shutdown_on_signal: true,
        }
    }

    fn update(&self, item: StreamItem) -> (outcome: Result<(), PulumiStackControllerStrategyError>) {
        match item {
            StreamItem::Reconciled => Ok(()),
            StreamItem::Failed(f) => Err(
                PulumiStackControllerStrategyError::Unknown(UnknownCause::Api(f)),
            ),
            StreamItem::Ended => Err(PulumiStackControllerStrategyError::UpdateWatchFailed),
        }
    }
}

/// After a successful reconciliation of an object that is not being
/// deleted, the object carries the operator's finalizer; the finalizer was
/// set, if at all, only after the update had succeeded.
pub proof fn law_reconciled_object_has_finalizer(
    meta: ObjectMetaView,
    completions: Seq<Completion>,
    trace: ReconcileTrace,
)
    requires
        !meta.is_terminating(),
        reconciled(meta, completions) == Some(trace),
        trace.result is Ok,
    ensures
        trace.meta.has_finalizer(finalizer_name()),
        phase_of(meta) == Phase::Pending ==> trace.done == seq![
            Task::UpdateStack,
            Task::AddFinalizer,
        ],
        phase_of(meta) == Phase::Active ==> trace.done == seq![Task::UpdateStack] && trace.meta
            == meta,
{
    reveal_with_fuel(reconcile_run, 4);
    let empty = Seq::<Task>::empty();
    assert(seq![finalizer_name()][0] == finalizer_name());
    assert(empty.push(Task::UpdateStack) =~= seq![Task::UpdateStack]);
    assert(empty.push(Task::UpdateStack).push(Task::AddFinalizer) =~= seq![
        Task::UpdateStack,
        Task::AddFinalizer,
    ]);
}

/// After the successful reconciliation of an object that is being deleted
/// and still held by the operator's finalizer, the workload was cancelled
/// first and the finalizers were cleared last: the cluster lets go of the
/// object only then.
pub proof fn law_finalizer_removed_after_teardown(
    meta: ObjectMetaView,
    completions: Seq<Completion>,
    trace: ReconcileTrace,
)
    requires
        phase_of(meta) == Phase::Terminating,
        reconciled(meta, completions) == Some(trace),
        trace.result is Ok,
    ensures
        trace.done == seq![Task::CancelStack, Task::RemoveFinalizer],
        !released(meta),
        !released(after_task(meta, Task::CancelStack)),
        trace.meta == after_task(meta, Task::RemoveFinalizer),
        released(trace.meta),
        !trace.meta.has_finalizer(finalizer_name()),
{
    reveal_with_fuel(reconcile_run, 4);
    let empty = Seq::<Task>::empty();
    assert(empty.push(Task::CancelStack).push(Task::RemoveFinalizer) =~= seq![
        Task::CancelStack,
        Task::RemoveFinalizer,
    ]);
}

} // verus!
