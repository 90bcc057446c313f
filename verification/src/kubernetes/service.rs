//! The gateway's own decisions: finalizer patches and the installation of
//! a custom resource definition.

use crate::kubernetes::object::{ObjectMeta, ObjectMetaView};
use vstd::prelude::*;

verus! {

/// Why a request to the cluster failed.
#[derive(Debug, Clone, Copy, PartialEq, Eq, Structural)]
pub enum ApiFailure {
    /// The server answered with an error status.
    Status { code: u16 },
    /// The request did not get through.
    Transport,
}

/// Why a custom resource definition could not be installed.
#[derive(Debug, Clone, Copy, PartialEq, Eq, Structural)]
pub enum KubernetesCrdInstallError {
    /// A request to the cluster failed.
    KubernetesApiError(ApiFailure),
    /// The definition carries no name to patch it under.
    CrdNameInvalid,
}

/// How a definition got installed.
#[derive(Debug, Clone, Copy, PartialEq, Eq, Structural)]
pub enum Installed {
    /// It was created and has become retrievable.
    Created,
    /// It existed and was patched.
    Patched,
}

/// A merge patch of an object's finalizer list.
#[derive(Debug)]
pub struct FinalizerPatch {
    /// Namespace of the object, or `None` for all namespaces.
    pub namespace: Option<String>,
    pub name: String,
    /// Identity under which the patch is applied.
    pub field_manager: String,
    /// The new list; `None` clears the field.
    pub finalizers: Option<Vec<String>>,
}

/// What the cluster answered to one request of an installation.
#[derive(Debug)]
pub enum CrdReply {
    /// The request succeeded; `name` is the name of the returned object.
    Succeeded { name: Option<String> },
    Failed(ApiFailure),
}

/// Where an installation stands.
#[derive(Debug)]
pub enum CrdState {
    Creating,
    Polling { name: String },
    Patching,
    Finished(Result<Installed, KubernetesCrdInstallError>),
}

/// What the caller does next.
#[derive(Debug)]
pub enum CrdStep {
    /// Create the definition.
    Create,
    /// Wait `delay_seconds`, then fetch the definition called `name`.
    Poll { name: String, delay_seconds: u64 },
    /// Apply the definition as a strategic merge patch to `name`.
    Patch { name: String },
    Finish(Result<Installed, KubernetesCrdInstallError>),
}

/// Typed operations against the cluster.
#[derive(Debug, Clone, Copy)]
pub struct KubernetesService {}

/// Seconds between two fetches of a definition that is not there yet.
pub const CRD_POLL_INTERVAL_SECONDS: u64 = 5;

/// An object's metadata after a finalizer patch: the list is replaced as a
/// whole.
pub open spec fn patched(meta: ObjectMetaView, finalizers: Option<Seq<Seq<char>>>) -> ObjectMetaView {
    ObjectMetaView { finalizers, ..meta }
}

/// Whether `patch` addresses the object of `meta` under the identity
/// `finalizer` and sets its list to `finalizers`.
pub open spec fn patches(
    patch: FinalizerPatch,
    meta: ObjectMetaView,
    finalizer: Seq<char>,
    finalizers: Option<Seq<Seq<char>>>,
) -> bool {
    &&& patch.namespace.deep_view() == meta.namespace
    &&& Some(patch.name@) == meta.name
    &&& patch.field_manager@ == finalizer
    &&& patch.finalizers.deep_view() == finalizers
}

/// An installation that ends here.
pub open spec fn crd_finished(result: Result<Installed, KubernetesCrdInstallError>) -> (
    CrdState,
    CrdStep,
) {
    (CrdState::Finished(result), CrdStep::Finish(result))
}

/// Where an installation begins: with the creation.
pub open spec fn crd_initial() -> (CrdState, CrdStep) {
    (CrdState::Creating, CrdStep::Create)
}

/// The transition of an installation of the definition called `crd_name`.
///
/// A created definition is polled by the name it came back with until it
/// can be fetched; only "not found" is waited out. A definition that
/// exists already is patched under its own name.
pub open spec fn crd_next(crd_name: Option<String>, state: CrdState, reply: CrdReply) -> (
    CrdState,
    CrdStep,
) {
    match state {
        CrdState::Creating => match reply {
            CrdReply::Succeeded { name: Some(created) } => (
                CrdState::Polling { name: created },
                CrdStep::Poll { name: created, delay_seconds: 0 },
            ),
            CrdReply::Succeeded { name: None } => crd_finished(Ok(Installed::Created)),
            CrdReply::Failed(ApiFailure::Status { code: 409 }) => match crd_name {
                Some(name) => (CrdState::Patching, CrdStep::Patch { name }),
                None => crd_finished(Err(KubernetesCrdInstallError::CrdNameInvalid)),
            },
            CrdReply::Failed(failure) => crd_finished(
                Err(KubernetesCrdInstallError::KubernetesApiError(failure)),
            ),
        },
        CrdState::Polling { name } => match reply {
            CrdReply::Succeeded { .. } => crd_finished(Ok(Installed::Created)),
            CrdReply::Failed(ApiFailure::Status { code: 404 }) => (
                CrdState::Polling { name },
                CrdStep::Poll { name, delay_seconds: 5 },
            ),
            CrdReply::Failed(failure) => crd_finished(
                Err(KubernetesCrdInstallError::KubernetesApiError(failure)),
            ),
        },
        CrdState::Patching => match reply {
            CrdReply::Succeeded { .. } => crd_finished(Ok(Installed::Patched)),
            CrdReply::Failed(failure) => crd_finished(
                Err(KubernetesCrdInstallError::KubernetesApiError(failure)),
            ),
        },
        CrdState::Finished(result) => crd_finished(result),
    }
}

/// How an installation ends when the cluster answers with `replies`, one
/// after the other; `None` where they run out before it ends.
pub open spec fn crd_run(
    crd_name: Option<String>,
    state: CrdState,
    step: CrdStep,
    replies: Seq<CrdReply>,
) -> Option<Result<Installed, KubernetesCrdInstallError>>
    decreases replies.len(),
{
    match step {
        CrdStep::Finish(result) => Some(result),
        _ => if replies.len() == 0 {
            None
        } else {
            crd_run(
                crd_name,
                crd_next(crd_name, state, replies[0]).0,
                crd_next(crd_name, state, replies[0]).1,
                replies.drop_first(),
            )
        },
    }
}

/// `count` answers of "not found".
pub open spec fn not_found_replies(count: nat) -> Seq<CrdReply> {
    Seq::new(count, |i: int| CrdReply::Failed(ApiFailure::Status { code: 404 }))
}

fn crd_finish(result: Result<Installed, KubernetesCrdInstallError>) -> (end: (CrdState, CrdStep))
    ensures
        end == crd_finished(result),
{
    (CrdState::Finished(result), CrdStep::Finish(result))
}

fn crd_failed(failure: ApiFailure) -> (end: (CrdState, CrdStep))
    ensures
        end == crd_finished(Err(KubernetesCrdInstallError::KubernetesApiError(failure))),
{
    crd_finish(Err(KubernetesCrdInstallError::KubernetesApiError(failure)))
}

impl KubernetesService {
    /// Whether the finalizer list of `resource` names `finalizer`.
    pub fn has_finalizer(&self, resource: &ObjectMeta, finalizer: &str) -> (has: bool)
        ensures
            has == resource@.has_finalizer(finalizer@),
    {
        match &resource.finalizers {
            Some(finalizers) => {
                let wanted = String::from_str(finalizer);
                let ghost names = finalizers.deep_view();
                assert(resource.finalizers == Some(*finalizers));
                assert(resource.finalizers.deep_view() == Some(names));
                let mut i: usize = 0;
                while i < finalizers.len()
                    invariant
                        i <= finalizers.len(),
                        wanted@ == finalizer@,
                        names == finalizers.deep_view(),
                        resource@.finalizers == Some(names),
                        forall|j: int| 0 <= j < i ==> names[j] != finalizer@,
                    decreases finalizers.len() - i,
                {
                    if finalizers[i] == wanted {
                        assert(names[i as int] == finalizer@);
                        assert(resource@.finalizers == Some(names));
                        assert(names.contains(finalizer@));
                        return true;
                    }
                    i += 1;
                }
                assert(resource@.finalizers == Some(names));
                false
            },
            None => false,
        }
    }

    /// The patch that makes `finalizer` the finalizer list of `resource`.
    pub fn add_finalizer(&self, resource: &ObjectMeta, finalizer: &str) -> (patch: FinalizerPatch)
        requires
            resource.name is Some,
        ensures
            patches(patch, resource@, finalizer@, Some(seq![finalizer@])),
    {
        let mut finalizers: Vec<String> = Vec::new();
        finalizers.push(String::from_str(finalizer));
        assert(finalizers.deep_view() =~= seq![finalizer@]);
        FinalizerPatch {
            namespace: resource.namespace.clone(),
            name: resource.name.as_ref().unwrap().clone(),
            field_manager: String::from_str(finalizer),
            finalizers: Some(finalizers),
        }
    }

    /// The patch that clears the finalizer list of `resource`.
    pub fn remove_finalizer(&self, resource: &ObjectMeta, finalizer: &str) -> (patch:
        FinalizerPatch)
        requires
            resource.name is Some,
        ensures
            patches(patch, resource@, finalizer@, None),
    {
        FinalizerPatch {
            namespace: resource.namespace.clone(),
            name: resource.name.as_ref().unwrap().clone(),
            field_manager: String::from_str(finalizer),
            finalizers: None,
        }
    }

    /// Takes the installation of the definition called `crd_name` one step
    /// further. An installation begins in `CrdState::Creating` with the
    /// step `CrdStep::Create`.
    pub fn install_crd(&self, crd_name: Option<&String>, state: CrdState, reply: CrdReply) -> (following:
        (CrdState, CrdStep))
        ensures
            following == crd_next(
                match crd_name {
                    Some(name) => Some(*name),
                    None => None,
                },
                state,
                reply,
            ),
    {
        match state {
            CrdState::Creating => match reply {
                CrdReply::Succeeded { name: Some(created) } => {
                    let copy = created.clone();
                    (
                        CrdState::Polling { name: created },
                        CrdStep::Poll { name: copy, delay_seconds: 0 },
                    )
                },
                CrdReply::Succeeded { name: None } => crd_finish(Ok(Installed::Created)),
                CrdReply::Failed(failure) => match failure {
                    ApiFailure::Status { code } => {
                        if code == 409 {
                            match crd_name {
                                Some(name) => (
                                    CrdState::Patching,
                                    CrdStep::Patch { name: name.clone() },
                                ),
                                None => crd_finish(Err(KubernetesCrdInstallError::CrdNameInvalid)),
                            }
                        } else {
                            crd_failed(failure)
                        }
                    },
                    ApiFailure::Transport => crd_failed(failure),
                },
            },
            CrdState::Polling { name } => match reply {
                CrdReply::Succeeded { .. } => crd_finish(Ok(Installed::Created)),
                CrdReply::Failed(failure) => match failure {
                    ApiFailure::Status { code } => {
                        if code == 404 {
                            let copy = name.clone();
                            (
                                CrdState::Polling { name },
                                CrdStep::Poll {
                                    name: copy,
                                    delay_seconds: CRD_POLL_INTERVAL_SECONDS,
                                },
                            )
                        } else {
                            crd_failed(failure)
                        }
                    },
                    ApiFailure::Transport => crd_failed(failure),
                },
            },
            CrdState::Patching => match reply {
                CrdReply::Succeeded { .. } => crd_finish(Ok(Installed::Patched)),
                CrdReply::Failed(failure) => crd_failed(failure),
            },
            CrdState::Finished(result) => crd_finish(result),
        }
    }
}

/// Installing a definition that exists already patches it under its own
/// name and succeeds once the patch does.
pub proof fn law_existing_definition_is_patched(name: String, patched_name: Option<String>)
    ensures
        crd_next(Some(name), CrdState::Creating, CrdReply::Failed(ApiFailure::Status { code: 409 }))
            == (CrdState::Patching, CrdStep::Patch { name }),
        crd_run(
            Some(name),
            crd_initial().0,
            crd_initial().1,
            seq![
                CrdReply::Failed(ApiFailure::Status { code: 409 }),
                CrdReply::Succeeded { name: patched_name },
            ],
        ) == Some(Ok::<Installed, KubernetesCrdInstallError>(Installed::Patched)),
{
    reveal_with_fuel(crd_run, 3);
    let replies = seq![
        CrdReply::Failed(ApiFailure::Status { code: 409 }),
        CrdReply::Succeeded { name: patched_name },
    ];
    assert(replies.drop_first() =~= seq![CrdReply::Succeeded { name: patched_name }]);
    assert(replies.drop_first().drop_first() =~= Seq::<CrdReply>::empty());
}

/// However often a created definition is "not found" before it can be
/// fetched, the installation waits and then succeeds.
pub proof fn law_polling_outlasts_not_found(
    crd_name: Option<String>,
    created: String,
    misses: nat,
    fetched_name: Option<String>,
    delay_seconds: u64,
)
    ensures
        crd_run(
            crd_name,
            CrdState::Polling { name: created },
            CrdStep::Poll { name: created, delay_seconds },
            not_found_replies(misses).push(CrdReply::Succeeded { name: fetched_name }),
        ) == Some(Ok::<Installed, KubernetesCrdInstallError>(Installed::Created)),
    decreases misses,
{
    let replies = not_found_replies(misses).push(CrdReply::Succeeded { name: fetched_name });
    reveal_with_fuel(crd_run, 3);
    if misses == 0 {
        assert(replies.drop_first() =~= Seq::<CrdReply>::empty());
    } else {
        assert(replies.drop_first() =~= not_found_replies((misses - 1) as nat).push(
            CrdReply::Succeeded { name: fetched_name },
        ));
        law_polling_outlasts_not_found(
            crd_name,
            created,
            (misses - 1) as nat,
            fetched_name,
            5,
        );
    }
}

} // verus!
