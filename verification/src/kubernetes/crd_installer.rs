//! Registration of the operator's custom resource definitions at startup.

use crate::kubernetes::resource::CustomKind;
use crate::kubernetes::service::{Installed, KubernetesCrdInstallError};
use vstd::prelude::*;

verus! {

/// Installs every custom resource definition of the operator.
#[derive(Debug, Clone, Copy)]
pub struct PulumiStackCrdInstaller {}

/// What the registrar does next.
#[derive(Debug, Clone, Copy, PartialEq, Eq)]
pub enum RegistrarStep {
    /// Install the definition of this kind.
    Install(CustomKind),
    /// Startup goes on, or is aborted with the error.
    Finish(Result<(), KubernetesCrdInstallError>),
}

/// The definitions in the order in which they are installed.
pub open spec fn definitions_in_order() -> Seq<CustomKind> {
    seq![
        CustomKind::PulumiStack,
        CustomKind::StackAuth,
        CustomKind::ClusterStackAuth,
        CustomKind::GitStackSource,
        CustomKind::ClusterGitStackSource,
        CustomKind::OciStackSource,
        CustomKind::ClusterOciStackSource,
    ]
}

/// The first failure among the first `upto` results, if any.
pub open spec fn first_failure(
    results: Seq<Result<Installed, KubernetesCrdInstallError>>,
    upto: int,
) -> Option<KubernetesCrdInstallError>
    decreases upto,
{
    if upto <= 0 || upto > results.len() {
        None
    } else if first_failure(results, upto - 1) is Some {
        first_failure(results, upto - 1)
    } else {
        match results[upto - 1] {
            Err(e) => Some(e),
            Ok(_) => None,
        }
    }
}

/// What follows once the installations so far have ended with `results`:
/// the first failure aborts, else the next definition is due, and after
/// the last one startup goes on.
pub open spec fn registrar_next(results: Seq<Result<Installed, KubernetesCrdInstallError>>) -> RegistrarStep {
    match first_failure(results, results.len() as int) {
        Some(e) => RegistrarStep::Finish(Err(e)),
        None => if results.len() < definitions_in_order().len() {
            RegistrarStep::Install(definitions_in_order()[results.len() as int])
        } else {
            RegistrarStep::Finish(Ok(()))
        },
    }
}

/// A failure among the first `upto` results is the first failure of the
/// whole list.
pub proof fn lemma_first_failure_stays(
    results: Seq<Result<Installed, KubernetesCrdInstallError>>,
    upto: int,
)
    requires
        0 <= upto <= results.len(),
        first_failure(results, upto) is Some,
    ensures
        first_failure(results, results.len() as int) == first_failure(results, upto),
    decreases results.len() - upto,
{
    if upto < results.len() {
        lemma_first_failure_stays(results, upto + 1);
    }
}

impl PulumiStackCrdInstaller {
    /// The definitions in the order in which they are installed.
    pub fn definitions() -> (kinds: Vec<CustomKind>)
        ensures
            kinds@ == definitions_in_order(),
    {
        let mut kinds: Vec<CustomKind> = Vec::new();
        kinds.push(CustomKind::PulumiStack);
        kinds.push(CustomKind::StackAuth);
        kinds.push(CustomKind::ClusterStackAuth);
        kinds.push(CustomKind::GitStackSource);
        kinds.push(CustomKind::ClusterGitStackSource);
        kinds.push(CustomKind::OciStackSource);
        kinds.push(CustomKind::ClusterOciStackSource);
        assert(kinds@ =~= definitions_in_order());
        kinds
    }

    /// What the registrar does once the installations so far have ended
    /// with `results`, the earliest first.
    pub fn run_internal(&self, results: &Vec<Result<Installed, KubernetesCrdInstallError>>) -> (step:
        RegistrarStep)
        ensures
            step == registrar_next(results@),
    {
        let mut i: usize = 0;
        while i < results.len()
            invariant
                i <= results.len(),
                first_failure(results@, i as int) is None,
            decreases results.len() - i,
        {
            match results[i] {
                Err(e) => {
                    proof {
                        lemma_first_failure_stays(results@, i as int + 1);
                    }
                    return RegistrarStep::Finish(Err(e));
                },
                Ok(_) => {},
            }
            i += 1;
        }
        let kinds = Self::definitions();
        if results.len() < kinds.len() {
            RegistrarStep::Install(kinds[results.len()])
        } else {
            RegistrarStep::Finish(Ok(()))
        }
    }
}

} // verus!
