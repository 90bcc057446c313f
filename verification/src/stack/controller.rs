//! The controller's outer loop.

use crate::stack::controller_strategy::{
    KubernetesPulumiStackControllerStrategy, PulumiStackControllerStrategyError,
};
use vstd::prelude::*;

verus! {

/// What the controller does next.
#[derive(Debug, Clone, Copy, PartialEq, Eq)]
pub enum ControllerStep {
    /// Take the next item of the stream of reconciliations.
    Update,
    /// Leave the loop with this error.
    Finish(PulumiStackControllerStrategyError),
}

/// Runs the controller until it fails.
#[derive(Debug, Clone, Copy)]
pub struct PulumiStackController {
    pub controller_strategy: KubernetesPulumiStackControllerStrategy,
}

impl PulumiStackController {
    /// What follows the initialization or an update that ended with
    /// `last`: the loop goes on until something fails.
    pub fn run_internal(&self, last: Result<(), PulumiStackControllerStrategyError>) -> (step:
        ControllerStep)
        ensures
            match last {
                Ok(_) => step == ControllerStep::Update,
                Err(e) => step == ControllerStep::Finish(e),
            },
    {
        match last {
            Ok(_) => ControllerStep::Update,
            Err(e) => ControllerStep::Finish(e),
        }
    }

    /// Rank of the controller among the application's runners: it starts
    /// after the runners of the default rank.
    pub fn priority(&self) -> (rank: i8)
        ensures
            rank == -1,
    {
        -1
    }
}

} // verus!
