//! Decision logic of a Kubernetes operator that deploys Pulumi stacks.
//!
//! Everything here is a pure function or a step function of a state machine:
//! the caller performs the cluster requests, the subprocess launches and the
//! transport work, and hands the outcomes back as plain values.

use vstd::prelude::*;

pub mod cli;
pub mod config_provider;
pub mod job;
pub mod kubernetes;
pub mod stack;
pub mod text;

verus! {

/// Anchors the crate in a binary that links it for its components only.
pub fn bind() {
}

} // verus!
