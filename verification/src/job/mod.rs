//! The worker that runs inside the scheduled job of one stack.

pub mod fetch_service;
pub mod git;
pub mod oci;
pub mod pulumi_execution;
