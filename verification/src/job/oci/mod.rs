//! Fetching a stack's program from an OCI artifact.

pub mod service;
