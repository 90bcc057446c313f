//! Fetching a stack's program from a Git repository.

pub mod service;
