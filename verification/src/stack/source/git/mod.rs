//! Git program sources.

pub mod cluster_crd;
pub mod crd;
pub mod inner;
pub mod repository;
