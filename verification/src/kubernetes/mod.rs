//! The cluster gateway: object metadata, secrets, generated manifests and
//! the decisions behind custom resource definition installs and finalizers.

pub mod object;
pub mod resource;
pub mod manifest;
pub mod service;
pub mod crd_installer;
