//! The `PulumiStack` resource, what it references, and the services that
//! reconcile it.

pub mod auth;
pub mod cluster_model;
pub mod controller;
pub mod controller_strategy;
pub mod crd;
pub mod event;
pub mod service;
pub mod service_steps;
pub mod source;
pub mod status;
