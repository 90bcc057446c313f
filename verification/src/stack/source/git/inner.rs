//! What both kinds of Git source objects hold.

use vstd::prelude::*;

verus! {

/// How a Git secret is used to authenticate.
#[derive(Debug, Clone, Copy, PartialEq, Eq, Structural)]
pub enum GitAuthType {
    /// User name and password.
    Basic,
    /// An SSH private key.
    Ssh,
}

/// Reference to the secret that authenticates against the repository.
#[derive(Debug)]
pub struct GitAuth {
    pub kind: GitAuthType,
    pub secret_ref: String,
}

/// A Git repository with an optional revision and credentials.
#[derive(Debug)]
pub struct InnerGitStackSourceSpec {
    pub repository: String,
    pub git_ref: Option<String>,
    pub auth: Option<GitAuth>,
}

} // verus!
