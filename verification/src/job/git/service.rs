//! The Git fetcher: where the credentials come from, what they are, and
//! which host keys pass.

use crate::config_provider::{ConfigError, ConfigProvider, VarError};
use crate::kubernetes::object::{ObjectMeta, ObjectMetaView, SecretData};
use crate::kubernetes::service::ApiFailure;
use crate::stack::source::git::inner::{GitAuth, GitAuthType, InnerGitStackSourceSpec};
use crate::text::{base64_encode, base64_standard, same_text};
use vstd::prelude::*;

verus! {

/// Why a repository could not be fetched.
#[derive(Debug, Clone, Copy, PartialEq, Eq, Structural)]
pub enum GitError {
    /// The secret could not be read from the cluster.
    Kubernetes(ApiFailure),
    /// The secret lacks data that the chosen kind of credentials needs.
    DataEmpty,
    /// A value of the secret is not UTF-8 text.
    Utf8,
    /// Clone, authentication or host key check failed.
    Git,
    /// The operator namespace is not configured.
    Config(ConfigError),
    /// The clone task could not be joined.
    Join,
    /// The runtime for the clone could not be built.
    Runtime,
    /// The result of the clone did not arrive.
    Recv,
}

/// What the transport presents to a host and how it judges the host.
#[derive(Debug)]
pub enum GitCredentials {
    /// User name and password in plain text.
    Basic { username: String, password: String },
    /// An SSH key held in memory.
    Ssh {
        /// User name for a remote address that names none.
        fallback_username: String,
        private_key: String,
        passphrase: Option<String>,
        /// Base64 text of the SHA-256 of the only host key that passes;
        /// `None` leaves the check to the transport.
        host_key_pin: Option<String>,
    },
}

/// What the fetcher does first.
#[derive(Debug)]
pub enum GitStep {
    /// Read the secret called `name` in `namespace`, then build the
    /// credentials from it.
    GetSecret { namespace: String, name: String },
    /// Clone `repository` into `target` without credentials and check
    /// `reference` out, where one is given.
    Clone { repository: String, reference: Option<String>, target: String },
}

/// Fetches Git repositories.
#[derive(Debug)]
pub struct GitService {
    pub config_provider: ConfigProvider,
}

/// Directory into which a repository is cloned.
pub open spec fn clone_target() -> Seq<char> {
    "./source"@
}

/// The namespace in which a secret is looked up: that of the stack, or
/// the operator namespace for a stack without one.
pub open spec fn secret_namespace(
    meta_namespace: Option<Seq<char>>,
    operator_namespace: Result<Seq<char>, VarError>,
) -> Result<Seq<char>, GitError> {
    match meta_namespace {
        Some(ns) => Ok(ns),
        None => match operator_namespace {
            Ok(ns) => Ok(ns),
            Err(e) => Err(GitError::Config(ConfigError::Var(e))),
        },
    }
}

/// Whether `begin` is what fetching `spec` begins with: a source without
/// credentials is cloned at once, one with credentials has its secret
/// read in the namespace that [`secret_namespace`] gives, and a namespace
/// that cannot be settled is the only error.
pub open spec fn git_begins(
    operator_namespace: Result<Seq<char>, VarError>,
    spec: InnerGitStackSourceSpec,
    meta: ObjectMetaView,
    begin: Result<GitStep, GitError>,
) -> bool {
    match secret_namespace(meta.namespace, operator_namespace) {
        Err(e) => begin == Err::<GitStep, GitError>(e),
        Ok(namespace) => match begin {
            Ok(GitStep::GetSecret { namespace: ns, name }) => {
                &&& spec.auth is Some
                &&& ns@ == namespace
                &&& name@ == spec.auth->0.secret_ref@
            },
            Ok(GitStep::Clone { repository, reference, target }) => {
                &&& spec.auth is None
                &&& repository@ == spec.repository@
                &&& reference.deep_view() == spec.git_ref.deep_view()
                &&& target@ == clone_target()
            },
            Err(_) => false,
        },
    }
}

/// The user name for a secret without a `username`.
pub open spec fn default_username() -> Seq<char> {
    "git"@
}

/// Whether SSH credentials can be built from a secret, and if not, why.
pub open spec fn ssh_error(data: SecretData) -> Option<GitError> {
    if data.garbled("username"@) {
        Some(GitError::Utf8)
    } else if data.lookup("identity"@) is None {
        Some(GitError::DataEmpty)
    } else if data.garbled("identity"@) {
        Some(GitError::Utf8)
    } else if data.garbled("identity.pass"@) {
        Some(GitError::Utf8)
    } else if data.garbled("remote.pub.sha256"@) {
        Some(GitError::Utf8)
    } else {
        None
    }
}

/// Whether basic credentials can be built from a secret, and if not, why.
pub open spec fn basic_error(data: SecretData) -> Option<GitError> {
    if data.garbled("username"@) {
        Some(GitError::Utf8)
    } else if data.lookup("username"@) is None {
        Some(GitError::DataEmpty)
    } else if data.lookup("password"@) is None {
        Some(GitError::DataEmpty)
    } else if data.garbled("password"@) {
        Some(GitError::Utf8)
    } else {
        None
    }
}

/// Whether `credentials` are the ones that `kind` asks for out of `data`.
pub open spec fn built_from(credentials: GitCredentials, kind: GitAuthType, data: SecretData) -> bool {
    match credentials {
        GitCredentials::Basic { username, password } => {
            &&& kind == GitAuthType::Basic
            &&& Some(username@) == data.lookup_text("username"@)
            &&& Some(password@) == data.lookup_text("password"@)
        },
        GitCredentials::Ssh { fallback_username, private_key, passphrase, host_key_pin } => {
            &&& kind == GitAuthType::Ssh
            &&& fallback_username@ == match data.lookup_text("username"@) {
                Some(name) => name,
                None => default_username(),
            }
            &&& Some(private_key@) == data.lookup_text("identity"@)
            &&& passphrase.deep_view() == data.lookup_text("identity.pass"@)
            &&& host_key_pin.deep_view() == data.lookup_text("remote.pub.sha256"@)
        },
    }
}

/// Whether a host key with the SHA-256 `hash` passes the pin: it does
/// exactly when the hash is known and its base64 text is the pin,
/// character for character.
pub open spec fn pin_accepts(pin: Seq<char>, hash: Option<Seq<u8>>) -> bool {
    hash is Some && base64_standard(hash->0) == pin
}

/// Whether a presented host key passes, given the base64 text of its
/// SHA-256 where that is known.
pub fn fingerprint_matches(pin: &str, encoded: Option<&str>) -> (accepted: bool)
    ensures
        accepted == (encoded is Some && encoded->0@ == pin@),
{
    match encoded {
        Some(text) => same_text(pin, text),
        None => false,
    }
}

/// Whether a host that presents a key with the SHA-256 `hash` passes the
/// pin; a host whose key has no known SHA-256 does not.
pub fn host_key_accepted(pin: &str, hash: Option<&[u8; 32]>) -> (accepted: bool)
    ensures
        accepted == pin_accepts(
            pin@,
            match hash {
                Some(h) => Some(h@),
                None => None,
            },
        ),
{
    match hash {
        Some(h) => {
            let encoded = base64_encode(h.as_slice());
            fingerprint_matches(pin, Some(encoded.as_str()))
        },
        None => fingerprint_matches(pin, None),
    }
}

fn required_text(data: &SecretData, key: &str) -> (found: Result<String, GitError>)
    ensures
        match found {
            Ok(text) => data.lookup_text(key@) == Some(text@),
            Err(e) => e == (if data.lookup(key@) is None {
                GitError::DataEmpty
            } else {
                GitError::Utf8
            }) && (data.lookup(key@) is None || data.garbled(key@)),
        },
{
    match data.get_text(key) {
        Ok(Some(text)) => Ok(text),
        Ok(None) => Err(GitError::DataEmpty),
        Err(_) => Err(GitError::Utf8),
    }
}

fn optional_text(data: &SecretData, key: &str) -> (found: Result<Option<String>, GitError>)
    ensures
        match found {
            Ok(text) => !data.garbled(key@) && text.deep_view() == data.lookup_text(key@),
            Err(e) => e == GitError::Utf8 && data.garbled(key@),
        },
{
    match data.get_text(key) {
        Ok(Some(text)) => Ok(Some(text)),
        Ok(None) => Ok(None),
        Err(_) => Err(GitError::Utf8),
    }
}

impl GitCredentials {
    /// The user name that the credentials present. SSH credentials take
    /// the one from the remote address, or their fallback where the
    /// address names none; basic credentials always take their own.
    pub fn username(&self, username_from_url: Option<&str>) -> (name: String)
        ensures
            name@ == match self {
                GitCredentials::Ssh { fallback_username, .. } => match username_from_url {
                    Some(from_url) => from_url@,
                    None => fallback_username@,
                },
                GitCredentials::Basic { username, .. } => username@,
            },
    {
        match self {
            GitCredentials::Ssh { fallback_username, .. } => match username_from_url {
                Some(from_url) => String::from_str(from_url),
                None => fallback_username.clone(),
            },
            GitCredentials::Basic { username, .. } => username.clone(),
        }
    }

    /// Whether a host that presents a key with the SHA-256 `hash` may be
    /// talked to. Without a pin the decision is left to the transport and
    /// the answer is `None`.
    pub fn certificate_check(&self, hash: Option<&[u8; 32]>) -> (verdict: Option<bool>)
        ensures
            verdict == match self {
                GitCredentials::Ssh { host_key_pin: Some(pin), .. } => Some(
                    pin_accepts(
                        pin@,
                        match hash {
                            Some(h) => Some(h@),
                            None => None,
                        },
                    ),
                ),
                _ => None,
            },
    {
        match self {
            GitCredentials::Ssh { host_key_pin, .. } => match host_key_pin {
                Some(pin) => Some(host_key_accepted(pin.as_str(), hash)),
                None => None,
            },
            GitCredentials::Basic { .. } => None,
        }
    }
}

impl GitService {
    /// What fetching `spec` for the stack with `metadata` begins with.
    ///
    /// A source without credentials is cloned at once, and no secret is
    /// read. The namespace for the secret is settled first in either case,
    /// and its absence is the only error.
    pub fn fetch(&self, spec: &InnerGitStackSourceSpec, metadata: &ObjectMeta) -> (begin: Result<
        GitStep,
        GitError,
    >)
        ensures
            git_begins(self.config_provider@, *spec, metadata@, begin),
    {
        let namespace = match &metadata.namespace {
            Some(ns) => ns.clone(),
            None => match self.config_provider.operator_namespace() {
                Ok(ns) => ns,
                Err(e) => {
                    return Err(GitError::Config(e));
                },
            },
        };
        match &spec.auth {
            Some(auth) => Ok(GitStep::GetSecret { namespace, name: auth.secret_ref.clone() }),
            None => Ok(self.clone_step(spec)),
        }
    }

    /// The clone of the repository of `spec`.
    pub fn clone_step(&self, spec: &InnerGitStackSourceSpec) -> (step: GitStep)
        ensures
            step matches GitStep::Clone { repository, reference, target } && repository@
                == spec.repository@ && reference.deep_view() == spec.git_ref.deep_view() && target@
                == clone_target(),
    {
        GitStep::Clone {
            repository: spec.repository.clone(),
            reference: spec.git_ref.clone(),
            target: String::from_str("./source"),
        }
    }

    /// The data of a secret that was read, or why there is none: a failed
    /// read, or a secret without data.
    pub fn get_secret(&self, read: Result<Option<SecretData>, ApiFailure>) -> (data: Result<
        SecretData,
        GitError,
    >)
        ensures
            data == match read {
                Ok(Some(d)) => Ok::<SecretData, GitError>(d),
                Ok(None) => Err(GitError::DataEmpty),
                Err(failure) => Err(GitError::Kubernetes(failure)),
            },
    {
        match read {
            Ok(Some(d)) => Ok(d),
            Ok(None) => Err(GitError::DataEmpty),
            Err(failure) => Err(GitError::Kubernetes(failure)),
        }
    }

    /// The credentials that `auth` asks for, out of the data of its secret.
    ///
    /// SSH needs `identity`; `identity.pass` and `username` are optional,
    /// and a `remote.pub.sha256` that is present pins the host key. Basic
    /// needs `username` and `password`. A needed value that is missing
    /// gives `DataEmpty`, one that is read and is not UTF-8 gives `Utf8`.
    pub fn build_callback(&self, auth: &GitAuth, data: &SecretData) -> (built: Result<
        GitCredentials,
        GitError,
    >)
        ensures
            match built {
                Ok(credentials) => built_from(credentials, auth.kind, *data) && (match auth.kind {
                    GitAuthType::Ssh => ssh_error(*data),
                    GitAuthType::Basic => basic_error(*data),
                }) is None,
                Err(e) => Some(e) == (match auth.kind {
                    GitAuthType::Ssh => ssh_error(*data),
                    GitAuthType::Basic => basic_error(*data),
                }),
            },
    {
        let fallback_username = match optional_text(data, "username") {
            Ok(Some(name)) => name,
            Ok(None) => String::from_str("git"),
            Err(e) => {
                return Err(e);
            },
        };
        match auth.kind {
            GitAuthType::Ssh => {
                let private_key = match required_text(data, "identity") {
                    Ok(key) => key,
                    Err(e) => {
                        return Err(e);
                    },
                };
                let passphrase = match optional_text(data, "identity.pass") {
                    Ok(pass) => pass,
                    Err(e) => {
                        return Err(e);
                    },
                };
                let host_key_pin = match optional_text(data, "remote.pub.sha256") {
                    Ok(pin) => pin,
                    Err(e) => {
                        return Err(e);
                    },
                };
                Ok(GitCredentials::Ssh { fallback_username, private_key, passphrase, host_key_pin })
            },
            GitAuthType::Basic => {
                let username = match required_text(data, "username") {
                    Ok(name) => name,
                    Err(e) => {
                        return Err(e);
                    },
                };
                let password = match required_text(data, "password") {
                    Ok(pass) => pass,
                    Err(e) => {
                        return Err(e);
                    },
                };
                Ok(GitCredentials::Basic { username, password })
            },
        }
    }

    /// Where the repository was cloned to, or `Git` when the clone failed.
    pub fn finish(&self, cloned: bool) -> (fetched: Result<String, GitError>)
        ensures
            match fetched {
                Ok(path) => cloned && path@ == clone_target(),
                Err(e) => !cloned && e == GitError::Git,
            },
    {
        if cloned {
            Ok(String::from_str("./source"))
        } else {
            Err(GitError::Git)
        }
    }
}

} // verus!
