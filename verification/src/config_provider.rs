//! Operator-level configuration, as read from the process environment.

use vstd::prelude::*;

verus! {

/// Why an environment variable could not be read.
#[derive(Debug, Clone, Copy, PartialEq, Eq, Structural)]
pub enum VarError {
    /// The variable is not set.
    NotPresent,
    /// The variable is set to something that is not Unicode text.
    NotUnicode,
}

/// A required piece of configuration is missing.
#[derive(Debug, Clone, Copy, PartialEq, Eq, Structural)]
pub enum ConfigError {
    /// The environment variable that holds it could not be read.
    Var(VarError),
}

/// The operator's configuration: what reading `OPERATOR_NAMESPACE` gave.
#[derive(Debug)]
pub struct ConfigProvider {
    operator_namespace: Result<String, VarError>,
}

/// Name of the variable that holds the operator namespace.
pub open spec fn operator_ns_var() -> Seq<char> {
    "OPERATOR_NAMESPACE"@
}

impl ConfigProvider {
    /// What reading the operator namespace variable gave: its text, or why
    /// there is none.
    pub closed spec fn view(&self) -> Result<Seq<char>, VarError> {
        match self.operator_namespace {
            Ok(ns) => Ok(ns@),
            Err(e) => Err(e),
        }
    }

    /// Name of the variable that holds the operator namespace.
    pub fn operator_ns_var_name() -> (name: &'static str)
        ensures
            name@ == operator_ns_var(),
    {
        "OPERATOR_NAMESPACE"
    }

    /// A provider over the outcome of reading the operator namespace
    /// variable.
    pub fn new(operator_namespace: Result<String, VarError>) -> (provider: ConfigProvider)
        ensures
            provider@ == match operator_namespace {
                Ok(ns) => Ok::<Seq<char>, VarError>(ns@),
                Err(e) => Err(e),
            },
    {
        ConfigProvider { operator_namespace }
    }

    /// The namespace that hosts the per-stack workloads.
    pub fn operator_namespace(&self) -> (found: Result<String, ConfigError>)
        ensures
            match found {
                Ok(ns) => self@ == Ok::<Seq<char>, VarError>(ns@),
                Err(e) => self@ is Err && e == ConfigError::Var(self@->Err_0),
            },
    {
        match &self.operator_namespace {
            Ok(ns) => Ok(ns.clone()),
            Err(e) => Err(ConfigError::Var(*e)),
        }
    }
}

} // verus!
