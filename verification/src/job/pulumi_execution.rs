//! The worker pipeline: from the stack's name in the environment to the
//! exit status of `pulumi up`.
//!
//! The caller reads the environment, the cluster and the file system and
//! launches the processes; the functions here say what to read, what to
//! export, what to launch and what comes next.

use crate::cli::{CancelOptions, CommandLine, LoginOptions, PulumiCLI, UpOptions};
use crate::config_provider::VarError;
use crate::job::fetch_service::FetchError;
use crate::kubernetes::object::SecretData;
use crate::kubernetes::resource::{CustomKind, Lookup};
use crate::kubernetes::service::ApiFailure;
use crate::stack::auth::inner::InnerStackAuthSpec;
use crate::stack::auth::repository::StackAuthRepository;
use crate::stack::crd::{PulumiStack, StackAuthRefType, StackSourceRefType};
use crate::stack::service::namespace_of;
use crate::stack::source::git::repository::GitStackSourceRepository;
use crate::stack::source::oci::repository::OciStackSourceRepository;
use crate::text::{join_path, path_joined, same_text};
use vstd::prelude::*;

verus! {

/// Why the worker gave up.
#[derive(Debug, Clone, Copy, PartialEq, Eq, Structural)]
pub enum PulumiExecutionError {
    /// `PULUMI_STACK` could not be read.
    PulumiStackNameNotDefined(VarError),
    /// `WATCH_NAMESPACE` could not be read.
    CurrentNamespaceNotDefined(VarError),
    /// An object could not be fetched from the cluster.
    PulumiStackNotFound(ApiFailure),
    /// The program source could not be fetched.
    StackSourceFetchFailed(FetchError),
    /// A secret lacks a key it must have, or holds bytes that are not
    /// UTF-8 under it.
    SecretShapeInvalid,
    /// The project names a runtime that the worker cannot prepare.
    UnsupportedRuntime,
}

/// What the project file of a program says.
#[derive(Debug)]
pub struct PulumiConfig {
    pub runtime: String,
}

/// Where a secret is read.
#[derive(Debug)]
pub struct SecretRef {
    pub namespace: String,
    pub name: String,
}

/// One variable to export into the worker's environment.
#[derive(Debug)]
pub struct EnvAssignment {
    pub name: String,
    pub value: String,
}

/// The stages of the pipeline.
#[derive(Debug, Clone, Copy, PartialEq, Eq, Structural)]
pub enum Stage {
    ResolveStack,
    ResolveAuth,
    ResolveSource,
    ReadAccessToken,
    ReadBackendCredentials,
    FetchSource,
    ReadProject,
    InstallRuntime,
    Login,
    CancelPrior,
    Up,
}

/// How a stage ended.
#[derive(Debug, Clone, Copy, PartialEq, Eq, Structural)]
pub enum StageResult {
    /// The stage did what it was for.
    Completed,
    /// The process of the stage exited with `code`.
    Exited { code: i32 },
    Failed(PulumiExecutionError),
}

/// What the worker does next.
#[derive(Debug, Clone, Copy, PartialEq, Eq, Structural)]
pub enum WorkerStep {
    Run(Stage),
    /// Leave with the exit status of `pulumi up`.
    Exit { code: i32 },
    Abort(PulumiExecutionError),
}

/// The worker of one stack, with what its environment held.
#[derive(Debug)]
pub struct PulumiExecution {
    /// What reading `PULUMI_STACK` gave.
    pub pulumi_stack: Result<String, VarError>,
    /// What reading `WATCH_NAMESPACE` gave.
    pub watch_namespace: Result<String, VarError>,
    pub git_stack_source_repository: GitStackSourceRepository,
    pub oci_stack_source_repository: OciStackSourceRepository,
    pub stack_auth_repository: StackAuthRepository,
}

/// The namespace in which an object of `kind` is looked up for a stack
/// that lives in `namespace`.
pub open spec fn lookup_namespace(kind: CustomKind, namespace: Seq<char>) -> Option<Seq<char>> {
    if kind.is_namespaced() {
        Some(namespace)
    } else {
        None
    }
}

/// The text of an environment reading.
pub open spec fn reading(value: Result<String, VarError>) -> Result<Seq<char>, VarError> {
    match value {
        Ok(text) => Ok(text@),
        Err(e) => Err(e),
    }
}

/// The text under `key`, or the verdict that the secret is misshapen.
pub open spec fn required(data: SecretData, key: Seq<char>) -> Result<
    Seq<char>,
    PulumiExecutionError,
> {
    match data.lookup_text(key) {
        Some(text) => Ok(text),
        None => Err(PulumiExecutionError::SecretShapeInvalid),
    }
}

/// Whether `assignment` sets `name` to `value`.
pub open spec fn assigns(assignment: EnvAssignment, name: Seq<char>, value: Seq<char>) -> bool {
    assignment.name@ == name && assignment.value@ == value
}

/// The directory in which the program of a stack is run: the fetched
/// root, or the stack's path below it.
pub open spec fn working_directory_of(fetched: Seq<char>, path: Option<Seq<char>>) -> Seq<char> {
    match path {
        Some(sub) => path_joined(fetched, sub),
        None => fetched,
    }
}

/// The stage that follows the resolution of the source: the secrets that
/// the credentials name are read first, the access token before the
/// backend credentials.
pub open spec fn after_source(has_token: bool, has_backend: bool) -> Stage {
    if has_token {
        Stage::ReadAccessToken
    } else if has_backend {
        Stage::ReadBackendCredentials
    } else {
        Stage::FetchSource
    }
}

/// The transition of the pipeline.
///
/// A failed stage aborts the worker. The exit codes of the processes
/// before `pulumi up` are not looked at; that of `pulumi up` becomes the
/// worker's own.
pub open spec fn worker_next(has_token: bool, has_backend: bool, stage: Stage, result: StageResult) -> WorkerStep {
    match result {
        StageResult::Failed(e) => WorkerStep::Abort(e),
        _ => match stage {
            Stage::ResolveStack => WorkerStep::Run(Stage::ResolveAuth),
            Stage::ResolveAuth => WorkerStep::Run(Stage::ResolveSource),
            Stage::ResolveSource => WorkerStep::Run(after_source(has_token, has_backend)),
            Stage::ReadAccessToken => WorkerStep::Run(after_source(false, has_backend)),
            Stage::ReadBackendCredentials => WorkerStep::Run(Stage::FetchSource),
            Stage::FetchSource => WorkerStep::Run(Stage::ReadProject),
            Stage::ReadProject => WorkerStep::Run(Stage::InstallRuntime),
            Stage::InstallRuntime => WorkerStep::Run(Stage::Login),
            Stage::Login => WorkerStep::Run(Stage::CancelPrior),
            Stage::CancelPrior => WorkerStep::Run(Stage::Up),
            Stage::Up => match result {
                StageResult::Exited { code } => WorkerStep::Exit { code },
                _ => WorkerStep::Exit { code: 0 },
            },
        },
    }
}

fn secret_text(data: &SecretData, key: &str) -> (found: Result<String, PulumiExecutionError>)
    ensures
        match found {
            Ok(text) => required(*data, key@) == Ok::<Seq<char>, PulumiExecutionError>(text@),
            Err(e) => required(*data, key@) == Err::<Seq<char>, PulumiExecutionError>(e),
        },
{
    match data.get_text(key) {
        Ok(Some(text)) => Ok(text),
        _ => Err(PulumiExecutionError::SecretShapeInvalid),
    }
}

fn assignment(name: &str, value: String) -> (made: EnvAssignment)
    ensures
        assigns(made, name@, value@),
{
    EnvAssignment { name: String::from_str(name), value }
}

impl PulumiExecution {
    /// The first step of the pipeline.
    pub fn start() -> (step: WorkerStep)
        ensures
            step == WorkerStep::Run(Stage::ResolveStack),
    {
        WorkerStep::Run(Stage::ResolveStack)
    }

    /// What follows `stage` once it has ended with `result`, for a stack
    /// whose credentials are `auth` (`None` while they are not resolved).
    pub fn run_internal(&self, stage: Stage, auth: Option<&InnerStackAuthSpec>, result: StageResult) -> (step:
        WorkerStep)
        ensures
            step == worker_next(
                auth is Some && auth->0.access_token_secret is Some,
                auth is Some && auth->0.backend_auth_secret is Some,
                stage,
                result,
            ),
    {
        let (has_token, has_backend) = match auth {
            Some(spec) => (spec.access_token_secret.is_some(), spec.backend_auth_secret.is_some()),
            None => (false, false),
        };
        match result {
            StageResult::Failed(e) => WorkerStep::Abort(e),
            _ => match stage {
                Stage::ResolveStack => WorkerStep::Run(Stage::ResolveAuth),
                Stage::ResolveAuth => WorkerStep::Run(Stage::ResolveSource),
                Stage::ResolveSource => {
                    if has_token {
                        WorkerStep::Run(Stage::ReadAccessToken)
                    } else if has_backend {
                        WorkerStep::Run(Stage::ReadBackendCredentials)
                    } else {
                        WorkerStep::Run(Stage::FetchSource)
                    }
                },
                Stage::ReadAccessToken => {
                    if has_backend {
                        WorkerStep::Run(Stage::ReadBackendCredentials)
                    } else {
                        WorkerStep::Run(Stage::FetchSource)
                    }
                },
                Stage::ReadBackendCredentials => WorkerStep::Run(Stage::FetchSource),
                Stage::FetchSource => WorkerStep::Run(Stage::ReadProject),
                Stage::ReadProject => WorkerStep::Run(Stage::InstallRuntime),
                Stage::InstallRuntime => WorkerStep::Run(Stage::Login),
                Stage::Login => WorkerStep::Run(Stage::CancelPrior),
                Stage::CancelPrior => WorkerStep::Run(Stage::Up),
                Stage::Up => match result {
                    StageResult::Exited { code } => WorkerStep::Exit { code },
                    _ => WorkerStep::Exit { code: 0 },
                },
            },
        }
    }

    /// Where the worker's own stack is looked up.
    ///
    /// Fails when the stack's name cannot be read from the environment,
    /// and else when the namespace cannot.
    pub fn get_stack(&self) -> (lookup: Result<Lookup, PulumiExecutionError>)
        ensures
            match lookup {
                Ok(found) => reading(self.pulumi_stack) is Ok && reading(self.watch_namespace) is Ok
                    && found.asks(
                    CustomKind::PulumiStack,
                    Some(reading(self.watch_namespace)->Ok_0),
                    reading(self.pulumi_stack)->Ok_0,
                ),
                Err(e) => e == match reading(self.pulumi_stack) {
                    Err(cause) => PulumiExecutionError::PulumiStackNameNotDefined(cause),
                    Ok(_) => PulumiExecutionError::CurrentNamespaceNotDefined(
                        reading(self.watch_namespace)->Err_0,
                    ),
                } && (reading(self.pulumi_stack) is Err || reading(self.watch_namespace) is Err),
            },
    {
        let name = match &self.pulumi_stack {
            Ok(name) => name,
            Err(e) => {
                return Err(PulumiExecutionError::PulumiStackNameNotDefined(*e));
            },
        };
        let namespace = match &self.watch_namespace {
            Ok(namespace) => namespace,
            Err(e) => {
                return Err(PulumiExecutionError::CurrentNamespaceNotDefined(*e));
            },
        };
        Ok(Lookup::namespaced(CustomKind::PulumiStack, namespace.as_str(), name.as_str()))
    }

    /// Where the credentials of `pulumi_stack` are looked up: under the
    /// name that the stack's reference gives, in the stack's namespace for
    /// a `StackAuth` and cluster-wide for a `ClusterStackAuth`.
    pub fn get_inner_stack_auth(&self, pulumi_stack: &PulumiStack) -> (lookup: Lookup)
        requires
            pulumi_stack.spec.auth.type_.custom_kind().is_namespaced()
                ==> pulumi_stack.metadata.namespace is Some,
        ensures
            lookup.asks(
                pulumi_stack.spec.auth.type_.custom_kind(),
                lookup_namespace(
                    pulumi_stack.spec.auth.type_.custom_kind(),
                    namespace_of(*pulumi_stack),
                ),
                pulumi_stack.spec.auth.name@,
            ),
    {
        let name = &pulumi_stack.spec.auth.name;
        match pulumi_stack.spec.auth.type_ {
            StackAuthRefType::Namespace => {
                let namespace = pulumi_stack.metadata.namespace.as_ref().unwrap();
                self.stack_auth_repository.get_namespaced_by_name_and_namespace(
                    name.as_str(),
                    namespace.as_str(),
                )
            },
            StackAuthRefType::Cluster => self.stack_auth_repository.get_by_name(name.as_str()),
        }
    }

    /// Where the source of `pulumi_stack` is looked up: under the name
    /// that the stack's reference gives, in the repository of the kind
    /// that the reference names, and in no other.
    pub fn get_inner_stack_source(&self, pulumi_stack: &PulumiStack) -> (lookup: Lookup)
        requires
            pulumi_stack.spec.source.type_.custom_kind().is_namespaced()
                ==> pulumi_stack.metadata.namespace is Some,
        ensures
            lookup.asks(
                pulumi_stack.spec.source.type_.custom_kind(),
                lookup_namespace(
                    pulumi_stack.spec.source.type_.custom_kind(),
                    namespace_of(*pulumi_stack),
                ),
                pulumi_stack.spec.source.name@,
            ),
    {
        let name = &pulumi_stack.spec.source.name;
        match pulumi_stack.spec.source.type_ {
            StackSourceRefType::Git => {
                let namespace = pulumi_stack.metadata.namespace.as_ref().unwrap();
                self.git_stack_source_repository.get_namespaced_by_name_and_namespace(
                    name.as_str(),
                    namespace.as_str(),
                )
            },
            StackSourceRefType::ClusterGit => self.git_stack_source_repository.get_by_name(
                name.as_str(),
            ),
            StackSourceRefType::Oci => {
                let namespace = pulumi_stack.metadata.namespace.as_ref().unwrap();
                self.oci_stack_source_repository.get_namespaced_by_name_and_namespace(
                    name.as_str(),
                    namespace.as_str(),
                )
            },
            StackSourceRefType::ClusterOci => self.oci_stack_source_repository.get_by_name(
                name.as_str(),
            ),
        }
    }

    /// Where the secret called `name` is read: in the watched namespace.
    /// Fails when that namespace cannot be read from the environment.
    pub fn secret_lookup(&self, name: &str) -> (lookup: Result<SecretRef, PulumiExecutionError>)
        ensures
            match lookup {
                Ok(found) => reading(self.watch_namespace) == Ok::<Seq<char>, VarError>(
                    found.namespace@,
                ) && found.name@ == name@,
                Err(e) => reading(self.watch_namespace) is Err && e
                    == PulumiExecutionError::CurrentNamespaceNotDefined(
                    reading(self.watch_namespace)->Err_0,
                ),
            },
    {
        match &self.watch_namespace {
            Ok(namespace) => Ok(
                SecretRef { namespace: namespace.clone(), name: String::from_str(name) },
            ),
            Err(e) => Err(PulumiExecutionError::CurrentNamespaceNotDefined(*e)),
        }
    }

    /// The variable that carries the access token of a backend: the text
    /// under `token`, exported as `PULUMI_CONFIG_PASSPHRASE`.
    pub fn access_token(&self, data: &SecretData) -> (export: Result<
        EnvAssignment,
        PulumiExecutionError,
    >)
        ensures
            match export {
                Ok(made) => required(*data, "token"@) is Ok && assigns(
                    made,
                    "PULUMI_CONFIG_PASSPHRASE"@,
                    required(*data, "token"@)->Ok_0,
                ),
                Err(e) => required(*data, "token"@) == Err::<Seq<char>, PulumiExecutionError>(e),
            },
    {
        match secret_text(data, "token") {
            Ok(token) => Ok(assignment("PULUMI_CONFIG_PASSPHRASE", token)),
            Err(e) => Err(e),
        }
    }

    /// The variables that carry the credentials of a backend: the texts
    /// under the three `AWS_` keys, each exported under its own name.
    pub fn backend_credentials(&self, data: &SecretData) -> (exports: Result<
        Vec<EnvAssignment>,
        PulumiExecutionError,
    >)
        ensures
            match exports {
                Ok(made) => {
                    &&& made@.len() == 3
                    &&& required(*data, "AWS_ACCESS_KEY_ID"@) is Ok
                    &&& required(*data, "AWS_DEFAULT_REGION"@) is Ok
                    &&& required(*data, "AWS_SECRET_ACCESS_KEY"@) is Ok
                    &&& assigns(
                        made@[0],
                        "AWS_ACCESS_KEY_ID"@,
                        required(*data, "AWS_ACCESS_KEY_ID"@)->Ok_0,
                    )
                    &&& assigns(
                        made@[1],
                        "AWS_DEFAULT_REGION"@,
                        required(*data, "AWS_DEFAULT_REGION"@)->Ok_0,
                    )
                    &&& assigns(
                        made@[2],
                        "AWS_SECRET_ACCESS_KEY"@,
                        required(*data, "AWS_SECRET_ACCESS_KEY"@)->Ok_0,
                    )
                },
                Err(e) => {
                    &&& e == PulumiExecutionError::SecretShapeInvalid
                    &&& required(*data, "AWS_ACCESS_KEY_ID"@) is Err || required(
                        *data,
                        "AWS_DEFAULT_REGION"@,
                    ) is Err || required(*data, "AWS_SECRET_ACCESS_KEY"@) is Err
                },
            },
    {
        let access_key_id = match secret_text(data, "AWS_ACCESS_KEY_ID") {
            Ok(text) => text,
            Err(e) => {
                return Err(e);
            },
        };
        let default_region = match secret_text(data, "AWS_DEFAULT_REGION") {
            Ok(text) => text,
            Err(e) => {
                return Err(e);
            },
        };
        let secret_access_key = match secret_text(data, "AWS_SECRET_ACCESS_KEY") {
            Ok(text) => text,
            Err(e) => {
                return Err(e);
            },
        };
        let mut made: Vec<EnvAssignment> = Vec::new();
        made.push(assignment("AWS_ACCESS_KEY_ID", access_key_id));
        made.push(assignment("AWS_DEFAULT_REGION", default_region));
        made.push(assignment("AWS_SECRET_ACCESS_KEY", secret_access_key));
        Ok(made)
    }

    /// The directory in which the program of `pulumi_stack` is run, given
    /// the root that its source was fetched to: the root itself, or the
    /// stack's path joined onto it as the platform joins paths.
    pub fn working_directory(&self, fetched: &str, pulumi_stack: &PulumiStack) -> (dir: String)
        ensures
            dir@ == working_directory_of(fetched@, pulumi_stack.spec.path.deep_view()),
    {
        match &pulumi_stack.spec.path {
            Some(path) => join_path(fetched, path.as_str()),
            None => String::from_str(fetched),
        }
    }

    /// The project file of the program in `working_dir`.
    pub fn project_file(&self, working_dir: &str) -> (file: String)
        ensures
            file@ == path_joined(working_dir@, "Pulumi.yaml"@),
    {
        join_path(working_dir, "Pulumi.yaml")
    }

    /// The command that prepares the runtime of a program: `npm install`
    /// for `nodejs`, run where `pulumi` runs. No other runtime can be
    /// prepared.
    pub fn install_command(&self, pulumi: &PulumiCLI, config: &PulumiConfig) -> (command: Result<
        CommandLine,
        PulumiExecutionError,
    >)
        ensures
            match command {
                Ok(line) => {
                    &&& config.runtime@ == "nodejs"@
                    &&& line.program@ == "npm"@
                    &&& line.args.deep_view() == seq!["install"@]
                    &&& line.workdir@ == pulumi@
                },
                Err(e) => config.runtime@ != "nodejs"@ && e
                    == PulumiExecutionError::UnsupportedRuntime,
            },
    {
        if same_text(config.runtime.as_str(), "nodejs") {
            let mut args: Vec<String> = Vec::new();
            args.push(String::from_str("install"));
            assert(args.deep_view() =~= seq!["install"@]);
            Ok(pulumi.spawn("npm", args))
        } else {
            Err(PulumiExecutionError::UnsupportedRuntime)
        }
    }

    /// The login against the backend of `auth`.
    pub fn login_options(&self, auth: &InnerStackAuthSpec) -> (options: LoginOptions)
        ensures
            options.url@ == auth.backend@,
    {
        LoginOptions { url: auth.backend.clone() }
    }

    /// The cancellation of what may still run of `pulumi_stack`.
    pub fn cancel_options(&self, pulumi_stack: &PulumiStack) -> (options: CancelOptions)
        ensures
            options.stack.deep_view() == pulumi_stack.spec.stack_name.deep_view(),
    {
        CancelOptions { stack: pulumi_stack.spec.stack_name.clone() }
    }

    /// The deployment of `pulumi_stack`: the stack's logical name, and the
    /// defaults for everything else.
    pub fn up_options(&self, pulumi_stack: &PulumiStack) -> (options: UpOptions)
        ensures
            options.stack.deep_view() == pulumi_stack.spec.stack_name.deep_view(),
            options.config is None,
            options.config_file is None,
            !options.debug,
            !options.diff,
            !options.expect_no_changes,
            options.message is None,
            options.parallel is None,
            options.refresh is None,
            !options.skip_preview,
            options.yes,
            !options.show_config,
            options.show_full_output is None,
            !options.show_reads,
            !options.show_replacement_steps,
            !options.show_sames,
    {
        let defaults = UpOptions::default();
        let options = UpOptions {
            config: defaults.config,
            config_file: defaults.config_file,
            debug: defaults.debug,
            diff: defaults.diff,
            expect_no_changes: defaults.expect_no_changes,
            message: defaults.message,
            parallel: defaults.parallel,
            refresh: defaults.refresh,
            skip_preview: defaults.skip_preview,
            stack: pulumi_stack.spec.stack_name.clone(),
            yes: defaults.yes,
            show_config: defaults.show_config,
            show_full_output: defaults.show_full_output,
            show_reads: defaults.show_reads,
            show_replacement_steps: defaults.show_replacement_steps,
            show_sames: defaults.show_sames,
        };
        options
    }
}

} // verus!
