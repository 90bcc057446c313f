use pulumi_operator::cli::PulumiCLI;
use pulumi_operator::config_provider::VarError;
use pulumi_operator::job::fetch_service::FetchError;
use pulumi_operator::job::git::service::GitError;
use pulumi_operator::job::oci::service::OciError;
use pulumi_operator::job::pulumi_execution::{
    PulumiConfig, PulumiExecution, PulumiExecutionError, Stage, StageResult, WorkerStep,
};
use pulumi_operator::kubernetes::object::{ObjectMeta, SecretData};
use pulumi_operator::kubernetes::resource::CustomKind;
use pulumi_operator::kubernetes::service::ApiFailure;
use pulumi_operator::stack::auth::inner::InnerStackAuthSpec;
use pulumi_operator::stack::auth::repository::StackAuthRepository;
use pulumi_operator::stack::crd::{
    PulumiStack, StackAuthRef, StackAuthRefType, StackSourceRef, StackSourceRefType, StackSpec,
};
use pulumi_operator::stack::source::git::repository::GitStackSourceRepository;
use pulumi_operator::stack::source::oci::repository::OciStackSourceRepository;
use std::path::Path;

fn worker(stack: Result<&str, VarError>, namespace: Result<&str, VarError>) -> PulumiExecution {
    PulumiExecution {
        pulumi_stack: stack.map(|s| s.to_string()),
        watch_namespace: namespace.map(|s| s.to_string()),
        git_stack_source_repository: GitStackSourceRepository {},
        oci_stack_source_repository: OciStackSourceRepository {},
        stack_auth_repository: StackAuthRepository {},
    }
}

fn demo_worker() -> PulumiExecution {
    worker(Ok("demo"), Ok("team-a"))
}

fn stack(source: StackSourceRefType, auth: StackAuthRefType) -> PulumiStack {
    PulumiStack {
        metadata: ObjectMeta {
            name: Some("demo".to_string()),
            namespace: Some("team-a".to_string()),
            finalizers: None,
            deletion_timestamp: None,
        },
        spec: StackSpec {
            stack_name: Some("dev".to_string()),
            source: StackSourceRef { name: "demo-source".to_string(), type_: source },
            auth: StackAuthRef { name: "demo-auth".to_string(), type_: auth },
            path: None,
            init_containers: None,
            extra_volumes: None,
            main_container: None,
            main_pod: None,
            organization: None,
        },
        status: None,
    }
}

fn auth(token: Option<&str>, backend: Option<&str>) -> InnerStackAuthSpec {
    InnerStackAuthSpec {
        backend: "file:///state".to_string(),
        backend_auth_secret: backend.map(|s| s.to_string()),
        access_token_secret: token.map(|s| s.to_string()),
    }
}

fn secret(entries: &[(&str, &[u8])]) -> SecretData {
    SecretData { entries: entries.iter().map(|(k, v)| (k.to_string(), v.to_vec())).collect() }
}

fn stages(auth: Option<&InnerStackAuthSpec>, up_code: i32) -> (Vec<Stage>, WorkerStep) {
    let worker = demo_worker();
    let mut seen = Vec::new();
    let mut step = PulumiExecution::start();
    loop {
        match step {
            WorkerStep::Run(stage) => {
                seen.push(stage);
                let result = match stage {
                    Stage::InstallRuntime => StageResult::Exited { code: 3 },
                    Stage::Login => StageResult::Exited { code: 0 },
                    Stage::CancelPrior => StageResult::Exited { code: 255 },
                    Stage::Up => StageResult::Exited { code: up_code },
                    _ => StageResult::Completed,
                };
                let known = match stage {
                    Stage::ResolveStack | Stage::ResolveAuth => None,
                    _ => auth,
                };
                step = worker.run_internal(stage, known, result);
            }
            end => return (seen, end),
        }
    }
}

#[test]
fn a_worker_without_stack_name_is_missing_configuration() {
    assert_eq!(
        worker(Err(VarError::NotPresent), Ok("team-a")).get_stack().unwrap_err(),
        PulumiExecutionError::PulumiStackNameNotDefined(VarError::NotPresent)
    );
    assert_eq!(
        worker(Err(VarError::NotUnicode), Err(VarError::NotPresent)).get_stack().unwrap_err(),
        PulumiExecutionError::PulumiStackNameNotDefined(VarError::NotUnicode)
    );
    let aborted = demo_worker().run_internal(
        Stage::ResolveStack,
        None,
        StageResult::Failed(PulumiExecutionError::PulumiStackNameNotDefined(VarError::NotPresent)),
    );
    assert_eq!(
        aborted,
        WorkerStep::Abort(PulumiExecutionError::PulumiStackNameNotDefined(VarError::NotPresent))
    );
}

#[test]
fn a_worker_without_namespace_is_missing_configuration() {
    assert_eq!(
        worker(Ok("demo"), Err(VarError::NotPresent)).get_stack().unwrap_err(),
        PulumiExecutionError::CurrentNamespaceNotDefined(VarError::NotPresent)
    );
}

#[test]
fn the_worker_looks_its_stack_up_in_the_watched_namespace() {
    let lookup = demo_worker().get_stack().unwrap();
    assert_eq!(lookup.kind, CustomKind::PulumiStack);
    assert_eq!(lookup.namespace, Some("team-a".to_string()));
    assert_eq!(lookup.name, "demo");
}

#[test]
fn the_auth_type_picks_the_repository() {
    let worker = demo_worker();
    let lookup =
        worker.get_inner_stack_auth(&stack(StackSourceRefType::Git, StackAuthRefType::Namespace));
    assert_eq!(lookup.kind, CustomKind::StackAuth);
    assert_eq!(lookup.namespace, Some("team-a".to_string()));
    assert_eq!(lookup.name, "demo-auth");
    let lookup =
        worker.get_inner_stack_auth(&stack(StackSourceRefType::Git, StackAuthRefType::Cluster));
    assert_eq!(lookup.kind, CustomKind::ClusterStackAuth);
    assert_eq!(lookup.namespace, None);
    assert_eq!(lookup.name, "demo-auth");
}

#[test]
fn the_source_type_picks_the_repository() {
    let worker = demo_worker();
    let cases = [
        (StackSourceRefType::Git, CustomKind::GitStackSource, Some("team-a")),
        (StackSourceRefType::ClusterGit, CustomKind::ClusterGitStackSource, None),
        (StackSourceRefType::Oci, CustomKind::OciStackSource, Some("team-a")),
        (StackSourceRefType::ClusterOci, CustomKind::ClusterOciStackSource, None),
    ];
    for (source, kind, namespace) in cases {
        let lookup = worker.get_inner_stack_source(&stack(source, StackAuthRefType::Namespace));
        assert_eq!(lookup.kind, kind);
        assert_eq!(lookup.namespace, namespace.map(|s| s.to_string()));
        assert_eq!(lookup.name, "demo-source");
    }
}

#[test]
fn a_cluster_oci_source_is_resolved_cluster_wide_only() {
    let lookup = demo_worker()
        .get_inner_stack_source(&stack(StackSourceRefType::ClusterOci, StackAuthRefType::Namespace));
    assert_eq!(lookup.kind, CustomKind::ClusterOciStackSource);
    assert_ne!(lookup.kind, CustomKind::OciStackSource);
    assert_eq!(lookup.namespace, None);
}

#[test]
fn cluster_wide_references_need_no_namespace() {
    let mut homeless = stack(StackSourceRefType::ClusterGit, StackAuthRefType::Cluster);
    homeless.metadata.namespace = None;
    homeless.metadata.name = None;
    let worker = demo_worker();
    let lookup = worker.get_inner_stack_source(&homeless);
    assert_eq!((lookup.kind, lookup.namespace, lookup.name.as_str()),
        (CustomKind::ClusterGitStackSource, None, "demo-source"));
    let lookup = worker.get_inner_stack_auth(&homeless);
    assert_eq!((lookup.kind, lookup.namespace, lookup.name.as_str()),
        (CustomKind::ClusterStackAuth, None, "demo-auth"));
}

#[test]
fn secrets_are_read_in_the_watched_namespace() {
    let found = demo_worker().secret_lookup("aws-secret").unwrap();
    assert_eq!(found.namespace, "team-a");
    assert_eq!(found.name, "aws-secret");
    assert_eq!(
        worker(Ok("demo"), Err(VarError::NotUnicode)).secret_lookup("aws-secret").unwrap_err(),
        PulumiExecutionError::CurrentNamespaceNotDefined(VarError::NotUnicode)
    );
}

#[test]
fn the_access_token_becomes_the_config_passphrase() {
    let export = demo_worker().access_token(&secret(&[("token", b"t0ken")])).unwrap();
    assert_eq!(export.name, "PULUMI_CONFIG_PASSPHRASE");
    assert_eq!(export.value, "t0ken");
}

#[test]
fn a_token_secret_without_a_readable_token_is_misshapen() {
    let worker = demo_worker();
    assert_eq!(
        worker.access_token(&secret(&[("password", b"x")])).unwrap_err(),
        PulumiExecutionError::SecretShapeInvalid
    );
    assert_eq!(
        worker.access_token(&secret(&[("token", &[0xff])])).unwrap_err(),
        PulumiExecutionError::SecretShapeInvalid
    );
    assert_eq!(
        worker.access_token(&secret(&[])).unwrap_err(),
        PulumiExecutionError::SecretShapeInvalid
    );
}

#[test]
fn the_backend_credentials_are_exported_under_their_own_names() {
    let data = secret(&[
        ("AWS_SECRET_ACCESS_KEY", b"shh"),
        ("AWS_ACCESS_KEY_ID", b"AKIA"),
        ("AWS_DEFAULT_REGION", b"eu-central-1"),
        ("unrelated", b"x"),
    ]);
    let exports = demo_worker().backend_credentials(&data).unwrap();
    let pairs: Vec<(&str, &str)> =
        exports.iter().map(|e| (e.name.as_str(), e.value.as_str())).collect();
    assert_eq!(
        pairs,
        vec![
            ("AWS_ACCESS_KEY_ID", "AKIA"),
            ("AWS_DEFAULT_REGION", "eu-central-1"),
            ("AWS_SECRET_ACCESS_KEY", "shh"),
        ]
    );
}

#[test]
fn backend_credentials_need_all_three_keys_as_text() {
    let worker = demo_worker();
    let all: [(&str, &[u8]); 3] = [
        ("AWS_ACCESS_KEY_ID", b"AKIA"),
        ("AWS_DEFAULT_REGION", b"eu-central-1"),
        ("AWS_SECRET_ACCESS_KEY", b"shh"),
    ];
    for missing in 0..3 {
        let mut entries = all.to_vec();
        entries.remove(missing);
        assert_eq!(
            worker.backend_credentials(&secret(&entries)).unwrap_err(),
            PulumiExecutionError::SecretShapeInvalid
        );
        let mut garbled = all.to_vec();
        garbled[missing].1 = &[0xc0, 0x80];
        assert_eq!(
            worker.backend_credentials(&secret(&garbled)).unwrap_err(),
            PulumiExecutionError::SecretShapeInvalid
        );
    }
}

#[test]
fn the_program_runs_in_the_stack_path_below_the_fetched_root() {
    let worker = demo_worker();
    let mut with_path = stack(StackSourceRefType::Git, StackAuthRefType::Namespace);
    assert_eq!(worker.working_directory("./source", &with_path), "./source");
    with_path.spec.path = Some("infra/prod".to_string());
    let expected = Path::new("./source").join("infra/prod");
    assert_eq!(worker.working_directory("./source", &with_path), expected.to_str().unwrap());
    assert_ne!(worker.working_directory("./source", &with_path), "./source");
    assert_ne!(worker.working_directory("./source", &with_path), "infra/prod");
    with_path.spec.path = Some("/abs".to_string());
    assert_eq!(worker.working_directory("./source", &with_path), "/abs");
}

#[test]
fn the_project_file_lies_in_the_working_directory() {
    let expected = Path::new("/work/app").join("Pulumi.yaml");
    assert_eq!(demo_worker().project_file("/work/app"), expected.to_str().unwrap());
}

#[test]
fn a_nodejs_program_is_prepared_with_npm_install() {
    let cli = PulumiCLI::new("/work/app");
    let line = demo_worker()
        .install_command(&cli, &PulumiConfig { runtime: "nodejs".to_string() })
        .unwrap();
    assert_eq!(line.program, "npm");
    assert_eq!(line.args, vec!["install".to_string()]);
    assert_eq!(line.workdir, "/work/app");
}

#[test]
fn other_runtimes_cannot_be_prepared() {
    let cli = PulumiCLI::new("/work/app");
    for runtime in ["python", "go", "dotnet", "", "NodeJS", "nodejs "] {
        assert_eq!(
            demo_worker()
                .install_command(&cli, &PulumiConfig { runtime: runtime.to_string() })
                .unwrap_err(),
            PulumiExecutionError::UnsupportedRuntime
        );
    }
}

#[test]
fn login_cancel_and_up_use_backend_and_stack_name() {
    let worker = demo_worker();
    let cli = PulumiCLI::new("/work/app");
    let wanted = stack(StackSourceRefType::Git, StackAuthRefType::Namespace);
    let login = cli.login(worker.login_options(&auth(None, None)));
    assert_eq!(login.args, vec!["login".to_string(), "file:///state".to_string()]);
    let cancel = cli.cancel(worker.cancel_options(&wanted));
    assert_eq!(cancel.args, vec!["cancel".to_string(), "--stack".to_string(), "dev".to_string()]);
    let up = cli.up(worker.up_options(&wanted));
    let expected: Vec<String> = ["up", "--refresh", "--stack", "dev", "--yes", "--show-full-output"]
        .iter()
        .map(|s| s.to_string())
        .collect();
    assert_eq!(up.args, expected);
}

#[test]
fn the_pipeline_without_secrets() {
    let plain = auth(None, None);
    let (seen, end) = stages(Some(&plain), 0);
    assert_eq!(
        seen,
        vec![
            Stage::ResolveStack,
            Stage::ResolveAuth,
            Stage::ResolveSource,
            Stage::FetchSource,
            Stage::ReadProject,
            Stage::InstallRuntime,
            Stage::Login,
            Stage::CancelPrior,
            Stage::Up,
        ]
    );
    assert_eq!(end, WorkerStep::Exit { code: 0 });
}

#[test]
fn the_pipeline_reads_the_token_before_the_backend_credentials() {
    let both = auth(Some("token-secret"), Some("aws-secret"));
    let (seen, _) = stages(Some(&both), 0);
    assert_eq!(
        seen[2..6],
        [Stage::ResolveSource, Stage::ReadAccessToken, Stage::ReadBackendCredentials, Stage::FetchSource]
    );
    let token_only = auth(Some("token-secret"), None);
    let (seen, _) = stages(Some(&token_only), 0);
    assert_eq!(seen[2..5], [Stage::ResolveSource, Stage::ReadAccessToken, Stage::FetchSource]);
    let backend_only = auth(None, Some("aws-secret"));
    let (seen, _) = stages(Some(&backend_only), 0);
    assert_eq!(seen[2..5], [Stage::ResolveSource, Stage::ReadBackendCredentials, Stage::FetchSource]);
}

#[test]
fn the_worker_leaves_with_the_exit_status_of_up() {
    let plain = auth(None, None);
    assert_eq!(stages(Some(&plain), 0).1, WorkerStep::Exit { code: 0 });
    assert_eq!(stages(Some(&plain), 255).1, WorkerStep::Exit { code: 255 });
    assert_eq!(stages(Some(&plain), -1).1, WorkerStep::Exit { code: -1 });
    assert_eq!(
        demo_worker().run_internal(Stage::Up, Some(&plain), StageResult::Completed),
        WorkerStep::Exit { code: 0 }
    );
}

#[test]
fn any_failed_stage_aborts_the_worker() {
    let worker = demo_worker();
    let errors = [
        PulumiExecutionError::PulumiStackNotFound(ApiFailure::Status { code: 404 }),
        PulumiExecutionError::StackSourceFetchFailed(FetchError::Git(GitError::Git)),
        PulumiExecutionError::StackSourceFetchFailed(FetchError::Git(GitError::Join)),
        PulumiExecutionError::StackSourceFetchFailed(FetchError::Git(GitError::Runtime)),
        PulumiExecutionError::StackSourceFetchFailed(FetchError::Git(GitError::Recv)),
        PulumiExecutionError::StackSourceFetchFailed(FetchError::Oci(OciError::PullFailed)),
        PulumiExecutionError::SecretShapeInvalid,
        PulumiExecutionError::UnsupportedRuntime,
        PulumiExecutionError::CurrentNamespaceNotDefined(VarError::NotPresent),
    ];
    let all = [
        Stage::ResolveStack,
        Stage::ResolveAuth,
        Stage::ResolveSource,
        Stage::ReadAccessToken,
        Stage::ReadBackendCredentials,
        Stage::FetchSource,
        Stage::ReadProject,
        Stage::InstallRuntime,
        Stage::Login,
        Stage::CancelPrior,
        Stage::Up,
    ];
    for stage in all {
        for error in errors {
            assert_eq!(
                worker.run_internal(stage, None, StageResult::Failed(error)),
                WorkerStep::Abort(error)
            );
        }
    }
}
