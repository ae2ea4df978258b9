use pyoxidizer::config::OxidizedPythonInterpreterConfig;
use pyoxidizer::eval::BuildContext;
use pyoxidizer::eval::BuildHandlers;
use pyoxidizer::eval::EvaluationContext;
use pyoxidizer::targets::ArtifactDescriptor;
use pyoxidizer::targets::BuildError;
use pyoxidizer::targets::ResolvedTarget;
use pyoxidizer::targets::RunMode;

/// A scripted stand-in for the external artifact-kind collaborators,
/// recording every call it receives.
struct MockHandlers {
    build_calls: usize,
    run_calls: usize,
    dir_calls: usize,
    fail_dir: bool,
    fail_build: bool,
    supported: bool,
    run_path: Option<String>,
    last_run_path: Option<String>,
    last_output_path: Option<String>,
    last_embedded_origin: Option<String>,
}

impl MockHandlers {
    fn new() -> Self {
        MockHandlers {
            build_calls: 0,
            run_calls: 0,
            dir_calls: 0,
            fail_dir: false,
            fail_build: false,
            supported: true,
            run_path: None,
            last_run_path: None,
            last_output_path: None,
            last_embedded_origin: None,
        }
    }
}

impl BuildHandlers for MockHandlers {
    fn create_output_dir(&mut self, _path: &String) -> Result<(), String> {
        self.dir_calls += 1;
        if self.fail_dir {
            Err("directory creation refused".to_string())
        } else {
            Ok(())
        }
    }

    fn build_artifact(
        &mut self,
        descriptor: &ArtifactDescriptor,
        context: &BuildContext,
    ) -> Option<Result<ResolvedTarget, String>> {
        self.build_calls += 1;
        if !self.supported {
            return None;
        }
        if self.fail_build {
            return Some(Err("handler failed".to_string()));
        }
        if let ArtifactDescriptor::Executable(config) = descriptor {
            self.last_embedded_origin = Some(config.origin.clone());
        }
        self.last_output_path = Some(context.output_path.clone());
        Some(Ok(ResolvedTarget {
            output_paths: vec![context.output_path.clone()],
            run_mode: match &self.run_path {
                Some(p) => RunMode::Path(p.clone()),
                None => RunMode::Disabled,
            },
        }))
    }

    fn run_entrypoint(&mut self, path: &String) -> Result<(), String> {
        self.run_calls += 1;
        self.last_run_path = Some(path.clone());
        Ok(())
    }
}

fn context() -> EvaluationContext {
    EvaluationContext::new(
        "x86_64-unknown-linux-gnu".to_string(),
        "x86_64-unknown-linux-gnu".to_string(),
        false,
        "0".to_string(),
        "/build".to_string(),
        None,
    )
}

fn resolved_config(origin: &str) -> pyoxidizer::config::ResolvedOxidizedPythonInterpreterConfig {
    let mut c = OxidizedPythonInterpreterConfig::default();
    c.exe = Some(format!("{}/tool", origin));
    c.resolve(None).unwrap()
}

#[test]
fn idempotent_build_invokes_handler_once() {
    let mut ctx = context();
    let mut h = MockHandlers::new();
    ctx.register_target("t".to_string(), Some(ArtifactDescriptor::FileManifest), false)
        .unwrap();
    let first = ctx.build_resolved_target(&mut h, &"t".to_string()).unwrap();
    let second = ctx.build_resolved_target(&mut h, &"t".to_string()).unwrap();
    assert_eq!(h.build_calls, 1);
    assert_eq!(first.output_paths, second.output_paths);
    assert!(matches!(second.run_mode, RunMode::Disabled));
}

#[test]
fn unknown_target_always_fails() {
    let mut ctx = context();
    let mut h = MockHandlers::new();
    let e = ctx
        .build_resolved_target(&mut h, &"nonexistent".to_string())
        .unwrap_err();
    assert_eq!(e, BuildError::TargetNotRegistered);
    ctx.register_target("t".to_string(), Some(ArtifactDescriptor::FileManifest), false)
        .unwrap();
    ctx.build_resolved_target(&mut h, &"t".to_string()).unwrap();
    let e = ctx
        .build_resolved_target(&mut h, &"nonexistent".to_string())
        .unwrap_err();
    assert_eq!(e, BuildError::TargetNotRegistered);
    assert_eq!(h.build_calls, 1);
}

#[test]
fn failed_build_never_reaches_run_entrypoint() {
    let mut ctx = context();
    let mut h = MockHandlers::new();
    h.fail_build = true;
    ctx.register_target("t".to_string(), Some(ArtifactDescriptor::FileManifest), false)
        .unwrap();
    let build_err = ctx
        .build_resolved_target(&mut h, &"t".to_string())
        .unwrap_err();
    let run_err = ctx.run_resolved_target(&mut h, &"t".to_string()).unwrap_err();
    assert_eq!(run_err, build_err);
    assert_eq!(run_err, BuildError::BuildFailed("handler failed".to_string()));
    assert_eq!(h.run_calls, 0);
}

#[test]
fn run_launches_the_built_entrypoint() {
    let mut ctx = context();
    let mut h = MockHandlers::new();
    h.run_path = Some("/build/out/tool".to_string());
    ctx.register_target("t".to_string(), Some(ArtifactDescriptor::FileManifest), false)
        .unwrap();
    ctx.run_resolved_target(&mut h, &"t".to_string()).unwrap();
    assert_eq!(h.run_calls, 1);
    assert_eq!(h.last_run_path.as_deref(), Some("/build/out/tool"));
}

#[test]
fn artifact_without_entrypoint_is_not_runnable() {
    let mut ctx = context();
    let mut h = MockHandlers::new();
    ctx.register_target("t".to_string(), Some(ArtifactDescriptor::FileManifest), false)
        .unwrap();
    let e = ctx.run_resolved_target(&mut h, &"t".to_string()).unwrap_err();
    assert_eq!(e, BuildError::NotRunnable);
    assert_eq!(h.run_calls, 0);
}

#[test]
fn get_target_reflects_the_build_lifecycle() {
    let mut ctx = context();
    let mut h = MockHandlers::new();
    assert!(ctx.env.get_target(&"t".to_string()).is_none());
    ctx.register_target("t".to_string(), Some(ArtifactDescriptor::FileManifest), false)
        .unwrap();
    let t = ctx.env.get_target(&"t".to_string()).unwrap();
    assert!(t.resolved_value.is_some());
    assert!(t.built_target.is_none());
    ctx.build_resolved_target(&mut h, &"t".to_string()).unwrap();
    let t = ctx.env.get_target(&"t".to_string()).unwrap();
    assert!(t.built_target.is_some());
}

#[test]
fn duplicate_registration_is_rejected() {
    let mut ctx = context();
    ctx.register_target("t".to_string(), Some(ArtifactDescriptor::FileManifest), false)
        .unwrap();
    let e = ctx
        .register_target("t".to_string(), Some(ArtifactDescriptor::EmbeddedResources), false)
        .unwrap_err();
    assert_eq!(e, BuildError::DuplicateTarget);
    assert_eq!(ctx.target_names(), vec!["t".to_string()]);
}

#[test]
fn registered_but_unresolved_target_cannot_build() {
    let mut ctx = context();
    let mut h = MockHandlers::new();
    ctx.register_target("t".to_string(), None, false).unwrap();
    let e = ctx
        .build_resolved_target(&mut h, &"t".to_string())
        .unwrap_err();
    assert_eq!(e, BuildError::TargetNotResolved);
    assert_eq!(h.build_calls, 0);
}

#[test]
fn binding_a_descriptor_resolves_the_target() {
    let mut ctx = context();
    let mut h = MockHandlers::new();
    ctx.register_target("t".to_string(), None, false).unwrap();
    ctx.env.bind_target(&"t".to_string(), ArtifactDescriptor::FileManifest)
        .unwrap();
    ctx.build_resolved_target(&mut h, &"t".to_string()).unwrap();
    assert_eq!(h.build_calls, 1);
    let e = ctx
        .env
        .bind_target(&"missing".to_string(), ArtifactDescriptor::FileManifest)
        .unwrap_err();
    assert_eq!(e, BuildError::TargetNotRegistered);
}

#[test]
fn directory_failure_is_retryable() {
    let mut ctx = context();
    let mut h = MockHandlers::new();
    h.fail_dir = true;
    ctx.register_target("t".to_string(), Some(ArtifactDescriptor::FileManifest), false)
        .unwrap();
    let e = ctx
        .build_resolved_target(&mut h, &"t".to_string())
        .unwrap_err();
    assert_eq!(
        e,
        BuildError::BuildIOError("directory creation refused".to_string())
    );
    assert_eq!(h.build_calls, 0);
    h.fail_dir = false;
    ctx.build_resolved_target(&mut h, &"t".to_string()).unwrap();
    assert_eq!(h.build_calls, 1);
    assert_eq!(h.dir_calls, 2);
}

#[test]
fn unsupported_artifact_kind_is_reported() {
    let mut ctx = context();
    let mut h = MockHandlers::new();
    h.supported = false;
    ctx.register_target("t".to_string(), Some(ArtifactDescriptor::FileManifest), false)
        .unwrap();
    let e = ctx
        .build_resolved_target(&mut h, &"t".to_string())
        .unwrap_err();
    assert_eq!(e, BuildError::UnsupportedTargetType);
}

#[test]
fn output_directory_is_derived_from_build_parameters() {
    let mut ctx = EvaluationContext::new(
        "host".to_string(),
        "aarch64-apple-darwin".to_string(),
        true,
        "2".to_string(),
        "/build".to_string(),
        None,
    );
    let mut h = MockHandlers::new();
    ctx.register_target("site".to_string(), Some(ArtifactDescriptor::FileManifest), false)
        .unwrap();
    let built = ctx.build_resolved_target(&mut h, &"site".to_string()).unwrap();
    assert_eq!(
        built.output_paths,
        vec!["/build/aarch64-apple-darwin/release/site".to_string()]
    );
    assert_eq!(
        h.last_output_path.as_deref(),
        Some("/build/aarch64-apple-darwin/release/site")
    );
    let mut ctx = context();
    ctx.register_target("site".to_string(), Some(ArtifactDescriptor::FileManifest), false)
        .unwrap();
    let built = ctx.build_resolved_target(&mut h, &"site".to_string()).unwrap();
    assert_eq!(
        built.output_paths,
        vec!["/build/x86_64-unknown-linux-gnu/debug/site".to_string()]
    );
}

#[test]
fn run_target_uses_default_and_reports_missing_default() {
    let mut ctx = context();
    let mut h = MockHandlers::new();
    let e = ctx.run_target(&mut h, None).unwrap_err();
    assert_eq!(e, BuildError::NoDefaultTarget);
    h.run_path = Some("/entry".to_string());
    ctx.register_target("t".to_string(), Some(ArtifactDescriptor::FileManifest), false)
        .unwrap();
    ctx.run_target(&mut h, None).unwrap();
    assert_eq!(h.run_calls, 1);
}

#[test]
fn explicitly_marked_default_wins() {
    let mut ctx = context();
    ctx.register_target("a".to_string(), Some(ArtifactDescriptor::FileManifest), false)
        .unwrap();
    ctx.register_target("b".to_string(), Some(ArtifactDescriptor::FileManifest), true)
        .unwrap();
    assert_eq!(ctx.default_target().unwrap(), "b");
}

#[test]
fn targets_to_resolve_prefers_the_explicit_request() {
    let mut ctx = EvaluationContext::new(
        "h".to_string(),
        "t".to_string(),
        false,
        "0".to_string(),
        "/build".to_string(),
        Some(vec!["x".to_string(), "y".to_string()]),
    );
    ctx.register_target("a".to_string(), Some(ArtifactDescriptor::FileManifest), false)
        .unwrap();
    assert_eq!(
        ctx.targets_to_resolve().unwrap(),
        vec!["x".to_string(), "y".to_string()]
    );
}

#[test]
fn targets_to_resolve_falls_back_to_the_default() {
    let mut ctx = context();
    let e = ctx.targets_to_resolve().unwrap_err();
    assert_eq!(e, BuildError::NoDefaultTarget);
    ctx.register_target("a".to_string(), Some(ArtifactDescriptor::FileManifest), false)
        .unwrap();
    assert_eq!(ctx.targets_to_resolve().unwrap(), vec!["a".to_string()]);
}

#[test]
fn scenario_two_targets_and_an_executable_build() {
    let mut ctx = context();
    let mut h = MockHandlers::new();
    ctx.register_target("a".to_string(), Some(ArtifactDescriptor::FileManifest), false)
        .unwrap();
    ctx.register_target(
        "b".to_string(),
        Some(ArtifactDescriptor::Executable(resolved_config("/opt/app"))),
        false,
    )
    .unwrap();
    assert_eq!(ctx.target_names(), vec!["a".to_string(), "b".to_string()]);
    assert_eq!(ctx.default_target().unwrap(), "a");
    let built = ctx.build_resolved_target(&mut h, &"b".to_string()).unwrap();
    assert_eq!(h.build_calls, 1);
    assert_eq!(h.last_embedded_origin.as_deref(), Some("/opt/app"));
    assert_eq!(
        built.output_paths,
        vec!["/build/x86_64-unknown-linux-gnu/debug/b".to_string()]
    );
}
