use catalog::validation::compilation::CompilationStage;
use catalog::validation::dependency_check::{
    count_direct_dependencies, count_locked_packages, report, DependencyCheckStage,
};
use catalog::validation::interface_check::InterfaceCheckStage;
use catalog::validation::security_scan::{audit_vulnerabilities, SecurityScanStage};
use catalog::validation::size_limit::check;
use catalog::validation::{
    not_extracted, AuditOutcome, CompileOutcome, Extraction, PipelineConfig, ProjectFiles,
    ToolchainChecks, ValidationError, ValidationPipeline, ValidationStage, Workspace,
};

const MANIFEST: &str = "[package]\nname = \"svc\"\n\n[dependencies]\nserde = \"1\"\n# comment\ntokio = \"1\"\n\n[dev-dependencies]\nproptest = \"1\"\n\n[features]\ndefault = []\n";

fn files(main: bool, port: bool) -> ProjectFiles {
    let src = if port {
        "fn main() { let p = std::env::var(\"PORT\"); }".to_string()
    } else {
        "fn main() {}".to_string()
    };
    ProjectFiles {
        cargo_toml: Some(MANIFEST.to_string()),
        cargo_lock: None,
        has_main_rs: main,
        sources: Ok(vec![src]),
    }
}

fn workspace(project: Option<Result<ProjectFiles, ValidationError>>, toolchain: Option<ToolchainChecks>) -> Workspace {
    Workspace { artifact_size: 10, project, toolchain }
}

#[test]
fn stage_names() {
    assert_eq!(InterfaceCheckStage.name(), "interface_check");
    assert_eq!(CompilationStage::new(1).name(), "compilation");
    assert_eq!(DependencyCheckStage::new(1).name(), "dependency_check");
    assert_eq!(SecurityScanStage.name(), "security_scan");
}

#[test]
fn size_gate_messages() {
    let ok = check(100, 100);
    assert_eq!(ok.stage, "size_limit");
    assert!(ok.passed);
    assert_eq!(ok.message, "100 bytes (limit 100)");
    let big = check(101, 100);
    assert!(!big.passed);
    assert_eq!(big.message, "upload is 101 bytes, exceeding the 100-byte limit");
}

#[test]
fn direct_dependencies_are_counted_per_section() {
    assert_eq!(count_direct_dependencies(MANIFEST), 3);
    assert_eq!(count_direct_dependencies(""), 0);
    assert_eq!(count_direct_dependencies("[dependencies]\n  a = 1  \n[build-dependencies]\nb = 2\n[target.x.dependencies]\nc = 3\n"), 2);
    assert_eq!(count_direct_dependencies("a = 1\n[dependencies]\r\nb = 2\r\n"), 1);
}

#[test]
fn locked_packages_are_counted() {
    let lock = "version = 3\n\n[[package]]\nname = \"a\"\n\n[[package]]\nname = \"b\"\n";
    assert_eq!(count_locked_packages(lock), 2);
    assert_eq!(count_locked_packages(""), 0);
}

#[test]
fn dependency_report_message() {
    let r = report(500, 3, "Cargo.lock (resolved graph)");
    assert_eq!(r.stage, "dependency_check");
    assert!(r.passed);
    assert_eq!(r.message, "3 dependencies (limit 500) — counted from Cargo.lock (resolved graph)");
    assert!(!report(2, 3, "x").passed);
}

#[test]
fn stages_on_an_unextracted_archive() {
    let ws = workspace(None, None);
    let expected = not_extracted("interface_check");
    let r = InterfaceCheckStage.validate(&ws).unwrap();
    assert_eq!(r.message, expected.message);
    assert!(!r.passed);
    assert!(!CompilationStage::new(120).validate(&ws).unwrap().passed);
    assert!(!DependencyCheckStage::new(500).validate(&ws).unwrap().passed);
    assert!(!SecurityScanStage.validate(&ws).unwrap().passed);
}

#[test]
fn interface_needs_a_binary_target() {
    let r = InterfaceCheckStage.validate(&workspace(Some(Ok(files(false, false))), None)).unwrap();
    assert!(!r.passed);
    assert!(r.message.starts_with("no binary target found"));
    let r = InterfaceCheckStage.validate(&workspace(Some(Ok(files(true, true))), None)).unwrap();
    assert!(r.passed);
    assert_eq!(r.message, "binary target found; PORT environment variable convention detected");
    let r = InterfaceCheckStage.validate(&workspace(Some(Ok(files(true, false))), None)).unwrap();
    assert!(r.passed);
    assert!(r.message.contains("not detected"));
}

#[test]
fn interface_needs_a_manifest_with_package() {
    let mut f = files(true, false);
    f.cargo_toml = None;
    let r = InterfaceCheckStage.validate(&workspace(Some(Ok(f)), None)).unwrap();
    assert_eq!(r.message, "no Cargo.toml found at the project root");
    let mut f = files(true, false);
    f.cargo_toml = Some("[workspace]\n".to_string());
    let r = InterfaceCheckStage.validate(&workspace(Some(Ok(f)), None)).unwrap();
    assert_eq!(r.message, "Cargo.toml is missing a [package] section");
}

#[test]
fn compile_stage_follows_cargo_check() {
    let checks = |compile: CompileOutcome| ToolchainChecks { compile, audit: AuditOutcome::ToolMissing };
    let stage = CompilationStage::new(120);
    let skipped = stage.validate(&workspace(Some(Ok(files(true, false))), None)).unwrap();
    assert!(skipped.passed);
    assert!(skipped.message.starts_with("skipped:"));
    let ok = stage
        .validate(&workspace(Some(Ok(files(true, false))), Some(checks(CompileOutcome::Succeeded))))
        .unwrap();
    assert!(ok.passed);
    assert_eq!(ok.message, "cargo check succeeded");
    let late = stage
        .validate(&workspace(Some(Ok(files(true, false))), Some(checks(CompileOutcome::TimedOut))))
        .unwrap();
    assert!(!late.passed);
    assert_eq!(late.message, "cargo check did not complete within 120s");
    let bad = stage
        .validate(&workspace(
            Some(Ok(files(true, false))),
            Some(checks(CompileOutcome::Failed { stderr: "E0308".to_string() })),
        ))
        .unwrap();
    assert_eq!(bad.message, "cargo check failed:\nE0308");
}

#[test]
fn security_stage_counts_vulnerabilities() {
    let with = |audit: AuditOutcome| {
        workspace(Some(Ok(files(true, false))), Some(ToolchainChecks { compile: CompileOutcome::Succeeded, audit }))
    };
    let one = SecurityScanStage
        .validate(&with(AuditOutcome::Finished { vulnerabilities: Some(1), stderr: String::new() }))
        .unwrap();
    assert!(!one.passed);
    assert_eq!(one.message, "1 known-vulnerable dependency flagged by cargo-audit");
    let two = SecurityScanStage
        .validate(&with(AuditOutcome::Finished { vulnerabilities: Some(2), stderr: String::new() }))
        .unwrap();
    assert_eq!(two.message, "2 known-vulnerable dependencies flagged by cargo-audit");
    let none = SecurityScanStage
        .validate(&with(AuditOutcome::Finished { vulnerabilities: Some(0), stderr: String::new() }))
        .unwrap();
    assert!(none.passed);
    assert!(SecurityScanStage.validate(&with(AuditOutcome::ToolMissing)).unwrap().passed);
    assert!(SecurityScanStage.validate(&with(AuditOutcome::NoLockFile)).unwrap().passed);
    let garbled = SecurityScanStage
        .validate(&with(AuditOutcome::Finished { vulnerabilities: None, stderr: "oops".to_string() }))
        .unwrap();
    assert!(!garbled.passed);
}

#[test]
fn dependency_stage_prefers_the_lock_file() {
    let mut f = files(true, false);
    f.cargo_lock = Some("[[package]]\n[[package]]\n".to_string());
    let r = DependencyCheckStage::new(1).validate(&workspace(Some(Ok(f)), None)).unwrap();
    assert!(!r.passed);
    assert!(r.message.starts_with("2 dependencies (limit 1)"));
    let r = DependencyCheckStage::new(3).validate(&workspace(Some(Ok(files(true, false))), None)).unwrap();
    assert!(r.passed);
    assert!(r.message.contains("no Cargo.lock available"));
}

#[test]
fn default_limits() {
    let c = PipelineConfig::default();
    assert_eq!(c.max_artifact_bytes, 104_857_600);
    assert_eq!(c.max_dependencies, 500);
    assert_eq!(c.compile_timeout_secs, 120);
}

#[test]
fn oversized_upload_fails_every_stage() {
    let p = ValidationPipeline::new(PipelineConfig { max_artifact_bytes: 10, max_dependencies: 500, compile_timeout_secs: 120 });
    assert!(!p.admits_size(11));
    let r = p.assemble(11, Extraction::NotAttempted, None);
    assert!(!r.passed);
    let names: Vec<&str> = r.reports.iter().map(|x| x.stage).collect();
    assert_eq!(names, vec!["size_limit", "interface_check", "compilation", "dependency_check", "security_scan"]);
    assert!(r.reports.iter().all(|x| !x.passed));
    assert!(r.reports[1..].iter().all(|x| x.message == "skipped: archive was not extracted"));
}

#[test]
fn failed_extraction_is_reported() {
    let p = ValidationPipeline::new(PipelineConfig::default());
    let r = p.assemble(10, Extraction::Failed("bad gzip header".to_string()), None);
    assert!(!r.passed);
    assert_eq!(r.reports.len(), 6);
    assert_eq!(r.reports[1].stage, "extraction");
    assert_eq!(r.reports[1].message, "could not extract archive as a gzipped tarball: bad gzip header");
}

#[test]
fn good_upload_passes_with_skipped_toolchain_checks() {
    let p = ValidationPipeline::new(PipelineConfig::default());
    let r = p.assemble(10, Extraction::Extracted(Ok(files(true, true))), None);
    assert!(r.passed);
    assert_eq!(r.reports.len(), 5);
    assert!(r.reports.iter().all(|x| x.passed));
}

#[test]
fn stage_errors_fail_the_run() {
    let p = ValidationPipeline::new(PipelineConfig::default());
    let r = p.assemble(10, Extraction::Extracted(Err(ValidationError::Io("denied".to_string()))), None);
    assert!(!r.passed);
    assert_eq!(r.reports[1].message, "stage error: io error: denied");
    assert_eq!(ValidationError::Io("x".to_string()).to_string(), "io error: x");
}

#[test]
fn audit_report_counts() {
    assert_eq!(audit_vulnerabilities("{\"vulnerabilities\":{\"found\":true,\"count\":3}}"), Some(3));
    assert_eq!(audit_vulnerabilities("{\"database\":{}}"), Some(0));
    assert_eq!(audit_vulnerabilities("{\"vulnerabilities\":{\"count\":-1}}"), Some(0));
    assert_eq!(audit_vulnerabilities("error: no lock file"), None);
}

#[test]
fn a_features_table_adds_no_dependencies() {
    let base = "[package]\nname = \"x\"\n[dependencies]\nserde = \"1\"\ntokio = \"1\"";
    let more = format!("{base}\n[features]\ndefault = [\"a\"]\na = []\n# note\n");
    assert_eq!(count_direct_dependencies(base), 2);
    assert_eq!(count_direct_dependencies(&more), 2);
    let crlf = "[dependencies]\r\nserde = \"1\"\r\n";
    assert_eq!(count_direct_dependencies(&format!("{crlf}\n[features]\nx = []")), 1);
}
