//! Upload validation pipeline: a size gate, then the per-stage checks on
//! the extracted project.
//!
//! Extracting the archive and reading files is done by the caller; the
//! stages decide from what was read (`ProjectFiles`) and the pipeline
//! assembles the report.
pub mod compilation;
pub mod dependency_check;
pub mod interface_check;
pub mod security_scan;
pub mod size_limit;

use crate::text::{concat, owned};
use compilation::{spec_compilation_stage, CompilationStage};
use dependency_check::{spec_dependency_stage, DependencyCheckStage};
use interface_check::{spec_interface_stage, InterfaceCheckStage};
use security_scan::{spec_security_stage, SecurityScanStage};
use size_limit::size_message;
use vstd::prelude::*;

verus! {

/// A stage could not look at the workspace (the text is the I/O error).
#[derive(Clone, Debug)]
pub enum ValidationError {
    Io(String),
}

impl ValidationError {
    pub open spec fn spec_message(&self) -> Seq<char> {
        match self {
            ValidationError::Io(m) => "io error: "@ + m@,
        }
    }

    /// The error's message (what its `Display` would print).
    pub fn to_string(&self) -> (m: String)
        ensures
            m@ == self.spec_message(),
    {
        match self {
            ValidationError::Io(m) => concat("io error: ", m.as_str()),
        }
    }

    pub fn duplicate(&self) -> (r: Self)
        ensures
            r == *self,
    {
        match self {
            ValidationError::Io(m) => ValidationError::Io(m.clone()),
        }
    }
}

/// One stage's verdict.
#[derive(Clone, Debug)]
pub struct StageReport {
    pub stage: &'static str,
    pub passed: bool,
    pub message: String,
}

/// A stage report as plain text.
#[verifier::ext_equal]
pub struct ReportView {
    pub stage: Seq<char>,
    pub passed: bool,
    pub message: Seq<char>,
}

impl StageReport {
    pub open spec fn view(&self) -> ReportView {
        ReportView { stage: self.stage@, passed: self.passed, message: self.message@ }
    }
}

/// A report with the given stage name, verdict and message.
pub open spec fn report_view(stage: Seq<char>, passed: bool, message: Seq<char>) -> ReportView {
    ReportView { stage, passed, message }
}

/// `r` is what `expected` describes: the same report, or the same error.
pub open spec fn matches_expected(
    r: Result<StageReport, ValidationError>,
    expected: Result<ReportView, ValidationError>,
) -> bool {
    match (r, expected) {
        (Ok(a), Ok(b)) => a.view() == b,
        (Err(a), Err(b)) => a == b,
        _ => false,
    }
}

/// Message of a stage that needs the extracted archive when there is
/// none.
pub open spec fn not_extracted_message() -> Seq<char> {
    "skipped: archive was not extracted"@
}

pub fn not_extracted(stage: &'static str) -> (r: StageReport)
    ensures
        r.view() == report_view(stage@, false, not_extracted_message()),
{
    StageReport { stage, passed: false, message: owned("skipped: archive was not extracted") }
}

/// The outcome of validating an upload: whether it passed, and each stage's report.
#[derive(Clone, Debug)]
pub struct ValidationResult {
    pub passed: bool,
    pub reports: Vec<StageReport>,
}

/// What the stages read of an extracted project, found at its root (the
/// extraction directory, or its single sub-directory holding a
/// `Cargo.toml`).
#[derive(Debug)]
pub struct ProjectFiles {
    /// Text of `Cargo.toml` at the root, if readable.
    pub cargo_toml: Option<String>,
    /// Text of `Cargo.lock` at the root, if readable.
    pub cargo_lock: Option<String>,
    /// Whether `src/main.rs` exists at the root.
    pub has_main_rs: bool,
    /// Texts of the readable `.rs` files under `src/`, or the error met
    /// while listing them.
    pub sources: Result<Vec<String>, ValidationError>,
}

/// Outcome of `cargo check` on the extracted project.
#[derive(Clone, Debug)]
pub enum CompileOutcome {
    Succeeded,
    Failed { stderr: String },
    CouldNotRun(String),
    TimedOut,
}

/// Outcome of the vulnerability scan on the extracted project.
#[derive(Clone, Debug)]
pub enum AuditOutcome {
    /// `cargo-audit` is not on `PATH`.
    ToolMissing,
    /// The extraction directory has no `Cargo.lock`.
    NoLockFile,
    /// The tool ran: the vulnerability count of its JSON output (absent
    /// counts as zero), or `None` when the output was not JSON.
    Finished { vulnerabilities: Option<u64>, stderr: String },
    CouldNotRun(String),
}

/// Results of the toolchain checks, when the host runs them.
#[derive(Clone, Debug)]
pub struct ToolchainChecks {
    pub compile: CompileOutcome,
    pub audit: AuditOutcome,
}

/// What every stage after the size gate operates on.
#[derive(Debug)]
pub struct Workspace {
    pub artifact_size: u64,
    /// `None` when the archive was not extracted; otherwise the project
    /// files, or the error met while locating the project root.
    pub project: Option<Result<ProjectFiles, ValidationError>>,
    /// `None` when this host does not run the toolchain checks.
    pub toolchain: Option<ToolchainChecks>,
}

impl Workspace {
    /// Was the archive extracted?
    pub fn is_extracted(&self) -> (b: bool)
        ensures
            b == self.project.is_some(),
    {
        self.project.is_some()
    }
}

/// A check the pipeline runs on the extracted project.
pub trait ValidationStage {
    /// The stage's name in its reports.
    fn name(&self) -> &'static str;

    /// The stage's report on the workspace, or the error that kept it
    /// from looking.
    fn validate(&self, ws: &Workspace) -> Result<StageReport, ValidationError>;
}

/// Limits the pipeline enforces.
#[derive(Clone, Copy, Debug)]
pub struct PipelineConfig {
    pub max_artifact_bytes: u64,
    pub max_dependencies: usize,
    pub compile_timeout_secs: u64,
}

impl PipelineConfig {
    /// 100 MiB, 500 dependencies, 120 s.
    pub fn default() -> (c: PipelineConfig)
        ensures
            c.max_artifact_bytes == 100 * 1024 * 1024,
            c.max_dependencies == 500,
            c.compile_timeout_secs == 120,
    {
        PipelineConfig {
            max_artifact_bytes: 100 * 1024 * 1024,
            max_dependencies: 500,
            compile_timeout_secs: 120,
        }
    }
}

/// What became of the archive after the size gate.
#[derive(Debug)]
pub enum Extraction {
    /// Not extracted (the size gate failed).
    NotAttempted,
    /// Extraction failed with this I/O error text.
    Failed(String),
    /// Extracted: the project files, or the error met while locating the
    /// project root.
    Extracted(Result<ProjectFiles, ValidationError>),
}

/// Report of a stage that returned an error.
pub open spec fn stage_outcome(name: Seq<char>, r: Result<ReportView, ValidationError>) -> ReportView {
    match r {
        Ok(v) => v,
        Err(e) => report_view(name, false, "stage error: "@ + e.spec_message()),
    }
}

/// The size gate's report.
pub open spec fn size_report(config: PipelineConfig, len: u64) -> ReportView {
    report_view("size_limit"@, len <= config.max_artifact_bytes, size_message(len, config.max_artifact_bytes))
}

/// The workspace the stages see: the extraction only counts when the
/// size gate passed.
pub open spec fn spec_workspace(
    config: PipelineConfig,
    len: u64,
    extraction: Extraction,
    toolchain: Option<ToolchainChecks>,
) -> Workspace {
    Workspace {
        artifact_size: len,
        project: if len <= config.max_artifact_bytes {
            match extraction {
                Extraction::Extracted(p) => Some(p),
                _ => None,
            }
        } else {
            None
        },
        toolchain,
    }
}

/// Every report of a pipeline run, in order: the size gate, the
/// extraction failure if extraction was attempted and failed, then the
/// interface, compilation, dependency and security stages, all of which
/// run even after a failure.
pub open spec fn spec_reports(
    config: PipelineConfig,
    len: u64,
    extraction: Extraction,
    toolchain: Option<ToolchainChecks>,
) -> Seq<ReportView> {
    let ws = spec_workspace(config, len, extraction, toolchain);
    let head = if len <= config.max_artifact_bytes && extraction is Failed {
        seq![
            size_report(config, len),
            report_view(
                "extraction"@,
                false,
                "could not extract archive as a gzipped tarball: "@ + extraction->Failed_0@,
            ),
        ]
    } else {
        seq![size_report(config, len)]
    };
    head + seq![
        stage_outcome("interface_check"@, spec_interface_stage(&ws)),
        stage_outcome("compilation"@, spec_compilation_stage(config.compile_timeout_secs, &ws)),
        stage_outcome("dependency_check"@, spec_dependency_stage(config.max_dependencies, &ws)),
        stage_outcome("security_scan"@, spec_security_stage(&ws)),
    ]
}

/// All reports passed.
pub open spec fn all_passed(reports: Seq<ReportView>) -> bool {
    forall|i: int| 0 <= i < reports.len() ==> #[trigger] reports[i].passed
}

/// Size gate, then the stages on the extracted project.
#[derive(Clone, Copy, Debug)]
pub struct ValidationPipeline {
    pub config: PipelineConfig,
}

fn stage_report(name: &'static str, r: Result<StageReport, ValidationError>) -> (rep: StageReport)
    ensures
        r is Ok ==> rep == r->Ok_0,
        r is Err ==> rep.view() == report_view(name@, false, "stage error: "@ + r->Err_0.spec_message()),
{
    match r {
        Ok(rep) => rep,
        Err(e) => {
            let m = e.to_string();
            StageReport { stage: name, passed: false, message: concat("stage error: ", m.as_str()) }
        },
    }
}

impl ValidationPipeline {
    pub fn new(config: PipelineConfig) -> (p: Self)
        ensures
            p.config == config,
    {
        ValidationPipeline { config }
    }

    /// Whether an artifact of `len` bytes passes the size gate, i.e.
    /// whether it is worth extracting.
    pub fn admits_size(&self, len: u64) -> (b: bool)
        ensures
            b == (len <= self.config.max_artifact_bytes),
    {
        len <= self.config.max_artifact_bytes
    }

    /// The verdict on an artifact of `len` bytes, given what extracting it
    /// gave (ignored when the size gate fails) and the toolchain results
    /// when the host runs them. Passes exactly when every report passes.
    pub fn assemble(
        &self,
        len: u64,
        extraction: Extraction,
        toolchain: Option<ToolchainChecks>,
    ) -> (r: ValidationResult)
        ensures
            r.reports@.map_values(|x: StageReport| x.view()) == spec_reports(
                self.config,
                len,
                extraction,
                toolchain,
            ),
            r.passed == all_passed(spec_reports(self.config, len, extraction, toolchain)),
    {
        let ghost spec_extraction = extraction;
        let ghost spec_toolchain = toolchain;
        let size = size_limit::check(len, self.config.max_artifact_bytes);
        let mut passed = size.passed;
        let mut reports: Vec<StageReport> = Vec::new();
        reports.push(size);
        let project = if self.admits_size(len) {
            match extraction {
                Extraction::Extracted(p) => Some(p),
                Extraction::Failed(e) => {
                    reports.push(
                        StageReport {
                            stage: "extraction",
                            passed: false,
                            message: concat(
                                "could not extract archive as a gzipped tarball: ",
                                e.as_str(),
                            ),
                        },
                    );
                    passed = false;
                    None
                },
                Extraction::NotAttempted => None,
            }
        } else {
            None
        };
        let ws = Workspace { artifact_size: len, project, toolchain };
        assert(ws == spec_workspace(self.config, len, spec_extraction, spec_toolchain));
        let ghost head = reports@.map_values(|x: StageReport| x.view());
        proof {
            assert(head[0].passed == (len <= self.config.max_artifact_bytes));
            assert(head.len() == 1 || head.len() == 2);
            assert(head.len() == 2 ==> !head[1].passed);
            if passed {
                assert(head.len() == 1);
                assert forall|i: int| 0 <= i < head.len() implies #[trigger] head[i].passed by {
                    assert(i == 0);
                }
            } else {
                if head.len() == 1 {
                    assert(!head[0].passed);
                } else {
                    assert(!head[1].passed);
                }
            }
            assert(passed == all_passed(head));
        }

        let r1 = stage_report("interface_check", InterfaceCheckStage.validate(&ws));
        let r2 = stage_report(
            "compilation",
            CompilationStage::new(self.config.compile_timeout_secs).validate(&ws),
        );
        let r3 = stage_report(
            "dependency_check",
            DependencyCheckStage::new(self.config.max_dependencies).validate(&ws),
        );
        let r4 = stage_report("security_scan", SecurityScanStage.validate(&ws));
        passed = passed && r1.passed && r2.passed && r3.passed && r4.passed;
        let ghost tail = seq![r1.view(), r2.view(), r3.view(), r4.view()];
        reports.push(r1);
        reports.push(r2);
        reports.push(r3);
        reports.push(r4);
        let ghost all = reports@.map_values(|x: StageReport| x.view());
        assert(all =~= head + tail);
        assert(all == spec_reports(self.config, len, spec_extraction, spec_toolchain));
        proof {
            let hp = all_passed(head);
            assert(passed == (hp && tail[0].passed && tail[1].passed && tail[2].passed
                && tail[3].passed));
            assert forall|i: int| 0 <= i < head.len() implies all[i] == head[i] by {}
            assert forall|i: int| head.len() <= i < all.len() implies all[i] == tail[i - head.len()] by {}
            if passed {
                assert forall|i: int| 0 <= i < all.len() implies #[trigger] all[i].passed by {
                    if i >= head.len() {
                        assert(all[i] == tail[i - head.len()]);
                        let t = i - head.len();
                        assert(t == 0 || t == 1 || t == 2 || t == 3);
                    } else {
                        assert(all[i] == head[i]);
                        assert(head[i].passed);
                    }
                }
            } else {
                if !hp {
                    let k = choose|k: int| 0 <= k < head.len() && !(#[trigger] head[k].passed);
                    assert(all[k] == head[k]);
                    assert(!all[k].passed);
                } else {
                    let k: int = if !tail[0].passed { 0 } else if !tail[1].passed { 1 } else if !tail[2].passed { 2 } else { 3 };
                    assert(all[head.len() + k] == tail[k]);
                    assert(!all[head.len() + k].passed);
                }
            }
        }
        ValidationResult { passed, reports }
    }
}


// ---------------------------------------------------------------------
// Laws of the pipeline
// ---------------------------------------------------------------------
/// The names of the reports of a run, in order.
pub open spec fn stage_names(reports: Seq<ReportView>) -> Seq<Seq<char>> {
    reports.map_values(|r: ReportView| r.stage)
}

/// Every stage runs on every upload, even after a failure, in a fixed
/// order: the size gate, the extraction (reported only when it was
/// attempted and failed), then the interface, compilation, dependency and
/// security stages.
pub proof fn lemma_every_stage_reports(
    config: PipelineConfig,
    len: u64,
    extraction: Extraction,
    toolchain: Option<ToolchainChecks>,
)
    ensures
        stage_names(spec_reports(config, len, extraction, toolchain)) == (if len
            <= config.max_artifact_bytes && extraction is Failed {
            seq![
                "size_limit"@,
                "extraction"@,
                "interface_check"@,
                "compilation"@,
                "dependency_check"@,
                "security_scan"@,
            ]
        } else {
            seq![
                "size_limit"@,
                "interface_check"@,
                "compilation"@,
                "dependency_check"@,
                "security_scan"@,
            ]
        }),
{
    let r = spec_reports(config, len, extraction, toolchain);
    let n = stage_names(r);
    if len <= config.max_artifact_bytes && extraction is Failed {
        assert(n =~= seq![
            "size_limit"@,
            "extraction"@,
            "interface_check"@,
            "compilation"@,
            "dependency_check"@,
            "security_scan"@,
        ]);
    } else {
        assert(n =~= seq![
            "size_limit"@,
            "interface_check"@,
            "compilation"@,
            "dependency_check"@,
            "security_scan"@,
        ]);
    }
}

/// An artifact over the size limit is never accepted, and it is not
/// looked into: every stage after the size gate reports that the archive
/// was not extracted, whatever extraction and toolchain results are
/// offered.
pub proof fn lemma_oversized_never_passes(
    config: PipelineConfig,
    len: u64,
    extraction: Extraction,
    toolchain: Option<ToolchainChecks>,
)
    requires
        len > config.max_artifact_bytes,
    ensures
        !all_passed(spec_reports(config, len, extraction, toolchain)),
        !spec_reports(config, len, extraction, toolchain)[0].passed,
        forall|i: int|
            1 <= i < spec_reports(config, len, extraction, toolchain).len() ==> {
                let r = #[trigger] spec_reports(config, len, extraction, toolchain)[i];
                !r.passed && r.message == not_extracted_message()
            },
{
    let r = spec_reports(config, len, extraction, toolchain);
    assert(r.len() == 5);
    assert(!r[0].passed);
}

/// The verdict depends only on the size gate and the extracted project
/// when this host skips the toolchain checks: the compilation and
/// security stages then pass (as skipped) on every extracted archive.
pub proof fn lemma_skipped_checks_pass(
    config: PipelineConfig,
    len: u64,
    project: Result<ProjectFiles, ValidationError>,
)
    requires
        len <= config.max_artifact_bytes,
    ensures
        ({
            let r = spec_reports(config, len, Extraction::Extracted(project), None);
            &&& r.len() == 5
            &&& r[2].passed
            &&& r[4].passed
            &&& all_passed(r) == (r[1].passed && r[3].passed)
        }),
{
    let r = spec_reports(config, len, Extraction::Extracted(project), None);
    assert(r.len() == 5);
    assert(r[0].passed);
    if r[1].passed && r[3].passed {
        assert forall|i: int| 0 <= i < r.len() implies #[trigger] r[i].passed by {
            assert(i == 0 || i == 1 || i == 2 || i == 3 || i == 4);
        }
    }
}

} // verus!
