//! Compile check. Hosts that do not run the toolchain checks report a
//! non-blocking skip; otherwise the verdict follows `cargo check`.
use super::{
    matches_expected, not_extracted, not_extracted_message, report_view, CompileOutcome, ReportView,
    StageReport, ValidationError, ValidationStage, Workspace,
};
use crate::text::{concat, decimal, owned, u64_to_string};
use vstd::prelude::*;

verus! {

pub open spec fn compile_skipped_message() -> Seq<char> {
    "skipped: real_compile_checks feature is disabled on this host (no build toolchain/crates.io egress assumed) — PRJ-010 is not enforced by this deployment; enable the feature where a build environment is available"@
}

/// What the compile stage reports for a workspace.
pub open spec fn spec_compilation_stage(timeout_secs: u64, ws: &Workspace) -> Result<ReportView, ValidationError> {
    let name = "compilation"@;
    match ws.project {
        None => Ok(report_view(name, false, not_extracted_message())),
        Some(_) => match ws.toolchain {
            None => Ok(report_view(name, true, compile_skipped_message())),
            Some(checks) => match checks.compile {
                CompileOutcome::Succeeded => Ok(report_view(name, true, "cargo check succeeded"@)),
                CompileOutcome::Failed { stderr } => Ok(
                    report_view(name, false, "cargo check failed:\n"@ + stderr@),
                ),
                CompileOutcome::CouldNotRun(e) => Ok(
                    report_view(name, false, "could not invoke cargo: "@ + e@),
                ),
                CompileOutcome::TimedOut => Ok(
                    report_view(
                        name,
                        false,
                        "cargo check did not complete within "@ + decimal(timeout_secs as nat) + "s"@,
                    ),
                ),
            },
        },
    }
}

/// Checks that the upload compiles, within a time limit.
#[derive(Clone, Copy, Debug)]
pub struct CompilationStage {
    pub timeout_secs: u64,
}

impl CompilationStage {
    pub fn new(timeout_secs: u64) -> (s: Self)
        ensures
            s.timeout_secs == timeout_secs,
    {
        CompilationStage { timeout_secs }
    }
}

impl ValidationStage for CompilationStage {
    fn name(&self) -> (n: &'static str)
        ensures
            n@ == "compilation"@,
    {
        "compilation"
    }

    fn validate(&self, ws: &Workspace) -> (r: Result<StageReport, ValidationError>)
        ensures
            matches_expected(r, spec_compilation_stage(self.timeout_secs, ws)),
    {
        if ws.project.is_none() {
            return Ok(not_extracted("compilation"));
        }
        match &ws.toolchain {
            None => Ok(
                StageReport {
                    stage: "compilation",
                    passed: true,
                    message: owned(
                        "skipped: real_compile_checks feature is disabled on this host \
                          (no build toolchain/crates.io egress assumed) — PRJ-010 is not \
                          enforced by this deployment; enable the feature where a build \
                          environment is available",
                    ),
                },
            ),
            Some(checks) => match &checks.compile {
                CompileOutcome::Succeeded => Ok(
                    StageReport {
                        stage: "compilation",
                        passed: true,
                        message: owned("cargo check succeeded"),
                    },
                ),
                CompileOutcome::Failed { stderr } => Ok(
                    StageReport {
                        stage: "compilation",
                        passed: false,
                        message: concat("cargo check failed:\n", stderr.as_str()),
                    },
                ),
                CompileOutcome::CouldNotRun(e) => Ok(
                    StageReport {
                        stage: "compilation",
                        passed: false,
                        message: concat("could not invoke cargo: ", e.as_str()),
                    },
                ),
                CompileOutcome::TimedOut => {
                    let secs = u64_to_string(self.timeout_secs);
                    let a = concat("cargo check did not complete within ", secs.as_str());
                    Ok(
                        StageReport {
                            stage: "compilation",
                            passed: false,
                            message: concat(a.as_str(), "s"),
                        },
                    )
                },
            },
        }
    }
}

} // verus!
