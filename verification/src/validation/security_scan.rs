//! Vulnerability scan of the resolved dependency graph. Hosts that do not
//! run the toolchain checks, or lack the scanner or a lock file, report a
//! non-blocking skip.
use super::{
    matches_expected, not_extracted, not_extracted_message, report_view, AuditOutcome, ReportView,
    StageReport, ValidationError, ValidationStage, Workspace,
};
use crate::text::{concat, decimal, owned, u64_to_string};
use vstd::prelude::*;

verus! {

pub open spec fn scan_skipped_message() -> Seq<char> {
    "skipped: real_compile_checks feature is disabled on this host — PRJ-013 is not enforced by this deployment; enable the feature (and install cargo-audit) where a scan is required"@
}

pub open spec fn scanner_missing_message() -> Seq<char> {
    "cargo-audit not found on PATH — security scan skipped (non-blocking); install cargo-audit to enforce PRJ-013"@
}

/// "N known-vulnerable dependency/dependencies flagged by cargo-audit".
pub open spec fn vulnerable_message(count: u64) -> Seq<char> {
    decimal(count as nat) + " known-vulnerable dependenc"@ + (if count == 1 { "y"@ } else { "ies"@ })
        + " flagged by cargo-audit"@
}

/// What the security stage reports for a workspace.
pub open spec fn spec_security_stage(ws: &Workspace) -> Result<ReportView, ValidationError> {
    let name = "security_scan"@;
    match ws.project {
        None => Ok(report_view(name, false, not_extracted_message())),
        Some(_) => match ws.toolchain {
            None => Ok(report_view(name, true, scan_skipped_message())),
            Some(checks) => match checks.audit {
                AuditOutcome::ToolMissing => Ok(report_view(name, true, scanner_missing_message())),
                AuditOutcome::NoLockFile => Ok(
                    report_view(name, true, "no Cargo.lock present — security scan skipped (non-blocking)"@),
                ),
                AuditOutcome::Finished { vulnerabilities, stderr } => match vulnerabilities {
                    Some(n) => if n == 0 {
                        Ok(report_view(name, true, "no known-vulnerable crates found"@))
                    } else {
                        Ok(report_view(name, false, vulnerable_message(n)))
                    },
                    None => Ok(
                        report_view(name, false, "cargo-audit did not return parseable output: "@ + stderr@),
                    ),
                },
                AuditOutcome::CouldNotRun(e) => Ok(
                    report_view(name, false, "could not invoke cargo-audit: "@ + e@),
                ),
            },
        },
    }
}

/// What cargo-audit's JSON report `stdout` gives: `None` when it is not
/// JSON, else its `vulnerabilities.count` field when that is an unsigned
/// integer.
pub uninterp spec fn audit_json_count(stdout: Seq<char>) -> Option<Option<u64>>;

/// Parses `stdout` with `serde_json::from_str` into a `serde_json::Value`
/// and reads `["vulnerabilities"]["count"]` with `Value::as_u64`; the
/// contract names the result without restating JSON parsing.
#[verifier::external_body]
fn parse_audit_json(stdout: &str) -> (r: Option<Option<u64>>)
    ensures
        r == audit_json_count(stdout@),
{
    match serde_json::from_str::<serde_json::Value>(stdout) {
        Ok(json) => Some(json["vulnerabilities"]["count"].as_u64()),
        Err(_) => None,
    }
}

/// The vulnerability count of cargo-audit's JSON report, an absent count
/// counting as zero; `None` when the output is not JSON.
pub fn audit_vulnerabilities(stdout: &str) -> (r: Option<u64>)
    ensures
        r == match audit_json_count(stdout@) {
            Some(c) => Some(
                match c {
                    Some(n) => n,
                    None => 0,
                },
            ),
            None => None,
        },
{
    match parse_audit_json(stdout) {
        Some(c) => Some(
            match c {
                Some(n) => n,
                None => 0,
            },
        ),
        None => None,
    }
}

/// Flags known-vulnerable dependencies.
#[derive(Clone, Copy, Debug)]
pub struct SecurityScanStage;

impl ValidationStage for SecurityScanStage {
    fn name(&self) -> (n: &'static str)
        ensures
            n@ == "security_scan"@,
    {
        "security_scan"
    }

    fn validate(&self, ws: &Workspace) -> (r: Result<StageReport, ValidationError>)
        ensures
            matches_expected(r, spec_security_stage(ws)),
    {
        if ws.project.is_none() {
            return Ok(not_extracted("security_scan"));
        }
        let checks = match &ws.toolchain {
            None => {
                return Ok(
                    StageReport {
                        stage: "security_scan",
                        passed: true,
                        message: owned(
                            "skipped: real_compile_checks feature is disabled on this host — \
                              PRJ-013 is not enforced by this deployment; enable the feature \
                              (and install cargo-audit) where a scan is required",
                        ),
                    },
                );
            },
            Some(c) => c,
        };
        let (passed, message) = match &checks.audit {
            AuditOutcome::ToolMissing => (
                true,
                owned(
                    "cargo-audit not found on PATH — security scan skipped \
                              (non-blocking); install cargo-audit to enforce PRJ-013",
                ),
            ),
            AuditOutcome::NoLockFile => (
                true,
                owned("no Cargo.lock present — security scan skipped (non-blocking)"),
            ),
            AuditOutcome::Finished { vulnerabilities, stderr } => match vulnerabilities {
                Some(n) => if *n == 0 {
                    (true, owned("no known-vulnerable crates found"))
                } else {
                    let count = u64_to_string(*n);
                    let a = concat(count.as_str(), " known-vulnerable dependenc");
                    let b = if *n == 1 {
                        concat(a.as_str(), "y")
                    } else {
                        concat(a.as_str(), "ies")
                    };
                    (false, concat(b.as_str(), " flagged by cargo-audit"))
                },
                None => (
                    false,
                    concat("cargo-audit did not return parseable output: ", stderr.as_str()),
                ),
            },
            AuditOutcome::CouldNotRun(e) => (false, concat("could not invoke cargo-audit: ", e.as_str())),
        };
        Ok(StageReport { stage: "security_scan", passed, message })
    }
}

} // verus!
