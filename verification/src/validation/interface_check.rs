//! Entry-point check: the upload must be a binary crate; whether it reads
//! its listen port from `PORT` is reported but does not fail the stage.
use super::{
    matches_expected, not_extracted, not_extracted_message, report_view, ReportView, StageReport,
    ValidationError, ValidationStage, Workspace,
};
use crate::text::{contains_seq, owned, str_contains};
use vstd::prelude::*;

verus! {

/// The source text mentions the `PORT` environment variable by name.
pub open spec fn mentions_port(src: Seq<char>) -> bool {
    contains_seq(src, "\"PORT\""@) || contains_seq(src, "'PORT'"@)
}

pub open spec fn port_detected_message() -> Seq<char> {
    "binary target found; PORT environment variable convention detected"@
}

pub open spec fn port_not_detected_message() -> Seq<char> {
    "binary target found; PORT environment variable convention not detected (non-blocking — verify the app reads its listen port from $PORT)"@
}

pub open spec fn no_manifest_message() -> Seq<char> {
    "no Cargo.toml found at the project root"@
}

pub open spec fn no_package_message() -> Seq<char> {
    "Cargo.toml is missing a [package] section"@
}

pub open spec fn no_binary_message() -> Seq<char> {
    "no binary target found (expected src/main.rs or a [[bin]] entry) — library crates aren't deployable web services"@
}

/// What the interface stage reports for a workspace.
pub open spec fn spec_interface_stage(ws: &Workspace) -> Result<ReportView, ValidationError> {
    let name = "interface_check"@;
    match ws.project {
        None => Ok(report_view(name, false, not_extracted_message())),
        Some(Err(e)) => Err(e),
        Some(Ok(files)) => match files.cargo_toml {
            None => Ok(report_view(name, false, no_manifest_message())),
            Some(toml) => if !contains_seq(toml@, "[package]"@) {
                Ok(report_view(name, false, no_package_message()))
            } else if !files.has_main_rs && !contains_seq(toml@, "[[bin]]"@) {
                Ok(report_view(name, false, no_binary_message()))
            } else {
                match files.sources {
                    Err(e) => Err(e),
                    Ok(sources) => Ok(
                        report_view(
                            name,
                            true,
                            if exists|i: int| 0 <= i < sources@.len() && mentions_port(#[trigger] sources@[i]@) {
                                port_detected_message()
                            } else {
                                port_not_detected_message()
                            },
                        ),
                    ),
                }
            },
        },
    }
}

/// Checks that the upload declares a deployable binary.
#[derive(Clone, Copy, Debug)]
pub struct InterfaceCheckStage;

impl ValidationStage for InterfaceCheckStage {
    fn name(&self) -> (n: &'static str)
        ensures
            n@ == "interface_check"@,
    {
        "interface_check"
    }

    fn validate(&self, ws: &Workspace) -> (r: Result<StageReport, ValidationError>)
        ensures
            matches_expected(r, spec_interface_stage(ws)),
    {
        let files = match &ws.project {
            None => return Ok(not_extracted("interface_check")),
            Some(Err(e)) => return Err(e.duplicate()),
            Some(Ok(files)) => files,
        };
        let toml = match &files.cargo_toml {
            None => {
                return Ok(
                    StageReport {
                        stage: "interface_check",
                        passed: false,
                        message: owned("no Cargo.toml found at the project root"),
                    },
                );
            },
            Some(t) => t,
        };
        if !str_contains(toml.as_str(), "[package]") {
            return Ok(
                StageReport {
                    stage: "interface_check",
                    passed: false,
                    message: owned("Cargo.toml is missing a [package] section"),
                },
            );
        }
        let has_bin_target = str_contains(toml.as_str(), "[[bin]]");
        if !files.has_main_rs && !has_bin_target {
            return Ok(
                StageReport {
                    stage: "interface_check",
                    passed: false,
                    message: owned(
                        "no binary target found (expected src/main.rs or a [[bin]] entry) — \
                          library crates aren't deployable web services",
                    ),
                },
            );
        }
        let sources = match &files.sources {
            Err(e) => return Err(e.duplicate()),
            Ok(s) => s,
        };
        let mut found = false;
        let n = sources.len();
        for i in 0..n
            invariant
                n == sources@.len(),
                found == exists|k: int| 0 <= k < i && mentions_port(#[trigger] sources@[k]@),
        {
            if !found {
                let src = &sources[i];
                found = str_contains(src.as_str(), "\"PORT\"") || str_contains(src.as_str(), "'PORT'");
            }
            assert(found == exists|k: int| 0 <= k < i + 1 && mentions_port(#[trigger] sources@[k]@)) by {
                if found {
                    if !exists|k: int| 0 <= k < i && mentions_port(#[trigger] sources@[k]@) {
                        assert(mentions_port(sources@[i as int]@));
                    }
                }
            }
        }
        let message = if found {
            owned("binary target found; PORT environment variable convention detected")
        } else {
            owned(
                "binary target found; PORT environment variable convention not detected \
                 (non-blocking — verify the app reads its listen port from $PORT)",
            )
        };
        Ok(StageReport { stage: "interface_check", passed: true, message })
    }
}

} // verus!
