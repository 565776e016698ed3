//! Rejects uploads over the configured size, before anything is
//! extracted.
use super::StageReport;
use crate::text::{concat, decimal, u64_to_string};
use vstd::prelude::*;

verus! {

/// The size gate's message for an artifact of `size` bytes against
/// `limit`.
pub open spec fn size_message(size: u64, limit: u64) -> Seq<char> {
    if size <= limit {
        decimal(size as nat) + " bytes (limit "@ + decimal(limit as nat) + ")"@
    } else {
        "upload is "@ + decimal(size as nat) + " bytes, exceeding the "@ + decimal(limit as nat)
            + "-byte limit"@
    }
}

/// Passes exactly when `artifact_size <= limit`.
pub fn check(artifact_size: u64, limit: u64) -> (r: StageReport)
    ensures
        r.stage@ == "size_limit"@,
        r.passed == (artifact_size <= limit),
        r.message@ == size_message(artifact_size, limit),
{
    let size = u64_to_string(artifact_size);
    let lim = u64_to_string(limit);
    if artifact_size <= limit {
        let a = concat(size.as_str(), " bytes (limit ");
        let b = concat(a.as_str(), lim.as_str());
        let message = concat(b.as_str(), ")");
        StageReport { stage: "size_limit", passed: true, message }
    } else {
        let a = concat("upload is ", size.as_str());
        let b = concat(a.as_str(), " bytes, exceeding the ");
        let c = concat(b.as_str(), lim.as_str());
        let message = concat(c.as_str(), "-byte limit");
        StageReport { stage: "size_limit", passed: false, message }
    }
}

} // verus!
