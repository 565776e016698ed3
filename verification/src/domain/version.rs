//! Versions, their validation status, and their public representation.
use crate::text::owned;
use vstd::prelude::*;

verus! {

/// Where a version stands in validation.
#[derive(Clone, Copy, Debug, PartialEq, Eq, Structural)]
pub enum ValidationStatus {
    Pending,
    Validating,
    Passed,
    Failed,
}

impl ValidationStatus {
    /// The lower-case name stored in the `validation_status` column.
    pub open spec fn spec_as_str(self) -> Seq<char> {
        match self {
            ValidationStatus::Pending => "pending"@,
            ValidationStatus::Validating => "validating"@,
            ValidationStatus::Passed => "passed"@,
            ValidationStatus::Failed => "failed"@,
        }
    }

    pub fn as_str(&self) -> (s: &'static str)
        ensures
            s@ == self.spec_as_str(),
    {
        match self {
            ValidationStatus::Pending => "pending",
            ValidationStatus::Validating => "validating",
            ValidationStatus::Passed => "passed",
            ValidationStatus::Failed => "failed",
        }
    }
}

/// The status whose name is `s`, if any.
pub open spec fn spec_parse_status(s: Seq<char>) -> Result<ValidationStatus, ()> {
    if s == "pending"@ {
        Ok(ValidationStatus::Pending)
    } else if s == "validating"@ {
        Ok(ValidationStatus::Validating)
    } else if s == "passed"@ {
        Ok(ValidationStatus::Passed)
    } else if s == "failed"@ {
        Ok(ValidationStatus::Failed)
    } else {
        Err(())
    }
}

fn str_eq(a: &str, b: &str) -> (r: bool)
    ensures
        r == (a@ == b@),
{
    owned(a) == owned(b)
}

/// Parse a status from its stored name.
pub fn parse_validation_status(s: &str) -> (r: Result<ValidationStatus, ()>)
    ensures
        r == spec_parse_status(s@),
{
    if str_eq(s, "pending") {
        Ok(ValidationStatus::Pending)
    } else if str_eq(s, "validating") {
        Ok(ValidationStatus::Validating)
    } else if str_eq(s, "passed") {
        Ok(ValidationStatus::Passed)
    } else if str_eq(s, "failed") {
        Ok(ValidationStatus::Failed)
    } else {
        Err(())
    }
}

impl std::str::FromStr for ValidationStatus {
    type Err = ();

    fn from_str(s: &str) -> (r: Result<Self, ()>)
        ensures
            r == spec_parse_status(s@),
    {
        parse_validation_status(s)
    }
}

/// Reading back a stored status name gives the status.
pub proof fn lemma_status_round_trip(v: ValidationStatus)
    ensures
        spec_parse_status(v.spec_as_str()) == Ok::<ValidationStatus, ()>(v),
{
    reveal_strlit("pending");
    reveal_strlit("validating");
    reveal_strlit("passed");
    reveal_strlit("failed");
    assert("validating"@ != "pending"@) by {
        assert("validating"@.len() != "pending"@.len());
    }
    assert("passed"@ != "pending"@) by {
        assert("passed"@[1] != "pending"@[1]);
    }
    assert("passed"@ != "validating"@) by {
        assert("passed"@.len() != "validating"@.len());
    }
    assert("failed"@ != "pending"@) by {
        assert("failed"@.len() != "pending"@.len());
    }
    assert("failed"@ != "validating"@) by {
        assert("failed"@.len() != "validating"@.len());
    }
    assert("failed"@ != "passed"@) by {
        assert("failed"@[0] != "passed"@[0]);
    }
}

/// A version row. Identifiers are the 128-bit values of their UUIDs,
/// timestamps are microseconds since the Unix epoch, and
/// `validation_details` is the JSON text of the validation report.
#[derive(Clone, Debug)]
pub struct Version {
    pub id: u128,
    pub project_id: u128,
    pub version_tag: String,
    pub artifact_url: String,
    pub artifact_size: i64,
    pub checksum: String,
    pub is_yanked: bool,
    pub yank_reason: Option<String>,
    pub yanked_at: Option<i64>,
    pub yanked_by: Option<u128>,
    pub unyanked_at: Option<i64>,
    pub unyanked_by: Option<u128>,
    pub validation_status: String,
    pub validation_details: Option<String>,
    pub developer_id: u128,
    pub created_at: i64,
    pub validated_at: Option<i64>,
}

impl Version {
    /// Only a validated, non-yanked version may back a new deployment.
    pub open spec fn spec_eligible(&self) -> bool {
        !self.is_yanked && self.validation_status@ == ValidationStatus::Passed.spec_as_str()
    }

    pub fn eligible_for_new_deployment(&self) -> (b: bool)
        ensures
            b == self.spec_eligible(),
    {
        let passed = owned(ValidationStatus::Passed.as_str());
        !self.is_yanked && self.validation_status == passed
    }
}

/// Public representation of a version: the artifact location and who
/// yanked or un-yanked it stay private.
#[derive(Clone, Debug)]
pub struct VersionDto {
    pub id: u128,
    pub project_id: u128,
    pub version_tag: String,
    pub artifact_size: i64,
    pub checksum: String,
    pub is_yanked: bool,
    pub yank_reason: Option<String>,
    pub yanked_at: Option<i64>,
    pub validation_status: String,
    pub validation_details: Option<String>,
    pub developer_id: u128,
    pub created_at: i64,
    pub validated_at: Option<i64>,
}

impl VersionDto {
    pub open spec fn spec_from_version(v: Version) -> VersionDto {
        VersionDto {
            id: v.id,
            project_id: v.project_id,
            version_tag: v.version_tag,
            artifact_size: v.artifact_size,
            checksum: v.checksum,
            is_yanked: v.is_yanked,
            yank_reason: v.yank_reason,
            yanked_at: v.yanked_at,
            validation_status: v.validation_status,
            validation_details: v.validation_details,
            developer_id: v.developer_id,
            created_at: v.created_at,
            validated_at: v.validated_at,
        }
    }

    pub fn from_version(v: Version) -> (d: VersionDto)
        ensures
            d == Self::spec_from_version(v),
    {
        VersionDto {
            id: v.id,
            project_id: v.project_id,
            version_tag: v.version_tag,
            artifact_size: v.artifact_size,
            checksum: v.checksum,
            is_yanked: v.is_yanked,
            yank_reason: v.yank_reason,
            yanked_at: v.yanked_at,
            validation_status: v.validation_status,
            validation_details: v.validation_details,
            developer_id: v.developer_id,
            created_at: v.created_at,
            validated_at: v.validated_at,
        }
    }
}

impl From<Version> for VersionDto {
    fn from(v: Version) -> (d: VersionDto) {
        VersionDto::from_version(v)
    }
}

impl vstd::std_specs::convert::FromSpecImpl<Version> for VersionDto {
    open spec fn obeys_from_spec() -> bool {
        true
    }

    open spec fn from_spec(v: Version) -> VersionDto {
        VersionDto::spec_from_version(v)
    }
}

} // verus!
