//! Version flows: upload, list, read, yank, un-yank.
use super::{
    answers_ok, db_failure, fails_internally, fails_with, ok_answer, refuse, unexpected, Answer,
    DbOp, Reply, Step, UploadError, UploadField,
};
use crate::checksum::{artifact_checksum, sha256_digest};
use crate::domain::errors::CatalogError;
use crate::domain::project::Project;
use crate::domain::version::{ValidationStatus, Version, VersionDto};
use crate::events::{CatalogEvent, VersionPublished, VersionUnyanked, VersionYanked};
use crate::models::{ApiResponse, YankRequest};
use crate::repository::project_repo::clone_opt;
use crate::repository::version_repo::{spec_ownership, NewVersion};
use crate::text::{chars_of, concat, hex_lower, owned, string_from_chars, trim, trim_chars};
use crate::validation::ValidationResult;
use vstd::prelude::*;

verus! {

// ---------------------------------------------------------------------
// Reading the upload
// ---------------------------------------------------------------------
/// What `String::from_utf8_lossy` gives for `bytes`.
pub uninterp spec fn utf8_lossy(bytes: Seq<u8>) -> Seq<char>;

/// Calls `String::from_utf8_lossy`; the contract names its result
/// (invalid sequences become U+FFFD) without restating UTF-8 decoding.
#[verifier::external_body]
fn lossy_text(bytes: &[u8]) -> (s: String)
    ensures
        s@ == utf8_lossy(bytes@),
{
    String::from_utf8_lossy(bytes).into_owned()
}

/// The version tag an upload gives: the text of its last `version_tag`
/// part, trimmed.
pub open spec fn upload_tag(fields: Seq<UploadField>) -> Option<Seq<char>>
    decreases fields.len(),
{
    if fields.len() == 0 {
        None
    } else if fields.last().name@ == "version_tag"@ {
        Some(trim(utf8_lossy(fields.last().data@)))
    } else {
        upload_tag(fields.drop_last())
    }
}

/// The artifact an upload gives: the bytes of its last `artifact` part.
pub open spec fn upload_artifact(fields: Seq<UploadField>) -> Option<Seq<u8>>
    decreases fields.len(),
{
    if fields.len() == 0 {
        None
    } else if fields.last().name@ == "artifact"@ {
        Some(fields.last().data@)
    } else {
        upload_artifact(fields.drop_last())
    }
}

fn is_named(f: &UploadField, name: &str) -> (b: bool)
    ensures
        b == (f.name@ == name@),
{
    f.name == owned(name)
}

/// The tag and the artifact of an upload; other parts are ignored.
pub fn read_upload(fields: Vec<UploadField>) -> (r: (Option<String>, Option<Vec<u8>>))
    ensures
        crate::text::opt_string_view(r.0) == upload_tag(fields@),
        match (r.1, upload_artifact(fields@)) {
            (Some(a), Some(b)) => a@ == b,
            (None, None) => true,
            _ => false,
        },
{
    let ghost all = fields@;
    let mut rest = fields;
    let mut tag: Option<String> = None;
    let mut artifact: Option<Vec<u8>> = None;
    while rest.len() > 0
        invariant
            all.len() >= rest@.len(),
            rest@ == all.take(rest@.len() as int),
            crate::text::opt_string_view(tag) == (if tag is Some {
                upload_tag(all)
            } else {
                None
            }),
            tag is None ==> upload_tag(all) == upload_tag(rest@),
            match artifact {
                Some(a) => upload_artifact(all) == Some(a@),
                None => upload_artifact(all) == upload_artifact(rest@),
            },
        decreases rest.len(),
    {
        let ghost before = rest@;
        let f = rest.pop().unwrap();
        assert(before.drop_last() =~= rest@);
        assert(rest@ =~= all.take(rest@.len() as int));
        proof {
            reveal_strlit("version_tag");
            reveal_strlit("artifact");
            assert("version_tag"@ != "artifact"@) by {
                assert("version_tag"@[0] != "artifact"@[0]);
            }
        }
        if tag.is_none() && is_named(&f, "version_tag") {
            let text = lossy_text(f.data.as_slice());
            let v = chars_of(text.as_str());
            let t = trim_chars(&v);
            tag = Some(string_from_chars(&t));
        } else if artifact.is_none() && is_named(&f, "artifact") {
            artifact = Some(f.data);
        }
    }
    (tag, artifact)
}

// ---------------------------------------------------------------------
// Uploading a version
// ---------------------------------------------------------------------
/// The answer to an upload: the stored version (201), or the validation
/// report of a rejected artifact (400).
#[derive(Debug)]
pub enum UploadAnswer {
    Published(Answer<VersionDto>),
    Rejected(ValidationResult),
}

impl UploadAnswer {
    pub open spec fn spec_status(&self) -> u16 {
        match self {
            UploadAnswer::Published(a) => a.status,
            UploadAnswer::Rejected(_) => 400,
        }
    }

    pub fn status(&self) -> (s: u16)
        ensures
            s == self.spec_status(),
    {
        match self {
            UploadAnswer::Published(a) => a.status,
            UploadAnswer::Rejected(_) => 400,
        }
    }
}

#[derive(Debug)]
pub enum UploadStage {
    Lookup,
    Read { project: Project },
    Validate { project: Project, tag: String },
    Store { project: Project, tag: String, checksum: String, report: ValidationResult },
    Insert { project: Project, tag: String, report: ValidationResult },
    Mark { project: Project, tag: String, version: Version },
    PublishProject { project: Project, tag: String, version: Version },
    SetCurrent { project: Project, tag: String, version: Version },
    Announce { version_id: u128 },
    Refetch,
    Finished,
}

/// `POST /projects/{id}/versions`: only the owner may upload. The
/// multipart body must give a non-blank `version_tag` and an `artifact`.
/// The artifact is validated before anything is stored: a rejected
/// artifact is answered with its report and leaves no trace. An accepted
/// one is stored under its checksum, recorded as a new version marked
/// passed, publishes the project if it was not yet, becomes the current
/// version if there was none, and is announced.
#[derive(Debug)]
pub struct UploadVersionFlow {
    pub project_id: u128,
    pub caller: u128,
    /// The uploaded artifact, once read.
    pub artifact: Vec<u8>,
    pub stage: UploadStage,
}

pub open spec fn tag_required_message() -> Seq<char> {
    "version_tag field is required"@
}

pub open spec fn artifact_required_message() -> Seq<char> {
    "artifact field (file) is required"@
}

/// The refusal of a request whose upload could not be read.
pub open spec fn upload_error_message(e: UploadError) -> Seq<char> {
    match e {
        UploadError::Malformed(m) => "malformed multipart body: "@ + m@,
        UploadError::Unreadable(m) => "error reading upload: "@ + m@,
    }
}

/// `step` fails with a bad request reading `m`.
pub open spec fn bad_request<A>(step: Step<A>, m: Seq<char>) -> bool {
    step matches Step::Finish(Err(CatalogError::BadRequest(x))) && x@ == m
}

impl UploadVersionFlow {
    pub fn start(project_id: u128, caller: u128) -> (r: (Self, Step<UploadAnswer>))
        ensures
            r.0.project_id == project_id,
            r.0.caller == caller,
            r.0.artifact@.len() == 0,
            r.0.stage is Lookup,
            r.1 == Step::<UploadAnswer>::Query(DbOp::GetProject(project_id)),
    {
        (
            UploadVersionFlow { project_id, caller, artifact: Vec::new(), stage: UploadStage::Lookup },
            Step::Query(DbOp::GetProject(project_id)),
        )
    }

    /// What follows the version's record: publication of the project if
    /// it is not yet published, then the current-version pointer if it has
    /// none, then the announcement.
    pub open spec fn after_record(self, project: Project, tag: String, version: Version, from_publish: bool, stage: UploadStage, step: Step<UploadAnswer>) -> bool {
        if !from_publish && !project.is_published {
            stage == UploadStage::PublishProject { project, tag, version } && step
                == Step::<UploadAnswer>::Query(DbOp::PublishProject(self.project_id))
        } else if project.current_version_id is None {
            stage == UploadStage::SetCurrent { project, tag, version } && step
                == Step::<UploadAnswer>::Query(
                DbOp::SetCurrentVersion { project_id: self.project_id, version_id: version.id },
            )
        } else {
            self.announce(tag, version, stage, step)
        }
    }

    /// Announce the new version.
    pub open spec fn announce(self, tag: String, version: Version, stage: UploadStage, step: Step<UploadAnswer>) -> bool {
        stage == UploadStage::Announce { version_id: version.id } && step == Step::<UploadAnswer>::Publish(
            CatalogEvent::Published(
                VersionPublished {
                    project_id: self.project_id,
                    version_id: version.id,
                    version_tag: tag,
                    developer_id: self.caller,
                },
            ),
        )
    }

    pub open spec fn next(self, reply: Reply, new: Self, step: Step<UploadAnswer>) -> bool {
        &&& new.project_id == self.project_id
        &&& new.caller == self.caller
        &&& match (self.stage, reply) {
            (UploadStage::Lookup, Reply::Project(None)) => new.stage is Finished && fails_with(
                step,
                CatalogError::ProjectNotFound,
            ),
            (UploadStage::Lookup, Reply::Project(Some(p))) => if p.owner_id != self.caller {
                new.stage is Finished && fails_with(step, CatalogError::NotOwner)
            } else {
                new.stage == UploadStage::Read { project: p } && step is ReadUpload
                    && new.artifact == self.artifact
            },
            (UploadStage::Read { project }, Reply::Upload(fields)) => match upload_tag(fields@) {
                None => new.stage is Finished && bad_request(step, tag_required_message()),
                Some(t) => if t.len() == 0 {
                    new.stage is Finished && bad_request(step, tag_required_message())
                } else {
                    match upload_artifact(fields@) {
                        None => new.stage is Finished && bad_request(
                            step,
                            artifact_required_message(),
                        ),
                        Some(a) => new.stage matches UploadStage::Validate { project: p2, tag }
                            && p2 == project && tag@ == t && new.artifact@ == a && step is Validate,
                    }
                }
            },
            (UploadStage::Read { project }, Reply::UploadFailed(e)) => new.stage is Finished
                && bad_request(step, upload_error_message(e)),
            (UploadStage::Validate { project, tag }, Reply::Validated(report)) => new.artifact
                == self.artifact && if !report.passed {
                new.stage is Finished && step == Step::<UploadAnswer>::Finish(
                    Ok(UploadAnswer::Rejected(report)),
                )
            } else {
                new.stage matches UploadStage::Store { project: p2, tag: t2, checksum, report: r2 }
                    && p2 == project && t2 == tag && r2 == report && checksum@ == hex_lower(
                    sha256_digest(self.artifact@),
                ) && step == Step::<UploadAnswer>::StoreArtifact { key: checksum }
            },
            (UploadStage::Store { project, tag, checksum, report }, Reply::Stored(url)) =>
                new.artifact == self.artifact && new.stage == UploadStage::Insert {
                    project,
                    tag,
                    report,
                } && step == Step::<UploadAnswer>::Query(
                    DbOp::InsertVersion(
                        NewVersion {
                            project_id: self.project_id,
                            version_tag: tag,
                            artifact_url: url,
                            artifact_size: self.artifact@.len() as i64,
                            checksum,
                            developer_id: self.caller,
                        },
                    ),
                ),
            (UploadStage::Store { .. }, Reply::StoreFailed(e)) => new.stage is Finished && (
            step matches Step::Finish(Err(CatalogError::Internal(m))) && m@
                == "failed to store artifact: "@ + e@),
            (UploadStage::Insert { project, tag, report }, Reply::Version(Some(v))) =>
                new.stage == UploadStage::Mark { project, tag, version: v } && step
                    == Step::<UploadAnswer>::Query(
                    DbOp::MarkValidated { version_id: v.id, status: ValidationStatus::Passed, report },
                ),
            (UploadStage::Insert { .. }, Reply::UniqueViolation(_)) => new.stage is Finished
                && fails_with(step, CatalogError::VersionTagTaken),
            (UploadStage::Mark { project, tag, version }, Reply::Done) => self.after_record(
                project,
                tag,
                version,
                false,
                new.stage,
                step,
            ),
            (UploadStage::PublishProject { project, tag, version }, Reply::Done) => self.after_record(
                project,
                tag,
                version,
                true,
                new.stage,
                step,
            ),
            (UploadStage::SetCurrent { project, tag, version }, Reply::Done) => self.announce(
                tag,
                version,
                new.stage,
                step,
            ),
            (UploadStage::Announce { version_id }, Reply::Published) => new.stage is Refetch && step
                == Step::<UploadAnswer>::Query(DbOp::GetVersion(version_id)),
            (UploadStage::Refetch, Reply::Version(None)) => new.stage is Finished && fails_with(
                step,
                CatalogError::VersionNotFound,
            ),
            (UploadStage::Refetch, Reply::Version(Some(v))) => new.stage is Finished && (
            step matches Step::Finish(Ok(UploadAnswer::Published(a))) && a.status == 201
                && a.body.success && a.body.data == Some(VersionDto::spec_from_version(v))
                && a.body.message@ == "Version published"@),
            (UploadStage::Finished, _) => new.stage is Finished && fails_internally(step),
            (_, Reply::Failed(m)) => new.stage is Finished && fails_with(
                step,
                CatalogError::Database(m),
            ),
            _ => new.stage is Finished && fails_internally(step),
        }
    }

    fn make_announce(&self, tag: String, version: Version) -> (r: (UploadStage, Step<UploadAnswer>))
        ensures
            self.announce(tag, version, r.0, r.1),
    {
        let id = version.id;
        (
            UploadStage::Announce { version_id: id },
            Step::Publish(
                CatalogEvent::Published(
                    VersionPublished {
                        project_id: self.project_id,
                        version_id: id,
                        version_tag: tag,
                        developer_id: self.caller,
                    },
                ),
            ),
        )
    }

    fn make_after_record(&self, project: Project, tag: String, version: Version, from_publish: bool) -> (r: (UploadStage, Step<UploadAnswer>))
        ensures
            self.after_record(project, tag, version, from_publish, r.0, r.1),
    {
        if !from_publish && !project.is_published {
            (UploadStage::PublishProject { project, tag, version }, Step::Query(DbOp::PublishProject(self.project_id)))
        } else if project.current_version_id.is_none() {
            let vid = version.id;
            (
                UploadStage::SetCurrent { project, tag, version },
                Step::Query(DbOp::SetCurrentVersion { project_id: self.project_id, version_id: vid }),
            )
        } else {
            self.make_announce(tag, version)
        }
    }

    /// Continue with the outcome of the last step.
    pub fn resume(self, reply: Reply) -> (r: (Self, Step<UploadAnswer>))
        ensures
            self.next(reply, r.0, r.1),
    {
        let stage = self.stage;
        let shell = UploadVersionFlow { stage: UploadStage::Finished, ..self };
        match (stage, reply) {
            (UploadStage::Lookup, Reply::Project(None)) => (shell, refuse(CatalogError::ProjectNotFound)),
            (UploadStage::Lookup, Reply::Project(Some(p))) => if p.owner_id != shell.caller {
                (shell, refuse(CatalogError::NotOwner))
            } else {
                (UploadVersionFlow { stage: UploadStage::Read { project: p }, ..shell }, Step::ReadUpload)
            },
            (UploadStage::Read { project }, Reply::Upload(fields)) => {
                let (tag, artifact) = read_upload(fields);
                match tag {
                    None => (shell, refuse(CatalogError::BadRequest(owned("version_tag field is required")))),
                    Some(t) => if t.as_str().is_empty() {
                        (shell, refuse(CatalogError::BadRequest(owned("version_tag field is required"))))
                    } else {
                        match artifact {
                            None => (
                                shell,
                                refuse(CatalogError::BadRequest(owned("artifact field (file) is required"))),
                            ),
                            Some(a) => (
                                UploadVersionFlow {
                                    artifact: a,
                                    stage: UploadStage::Validate { project, tag: t },
                                    ..shell
                                },
                                Step::Validate,
                            ),
                        }
                    },
                }
            },
            (UploadStage::Read { project }, Reply::UploadFailed(e)) => {
                let m = match e {
                    UploadError::Malformed(m) => concat("malformed multipart body: ", m.as_str()),
                    UploadError::Unreadable(m) => concat("error reading upload: ", m.as_str()),
                };
                (shell, refuse(CatalogError::BadRequest(m)))
            },
            (UploadStage::Validate { project, tag }, Reply::Validated(report)) => if !report.passed {
                (shell, Step::Finish(Ok(UploadAnswer::Rejected(report))))
            } else {
                let checksum = artifact_checksum(shell.artifact.as_slice());
                let key = checksum.clone();
                (
                    UploadVersionFlow { stage: UploadStage::Store { project, tag, checksum, report }, ..shell },
                    Step::StoreArtifact { key },
                )
            },
            (UploadStage::Store { project, tag, checksum, report }, Reply::Stored(url)) => {
                let nv = NewVersion {
                    project_id: shell.project_id,
                    version_tag: tag.clone(),
                    artifact_url: url,
                    artifact_size: shell.artifact.len() as i64,
                    checksum,
                    developer_id: shell.caller,
                };
                (
                    UploadVersionFlow { stage: UploadStage::Insert { project, tag, report }, ..shell },
                    Step::Query(DbOp::InsertVersion(nv)),
                )
            },
            (UploadStage::Store { .. }, Reply::StoreFailed(e)) => (
                shell,
                refuse(CatalogError::Internal(concat("failed to store artifact: ", e.as_str()))),
            ),
            (UploadStage::Insert { project, tag, report }, Reply::Version(Some(v))) => {
                let vid = v.id;
                (
                    UploadVersionFlow { stage: UploadStage::Mark { project, tag, version: v }, ..shell },
                    Step::Query(
                        DbOp::MarkValidated { version_id: vid, status: ValidationStatus::Passed, report },
                    ),
                )
            },
            (UploadStage::Insert { .. }, Reply::UniqueViolation(_)) => (
                shell,
                refuse(CatalogError::VersionTagTaken),
            ),
            (UploadStage::Mark { project, tag, version }, Reply::Done) => {
                let (st, s) = shell.make_after_record(project, tag, version, false);
                (UploadVersionFlow { stage: st, ..shell }, s)
            },
            (UploadStage::PublishProject { project, tag, version }, Reply::Done) => {
                let (st, s) = shell.make_after_record(project, tag, version, true);
                (UploadVersionFlow { stage: st, ..shell }, s)
            },
            (UploadStage::SetCurrent { project, tag, version }, Reply::Done) => {
                let (st, s) = shell.make_announce(tag, version);
                (UploadVersionFlow { stage: st, ..shell }, s)
            },
            (UploadStage::Announce { version_id }, Reply::Published) => (
                UploadVersionFlow { stage: UploadStage::Refetch, ..shell },
                Step::Query(DbOp::GetVersion(version_id)),
            ),
            (UploadStage::Refetch, Reply::Version(None)) => (shell, refuse(CatalogError::VersionNotFound)),
            (UploadStage::Refetch, Reply::Version(Some(v))) => {
                let dto = VersionDto::from_version(v);
                (
                    shell,
                    Step::Finish(
                        Ok(
                            UploadAnswer::Published(
                                Answer { status: 201, body: ApiResponse::success(dto, "Version published") },
                            ),
                        ),
                    ),
                )
            },
            (UploadStage::Finished, _) => (shell, unexpected()),
            (_, Reply::Failed(m)) => (shell, db_failure(m)),
            _ => (shell, unexpected()),
        }
    }
}

// ---------------------------------------------------------------------
// Listing versions
// ---------------------------------------------------------------------
/// The public form of each version, in order.
pub open spec fn dtos_of(vs: Seq<Version>) -> Seq<VersionDto> {
    vs.map_values(|v: Version| VersionDto::spec_from_version(v))
}

/// The public form of each version, in order.
pub fn versions_to_dtos(vs: Vec<Version>) -> (r: Vec<VersionDto>)
    ensures
        r@ == dtos_of(vs@),
{
    let ghost all = vs@;
    let mut rest = vs;
    let mut rev: Vec<VersionDto> = Vec::new();
    while rest.len() > 0
        invariant
            rest@.len() + rev@.len() == all.len(),
            rest@ == all.take(rest@.len() as int),
            forall|k: int| 0 <= k < rev@.len() ==> #[trigger] rev@[k] == VersionDto::spec_from_version(
                all[all.len() - 1 - k],
            ),
        decreases rest.len(),
    {
        let ghost before = rest@;
        let v = rest.pop().unwrap();
        assert(before.drop_last() =~= rest@);
        assert(rest@ =~= all.take(rest@.len() as int));
        assert(v == all[rest@.len() as int]);
        rev.push(VersionDto::from_version(v));
    }
    let mut r: Vec<VersionDto> = Vec::new();
    let n = rev.len();
    while rev.len() > 0
        invariant
            rev@.len() + r@.len() == n,
            n == all.len(),
            forall|k: int| 0 <= k < rev@.len() ==> #[trigger] rev@[k] == VersionDto::spec_from_version(
                all[all.len() - 1 - k],
            ),
            forall|k: int| 0 <= k < r@.len() ==> #[trigger] r@[k] == VersionDto::spec_from_version(all[k]),
        decreases rev.len(),
    {
        let d = rev.pop().unwrap();
        r.push(d);
    }
    assert(r@ =~= dtos_of(all));
    r
}

#[derive(Clone, Copy, Debug)]
pub enum ListStage {
    List,
    Finished,
}

/// `GET /projects/{id}/versions`: the project's versions, newest first.
#[derive(Clone, Copy, Debug)]
pub struct ListVersionsFlow {
    pub project_id: u128,
    pub stage: ListStage,
}

impl ListVersionsFlow {
    pub fn start(project_id: u128) -> (r: (Self, Step<Answer<Vec<VersionDto>>>))
        ensures
            r.0.project_id == project_id,
            r.0.stage is List,
            r.1 == Step::<Answer<Vec<VersionDto>>>::Query(DbOp::ListVersions(project_id)),
    {
        (ListVersionsFlow { project_id, stage: ListStage::List }, Step::Query(DbOp::ListVersions(project_id)))
    }

    pub open spec fn next(self, reply: Reply, new: Self, step: Step<Answer<Vec<VersionDto>>>) -> bool {
        &&& new.project_id == self.project_id
        &&& new.stage is Finished
        &&& match (self.stage, reply) {
            (ListStage::List, Reply::Versions(vs)) => step matches Step::Finish(Ok(a)) && a.status
                == 200 && a.body.success && a.body.message@ == "OK"@ && (a.body.data matches Some(d)
                && d@ == dtos_of(vs@)),
            (ListStage::List, Reply::Failed(m)) => fails_with(step, CatalogError::Database(m)),
            _ => fails_internally(step),
        }
    }

    pub fn resume(self, reply: Reply) -> (r: (Self, Step<Answer<Vec<VersionDto>>>))
        ensures
            self.next(reply, r.0, r.1),
    {
        let done = ListVersionsFlow { stage: ListStage::Finished, ..self };
        match (self.stage, reply) {
            (ListStage::List, Reply::Versions(vs)) => (done, ok_answer(200, versions_to_dtos(vs), "OK")),
            (ListStage::List, Reply::Failed(m)) => (done, db_failure(m)),
            _ => (done, unexpected()),
        }
    }
}

// ---------------------------------------------------------------------
// Reading a version
// ---------------------------------------------------------------------
/// A version's public form with whether it may back a new deployment.
#[derive(Clone, Debug)]
pub struct VersionDetail {
    pub version: VersionDto,
    pub eligible_for_new_deployment: bool,
}

#[derive(Clone, Copy, Debug)]
pub enum GetVersionStage {
    Lookup,
    Finished,
}

/// `GET /projects/{id}/versions/{version_id}`: a version of this project
/// (any other is `VersionNotFound`), with its eligibility.
#[derive(Clone, Copy, Debug)]
pub struct GetVersionFlow {
    pub project_id: u128,
    pub version_id: u128,
    pub stage: GetVersionStage,
}

impl GetVersionFlow {
    pub fn start(project_id: u128, version_id: u128) -> (r: (Self, Step<Answer<VersionDetail>>))
        ensures
            r.0.project_id == project_id,
            r.0.version_id == version_id,
            r.0.stage is Lookup,
            r.1 == Step::<Answer<VersionDetail>>::Query(DbOp::GetVersion(version_id)),
    {
        (
            GetVersionFlow { project_id, version_id, stage: GetVersionStage::Lookup },
            Step::Query(DbOp::GetVersion(version_id)),
        )
    }

    pub open spec fn next(self, reply: Reply, new: Self, step: Step<Answer<VersionDetail>>) -> bool {
        &&& new.project_id == self.project_id
        &&& new.version_id == self.version_id
        &&& new.stage is Finished
        &&& match (self.stage, reply) {
            (GetVersionStage::Lookup, Reply::Version(None)) => fails_with(step, CatalogError::VersionNotFound),
            (GetVersionStage::Lookup, Reply::Version(Some(v))) => if v.project_id != self.project_id {
                fails_with(step, CatalogError::VersionNotFound)
            } else {
                answers_ok(
                    step,
                    200,
                    VersionDetail {
                        version: VersionDto::spec_from_version(v),
                        eligible_for_new_deployment: v.spec_eligible(),
                    },
                    "OK"@,
                )
            },
            (GetVersionStage::Lookup, Reply::Failed(m)) => fails_with(step, CatalogError::Database(m)),
            _ => fails_internally(step),
        }
    }

    pub fn resume(self, reply: Reply) -> (r: (Self, Step<Answer<VersionDetail>>))
        ensures
            self.next(reply, r.0, r.1),
    {
        let done = GetVersionFlow { stage: GetVersionStage::Finished, ..self };
        match (self.stage, reply) {
            (GetVersionStage::Lookup, Reply::Version(None)) => (done, refuse(CatalogError::VersionNotFound)),
            (GetVersionStage::Lookup, Reply::Version(Some(v))) => if v.project_id != self.project_id {
                (done, refuse(CatalogError::VersionNotFound))
            } else {
                let eligible = v.eligible_for_new_deployment();
                let detail = VersionDetail {
                    version: VersionDto::from_version(v),
                    eligible_for_new_deployment: eligible,
                };
                (done, ok_answer(200, detail, "OK"))
            },
            (GetVersionStage::Lookup, Reply::Failed(m)) => (done, db_failure(m)),
            _ => (done, unexpected()),
        }
    }
}

// ---------------------------------------------------------------------
// Yanking and un-yanking
// ---------------------------------------------------------------------
/// Which way the yank state is changed.
#[derive(Clone, Copy, Debug, PartialEq, Eq, Structural)]
pub enum YankDirection {
    Yank,
    Unyank,
}

#[derive(Clone, Debug)]
pub enum YankStage {
    /// The version must belong to the project in the path.
    Check,
    /// The caller must own the version's project.
    Owner,
    /// The version must be in the state the change starts from.
    Recheck,
    Update,
    Refetch,
    Announce { version: Version },
    Finished,
}

/// `POST .../versions/{version_id}/yank` and `.../unyank`. The version
/// must belong to the project in the path (checked before anything
/// changes), its project's owner must be the caller, and it must be
/// unyanked (to yank) or yanked (to un-yank). The change is announced and
/// the answer is the changed version.
#[derive(Clone, Debug)]
pub struct YankFlow {
    pub direction: YankDirection,
    pub project_id: u128,
    pub version_id: u128,
    pub caller: u128,
    pub reason: Option<String>,
    pub stage: YankStage,
}

impl YankFlow {
    pub fn yank(project_id: u128, version_id: u128, caller: u128, req: YankRequest) -> (r: (
        Self,
        Step<Answer<VersionDto>>,
    ))
        ensures
            r.0.direction == YankDirection::Yank,
            r.0.project_id == project_id,
            r.0.version_id == version_id,
            r.0.caller == caller,
            r.0.reason == req.reason,
            r.0.stage is Check,
            r.1 == Step::<Answer<VersionDto>>::Query(DbOp::GetVersion(version_id)),
    {
        (
            YankFlow {
                direction: YankDirection::Yank,
                project_id,
                version_id,
                caller,
                reason: req.reason,
                stage: YankStage::Check,
            },
            Step::Query(DbOp::GetVersion(version_id)),
        )
    }

    pub fn unyank(project_id: u128, version_id: u128, caller: u128) -> (r: (
        Self,
        Step<Answer<VersionDto>>,
    ))
        ensures
            r.0.direction == YankDirection::Unyank,
            r.0.project_id == project_id,
            r.0.version_id == version_id,
            r.0.caller == caller,
            r.0.reason is None,
            r.0.stage is Check,
            r.1 == Step::<Answer<VersionDto>>::Query(DbOp::GetVersion(version_id)),
    {
        (
            YankFlow {
                direction: YankDirection::Unyank,
                project_id,
                version_id,
                caller,
                reason: None,
                stage: YankStage::Check,
            },
            Step::Query(DbOp::GetVersion(version_id)),
        )
    }

    pub open spec fn same_inputs(self, other: Self) -> bool {
        &&& other.direction == self.direction
        &&& other.project_id == self.project_id
        &&& other.version_id == self.version_id
        &&& other.caller == self.caller
        &&& other.reason == self.reason
    }

    /// The refusal of a version not in the state the change starts from.
    pub open spec fn wrong_state(self) -> CatalogError {
        match self.direction {
            YankDirection::Yank => CatalogError::AlreadyYanked,
            YankDirection::Unyank => CatalogError::NotYanked,
        }
    }

    /// The version is in the state the change starts from.
    pub open spec fn changeable(self, v: Version) -> bool {
        match self.direction {
            YankDirection::Yank => !v.is_yanked,
            YankDirection::Unyank => v.is_yanked,
        }
    }

    /// The change itself.
    pub open spec fn change_op(self) -> DbOp {
        match self.direction {
            YankDirection::Yank => DbOp::Yank {
                version_id: self.version_id,
                reason: self.reason,
                yanked_by: self.caller,
            },
            YankDirection::Unyank => DbOp::Unyank { version_id: self.version_id, unyanked_by: self.caller },
        }
    }

    /// The announcement of the changed version.
    pub open spec fn event(self, v: Version) -> CatalogEvent {
        match self.direction {
            YankDirection::Yank => CatalogEvent::Yanked(
                VersionYanked {
                    project_id: self.project_id,
                    version_id: v.id,
                    version_tag: v.version_tag,
                    developer_id: self.caller,
                    reason: v.yank_reason,
                },
            ),
            YankDirection::Unyank => CatalogEvent::Unyanked(
                VersionUnyanked {
                    project_id: self.project_id,
                    version_id: v.id,
                    version_tag: v.version_tag,
                    developer_id: self.caller,
                },
            ),
        }
    }

    pub open spec fn done_message(self) -> Seq<char> {
        match self.direction {
            YankDirection::Yank => "Version yanked"@,
            YankDirection::Unyank => "Version un-yanked"@,
        }
    }

    pub open spec fn next(self, reply: Reply, new: Self, step: Step<Answer<VersionDto>>) -> bool {
        &&& self.same_inputs(new)
        &&& match (self.stage, reply) {
            (YankStage::Check, Reply::Version(None)) => new.stage is Finished && fails_with(
                step,
                CatalogError::VersionNotFound,
            ),
            (YankStage::Check, Reply::Version(Some(v))) => if v.project_id != self.project_id {
                new.stage is Finished && fails_with(step, CatalogError::VersionNotFound)
            } else {
                new.stage is Owner && step == Step::<Answer<VersionDto>>::Query(
                    DbOp::VersionOwner(self.version_id),
                )
            },
            (YankStage::Owner, Reply::Owner(o)) => match spec_ownership(o, self.caller) {
                Err(e) => new.stage is Finished && fails_with(step, e),
                Ok(()) => new.stage is Recheck && step == Step::<Answer<VersionDto>>::Query(
                    DbOp::GetVersion(self.version_id),
                ),
            },
            (YankStage::Recheck, Reply::Version(None)) => new.stage is Finished && fails_with(
                step,
                CatalogError::VersionNotFound,
            ),
            (YankStage::Recheck, Reply::Version(Some(v))) => if !self.changeable(v) {
                new.stage is Finished && fails_with(step, self.wrong_state())
            } else {
                new.stage is Update && step == Step::<Answer<VersionDto>>::Query(self.change_op())
            },
            (YankStage::Update, Reply::Done) => new.stage is Refetch && step
                == Step::<Answer<VersionDto>>::Query(DbOp::GetVersion(self.version_id)),
            (YankStage::Refetch, Reply::Version(None)) => new.stage is Finished && fails_with(
                step,
                CatalogError::VersionNotFound,
            ),
            (YankStage::Refetch, Reply::Version(Some(v))) => new.stage == YankStage::Announce {
                version: v,
            } && step == Step::<Answer<VersionDto>>::Publish(self.event(v)),
            (YankStage::Announce { version }, Reply::Published) => new.stage is Finished
                && answers_ok(step, 200, VersionDto::spec_from_version(version), self.done_message()),
            (YankStage::Finished, _) => new.stage is Finished && fails_internally(step),
            (_, Reply::Failed(m)) => new.stage is Finished && fails_with(
                step,
                CatalogError::Database(m),
            ),
            _ => new.stage is Finished && fails_internally(step),
        }
    }

    fn make_change(&self) -> (op: DbOp)
        ensures
            op == self.change_op(),
    {
        match self.direction {
            YankDirection::Yank => DbOp::Yank {
                version_id: self.version_id,
                reason: clone_opt(&self.reason),
                yanked_by: self.caller,
            },
            YankDirection::Unyank => DbOp::Unyank { version_id: self.version_id, unyanked_by: self.caller },
        }
    }

    fn make_event(&self, v: &Version) -> (e: CatalogEvent)
        ensures
            e == self.event(*v),
    {
        match self.direction {
            YankDirection::Yank => CatalogEvent::Yanked(
                VersionYanked {
                    project_id: self.project_id,
                    version_id: v.id,
                    version_tag: v.version_tag.clone(),
                    developer_id: self.caller,
                    reason: clone_opt(&v.yank_reason),
                },
            ),
            YankDirection::Unyank => CatalogEvent::Unyanked(
                VersionUnyanked {
                    project_id: self.project_id,
                    version_id: v.id,
                    version_tag: v.version_tag.clone(),
                    developer_id: self.caller,
                },
            ),
        }
    }

    /// Continue with the outcome of the last step.
    pub fn resume(self, reply: Reply) -> (r: (Self, Step<Answer<VersionDto>>))
        ensures
            self.next(reply, r.0, r.1),
    {
        let stage = self.stage;
        let shell = YankFlow { stage: YankStage::Finished, ..self };
        match (stage, reply) {
            (YankStage::Check, Reply::Version(None)) => (shell, refuse(CatalogError::VersionNotFound)),
            (YankStage::Check, Reply::Version(Some(v))) => if v.project_id != shell.project_id {
                (shell, refuse(CatalogError::VersionNotFound))
            } else {
                let vid = shell.version_id;
                (YankFlow { stage: YankStage::Owner, ..shell }, Step::Query(DbOp::VersionOwner(vid)))
            },
            (YankStage::Owner, Reply::Owner(o)) => match crate::repository::version_repo::check_ownership(
                o,
                shell.caller,
            ) {
                Err(e) => (shell, refuse(e)),
                Ok(()) => {
                    let vid = shell.version_id;
                    (YankFlow { stage: YankStage::Recheck, ..shell }, Step::Query(DbOp::GetVersion(vid)))
                },
            },
            (YankStage::Recheck, Reply::Version(None)) => (shell, refuse(CatalogError::VersionNotFound)),
            (YankStage::Recheck, Reply::Version(Some(v))) => {
                let ok = match shell.direction {
                    YankDirection::Yank => crate::repository::version_repo::check_yankable(&v),
                    YankDirection::Unyank => crate::repository::version_repo::check_unyankable(&v),
                };
                match ok {
                    Err(e) => (shell, refuse(e)),
                    Ok(()) => {
                        let op = shell.make_change();
                        (YankFlow { stage: YankStage::Update, ..shell }, Step::Query(op))
                    },
                }
            },
            (YankStage::Update, Reply::Done) => {
                let vid = shell.version_id;
                (YankFlow { stage: YankStage::Refetch, ..shell }, Step::Query(DbOp::GetVersion(vid)))
            },
            (YankStage::Refetch, Reply::Version(None)) => (shell, refuse(CatalogError::VersionNotFound)),
            (YankStage::Refetch, Reply::Version(Some(v))) => {
                let e = shell.make_event(&v);
                (YankFlow { stage: YankStage::Announce { version: v }, ..shell }, Step::Publish(e))
            },
            (YankStage::Announce { version }, Reply::Published) => {
                let msg = match shell.direction {
                    YankDirection::Yank => "Version yanked",
                    YankDirection::Unyank => "Version un-yanked",
                };
                (shell, ok_answer(200, VersionDto::from_version(version), msg))
            },
            (YankStage::Finished, _) => (shell, unexpected()),
            (_, Reply::Failed(m)) => (shell, db_failure(m)),
            _ => (shell, unexpected()),
        }
    }
}

} // verus!
