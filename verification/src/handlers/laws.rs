//! What the flows promise over whole runs.
//!
//! A run is the sequence of flow states a caller goes through, the
//! replies it hands back and the steps the flow answers them with: state
//! `i` resumed with reply `i` gives step `i` and state `i + 1`.
use super::discovery::{answers_page, DiscoverFlow, DiscoverStage};
use super::projects::{
    CreateProjectFlow, CreateStage, DeleteProjectFlow, SetCurrentVersionFlow, UpdateMetadataFlow,
};
use super::versions::{upload_artifact, upload_tag, UploadAnswer, UploadVersionFlow, YankFlow};
use super::versions::YankDirection;
use super::{answers_ok, fails_internally, Answer, DbOp, Reply, Step, UploadField};
use crate::checksum::sha256_digest;
use crate::domain::project::{Project, ProjectDto};
use crate::domain::errors::CatalogError;
use crate::domain::version::{ValidationStatus, Version, VersionDto};
use crate::repository::project_repo::{max_slug_retries, slug_candidate};
use crate::repository::version_repo::{unyank_applied, yank_applied, NewVersion};
use crate::search::DiscoveryPage;
use crate::text::hex_lower;
use vstd::prelude::*;

verus! {

// ---------------------------------------------------------------------
// Yanking
// ---------------------------------------------------------------------
/// A run of a yank (or un-yank) flow from its start.
pub open spec fn yank_run(flows: Seq<YankFlow>, replies: Seq<Reply>, steps: Seq<Step<Answer<VersionDto>>>) -> bool {
    &&& flows.len() == replies.len() + 1
    &&& steps.len() == replies.len()
    &&& flows[0].stage is Check
    &&& forall|i: int| #![trigger steps[i]] 0 <= i < replies.len() ==> flows[i].next(replies[i], flows[i + 1], steps[i])
}

/// A version's yank state is changed only after the version was found in
/// the project of the path, its project was found owned by the caller,
/// and the version was found in the state the change starts from: the
/// change is the third step of the run, it changes the requested version
/// on the caller's behalf, and those three findings are the replies
/// before it.
pub proof fn lemma_yank_change_is_authorized(
    flows: Seq<YankFlow>,
    replies: Seq<Reply>,
    steps: Seq<Step<Answer<VersionDto>>>,
    k: int,
)
    requires
        yank_run(flows, replies, steps),
        0 <= k < steps.len(),
        steps[k] matches Step::Query(op) && (op is Yank || op is Unyank),
    ensures
        k == 2,
        steps[k] == Step::<Answer<VersionDto>>::Query(flows[0].change_op()),
        replies[0] matches Reply::Version(Some(v)) && v.project_id == flows[0].project_id,
        replies[1] == Reply::Owner(Some(flows[0].caller)),
        replies[2] matches Reply::Version(Some(v)) && flows[0].changeable(v),
{
    // Only a re-checked version leads to the change, only the owner's
    // verdict to the re-check, and only the version check to the owner's.
    assert(flows[k].next(replies[k], flows[k + 1], steps[k]));
    assert(flows[k].stage is Recheck);
    assert(k >= 1);
    assert(flows[k - 1].next(replies[k - 1], flows[k], steps[k - 1]));
    assert(flows[k - 1].stage is Owner);
    assert(k >= 2);
    assert(flows[k - 2].next(replies[k - 2], flows[k - 1], steps[k - 2]));
    assert(flows[k - 2].stage is Check);
    if k > 2 {
        assert(flows[k - 3].next(replies[k - 3], flows[k - 2], steps[k - 3]));
    }
}

/// The replies a store holding `before`, owned by `owner`, gives a yank or
/// un-yank run that changes it into `after`.
pub open spec fn store_replies(before: Version, owner: u128, after: Version) -> Seq<Reply> {
    seq![
        Reply::Version(Some(before)),
        Reply::Owner(Some(owner)),
        Reply::Version(Some(before)),
        Reply::Done,
        Reply::Version(Some(after)),
        Reply::Published,
    ]
}

/// Yanking a version and then un-yanking it restores it. Against a store
/// that applies each change it is asked for: the yank asks to yank exactly
/// that version for its owner and answers with the yanked version, which
/// may back no new deployment; the un-yank asks to un-yank it and answers
/// with a version that is not yanked, records who un-yanked it, keeps its
/// tag and validation status, and is as eligible for new deployments as
/// before the yank; and a second un-yank is refused as `NotYanked` before
/// anything is asked of the store.
pub proof fn lemma_yank_then_unyank_restores(
    y: Seq<YankFlow>,
    yr: Seq<Reply>,
    ys: Seq<Step<Answer<VersionDto>>>,
    u: Seq<YankFlow>,
    ur: Seq<Reply>,
    us: Seq<Step<Answer<VersionDto>>>,
    w: Seq<YankFlow>,
    wr: Seq<Reply>,
    ws: Seq<Step<Answer<VersionDto>>>,
    v0: Version,
    v1: Version,
    v2: Version,
)
    requires
        yank_run(y, yr, ys),
        yank_run(u, ur, us),
        yank_run(w, wr, ws),
        y[0].direction == YankDirection::Yank,
        u[0].direction == YankDirection::Unyank,
        w[0].direction == YankDirection::Unyank,
        y[0].version_id == v0.id && u[0].version_id == v0.id && w[0].version_id == v0.id,
        y[0].project_id == v0.project_id && u[0].project_id == v0.project_id && w[0].project_id
            == v0.project_id,
        u[0].caller == y[0].caller && w[0].caller == y[0].caller,
        !v0.is_yanked,
        yr == store_replies(v0, y[0].caller, v1),
        yank_applied(v0, v1, y[0].reason, y[0].caller),
        ur == store_replies(v1, y[0].caller, v2),
        unyank_applied(v1, v2, y[0].caller),
        wr == store_replies(v2, y[0].caller, v2).take(3),
    ensures
        ys[2] == Step::<Answer<VersionDto>>::Query(
            DbOp::Yank { version_id: v0.id, reason: y[0].reason, yanked_by: y[0].caller },
        ),
        answers_ok(ys[5], 200, VersionDto::spec_from_version(v1), "Version yanked"@),
        v1.is_yanked && !v1.spec_eligible(),
        us[2] == Step::<Answer<VersionDto>>::Query(
            DbOp::Unyank { version_id: v0.id, unyanked_by: y[0].caller },
        ),
        answers_ok(us[5], 200, VersionDto::spec_from_version(v2), "Version un-yanked"@),
        !v2.is_yanked,
        v2.unyanked_by == Some(y[0].caller),
        v2.version_tag == v0.version_tag,
        v2.validation_status == v0.validation_status,
        v2.spec_eligible() == v0.spec_eligible(),
        ws[2] == Step::<Answer<VersionDto>>::Finish(Err(CatalogError::NotYanked)),
{
    assert(y[0].next(yr[0], y[1], ys[0]));
    assert(y[1].next(yr[1], y[2], ys[1]));
    assert(y[2].next(yr[2], y[3], ys[2]));
    assert(y[3].next(yr[3], y[4], ys[3]));
    assert(y[4].next(yr[4], y[5], ys[4]));
    assert(y[5].next(yr[5], y[6], ys[5]));
    assert(u[0].next(ur[0], u[1], us[0]));
    assert(u[1].next(ur[1], u[2], us[1]));
    assert(u[2].next(ur[2], u[3], us[2]));
    assert(u[3].next(ur[3], u[4], us[3]));
    assert(u[4].next(ur[4], u[5], us[4]));
    assert(u[5].next(ur[5], u[6], us[5]));
    assert(w[0].next(wr[0], w[1], ws[0]));
    assert(w[1].next(wr[1], w[2], ws[1]));
    assert(w[2].next(wr[2], w[3], ws[2]));
}

// ---------------------------------------------------------------------
// Deleting a project and setting its current version
// ---------------------------------------------------------------------
/// A run of a delete flow from its start.
pub open spec fn delete_run(flows: Seq<DeleteProjectFlow>, replies: Seq<Reply>, steps: Seq<Step<Answer<()>>>) -> bool {
    &&& flows.len() == replies.len() + 1
    &&& steps.len() == replies.len()
    &&& flows[0].stage is Lookup
    &&& forall|i: int| #![trigger steps[i]] 0 <= i < replies.len() ==> flows[i].next(replies[i], flows[i + 1], steps[i])
}

/// A project is deleted only when it was found owned by the caller: the
/// deletion is the first step of the run and deletes the requested
/// project.
pub proof fn lemma_delete_needs_owner(
    flows: Seq<DeleteProjectFlow>,
    replies: Seq<Reply>,
    steps: Seq<Step<Answer<()>>>,
    k: int,
)
    requires
        delete_run(flows, replies, steps),
        0 <= k < steps.len(),
        steps[k] matches Step::Query(DbOp::SoftDelete(_)),
    ensures
        k == 0,
        steps[0] == Step::<Answer<()>>::Query(DbOp::SoftDelete(flows[0].project_id)),
        replies[0] matches Reply::Project(Some(p)) && p.owner_id == flows[0].caller,
{
    assert(flows[k].next(replies[k], flows[k + 1], steps[k]));
    assert(flows[k].stage is Lookup);
    if k > 0 {
        assert(flows[k - 1].next(replies[k - 1], flows[k], steps[k - 1]));
    }
}

/// A run of a set-current-version flow from its start.
pub open spec fn set_current_run(
    flows: Seq<SetCurrentVersionFlow>,
    replies: Seq<Reply>,
    steps: Seq<Step<Answer<()>>>,
) -> bool {
    &&& flows.len() == replies.len() + 1
    &&& steps.len() == replies.len()
    &&& flows[0].stage is Lookup
    &&& forall|i: int| #![trigger steps[i]] 0 <= i < replies.len() ==> flows[i].next(replies[i], flows[i + 1], steps[i])
}

/// A project's current version is set only when the project was found
/// owned by the caller and the version was found to belong to it: the
/// change is the second step of the run and points the requested project
/// at that version.
pub proof fn lemma_set_current_needs_owner_and_own_version(
    flows: Seq<SetCurrentVersionFlow>,
    replies: Seq<Reply>,
    steps: Seq<Step<Answer<()>>>,
    k: int,
)
    requires
        set_current_run(flows, replies, steps),
        0 <= k < steps.len(),
        steps[k] matches Step::Query(DbOp::SetCurrentVersion { .. }),
    ensures
        k == 1,
        replies[0] matches Reply::Project(Some(p)) && p.owner_id == flows[0].caller,
        replies[1] matches Reply::Version(Some(v)) && v.project_id == flows[0].project_id && steps[1]
            == Step::<Answer<()>>::Query(
            DbOp::SetCurrentVersion { project_id: flows[0].project_id, version_id: v.id },
        ),
{
    assert(flows[k].next(replies[k], flows[k + 1], steps[k]));
    assert(flows[k].stage is Version);
    assert(k >= 1);
    assert(flows[k - 1].next(replies[k - 1], flows[k], steps[k - 1]));
    assert(flows[k - 1].stage is Lookup);
    if k > 1 {
        assert(flows[k - 2].next(replies[k - 2], flows[k - 1], steps[k - 2]));
    }
}

// ---------------------------------------------------------------------
// Uploading a version
// ---------------------------------------------------------------------
/// A run of an upload flow from its start.
pub open spec fn upload_run(flows: Seq<UploadVersionFlow>, replies: Seq<Reply>, steps: Seq<Step<UploadAnswer>>) -> bool {
    &&& flows.len() == replies.len() + 1
    &&& steps.len() == replies.len()
    &&& flows[0].stage is Lookup
    &&& forall|i: int| #![trigger steps[i]] 0 <= i < replies.len() ==> flows[i].next(replies[i], flows[i + 1], steps[i])
}

/// The project was found and is owned by `caller`.
pub open spec fn owned_by(reply: Reply, caller: u128) -> bool {
    reply matches Reply::Project(Some(p)) && p.owner_id == caller
}

/// Along an upload run the request stays the same, the lookup is never
/// gone back to, and a flow past the lookup that has not answered found
/// the project owned by the caller.
proof fn lemma_upload_run_facts(
    flows: Seq<UploadVersionFlow>,
    replies: Seq<Reply>,
    steps: Seq<Step<UploadAnswer>>,
    i: int,
)
    requires
        upload_run(flows, replies, steps),
        1 <= i <= replies.len(),
    ensures
        flows[i].project_id == flows[0].project_id,
        flows[i].caller == flows[0].caller,
        !(flows[i].stage is Lookup),
        !(flows[i].stage is Finished) ==> owned_by(replies[0], flows[0].caller),
    decreases i,
{
    assert(flows[i - 1].next(replies[i - 1], flows[i], steps[i - 1]));
    if i > 1 {
        lemma_upload_run_facts(flows, replies, steps, i - 1);
    }
}

/// An upload flow that answered answers every further reply with an
/// internal error.
pub proof fn lemma_upload_stays_finished(
    flows: Seq<UploadVersionFlow>,
    replies: Seq<Reply>,
    steps: Seq<Step<UploadAnswer>>,
    i: int,
    j: int,
)
    requires
        upload_run(flows, replies, steps),
        0 <= i <= j < replies.len(),
        flows[i].stage is Finished,
    ensures
        flows[j + 1].stage is Finished,
        fails_internally(steps[j]),
    decreases j - i,
{
    if j > i {
        lemma_upload_stays_finished(flows, replies, steps, i, j - 1);
    }
    assert(flows[j].next(replies[j], flows[j + 1], steps[j]));
}

/// Nothing is read, checked, stored, recorded or announced for an upload
/// unless the project was found owned by the caller: every step of the
/// run but an answer follows that finding.
pub proof fn lemma_upload_needs_owner(
    flows: Seq<UploadVersionFlow>,
    replies: Seq<Reply>,
    steps: Seq<Step<UploadAnswer>>,
    k: int,
)
    requires
        upload_run(flows, replies, steps),
        0 <= k < steps.len(),
        !(steps[k] is Finish),
    ensures
        owned_by(replies[0], flows[0].caller),
{
    assert(flows[k].next(replies[k], flows[k + 1], steps[k]));
    if k > 0 {
        lemma_upload_run_facts(flows, replies, steps, k);
    }
}

/// An upload with a non-blank tag and an artifact, stored under the
/// artifact's SHA-256 checksum `key`.
pub open spec fn stores_upload(fields: Seq<UploadField>, key: String) -> bool {
    &&& upload_tag(fields) matches Some(t) && t.len() > 0
    &&& upload_artifact(fields) matches Some(a) && key@ == hex_lower(sha256_digest(a))
}

/// An artifact is stored only once the pipeline passed on it: the store
/// is the third step of the run, after the owner's project was found and
/// an upload with a non-blank tag and an artifact was read, and the
/// artifact goes under its SHA-256 checksum.
pub proof fn lemma_artifact_stored_only_after_pass(
    flows: Seq<UploadVersionFlow>,
    replies: Seq<Reply>,
    steps: Seq<Step<UploadAnswer>>,
    k: int,
)
    requires
        upload_run(flows, replies, steps),
        0 <= k < steps.len(),
        steps[k] is StoreArtifact,
    ensures
        k == 2,
        owned_by(replies[0], flows[0].caller),
        replies[1] matches Reply::Upload(fields) && (steps[2] matches Step::StoreArtifact { key }
            && stores_upload(fields@, key)),
        replies[2] matches Reply::Validated(r) && r.passed,
{
    assert(flows[k].next(replies[k], flows[k + 1], steps[k]));
    assert(flows[k].stage is Validate);
    assert(k >= 1);
    assert(flows[k - 1].next(replies[k - 1], flows[k], steps[k - 1]));
    assert(flows[k - 1].stage is Read);
    assert(k >= 2);
    assert(flows[k - 2].next(replies[k - 2], flows[k - 1], steps[k - 2]));
    assert(flows[k - 2].stage is Lookup);
    if k > 2 {
        lemma_upload_run_facts(flows, replies, steps, k - 2);
    }
}

/// `nv` records the upload `fields` of `flow`'s request, stored at `url`
/// under `key`: the requested project, the caller, the upload's tag and
/// size, the URL and the key, which is the artifact's SHA-256 checksum.
pub open spec fn records_upload(flow: UploadVersionFlow, fields: Seq<UploadField>, url: String, key: String, nv: NewVersion) -> bool {
    &&& upload_tag(fields) matches Some(t) && nv.version_tag@ == t
    &&& upload_artifact(fields) matches Some(a) && nv.artifact_size == a.len() as i64 && key@
        == hex_lower(sha256_digest(a))
    &&& nv.project_id == flow.project_id
    &&& nv.developer_id == flow.caller
    &&& nv.artifact_url == url
    &&& nv.checksum == key
}

/// A version is recorded only for an artifact that passed the pipeline
/// and was stored: the record is the fourth step of the run, and it
/// carries the requested project, the caller, the upload's tag and size,
/// the URL the store gave back and the checksum the artifact was stored
/// under.
pub proof fn lemma_version_recorded_only_after_pass(
    flows: Seq<UploadVersionFlow>,
    replies: Seq<Reply>,
    steps: Seq<Step<UploadAnswer>>,
    k: int,
)
    requires
        upload_run(flows, replies, steps),
        0 <= k < steps.len(),
        steps[k] matches Step::Query(DbOp::InsertVersion(_)),
    ensures
        k == 3,
        owned_by(replies[0], flows[0].caller),
        replies[2] matches Reply::Validated(r) && r.passed,
        replies[1] matches Reply::Upload(fields) && (replies[3] matches Reply::Stored(url) && (
        steps[2] matches Step::StoreArtifact { key } && (steps[3] matches Step::Query(
            DbOp::InsertVersion(nv),
        ) && records_upload(flows[0], fields@, url, key, nv)))),
{
    assert(flows[k].next(replies[k], flows[k + 1], steps[k]));
    assert(flows[k].stage is Store);
    assert(k >= 1);
    assert(flows[k - 1].next(replies[k - 1], flows[k], steps[k - 1]));
    assert(steps[k - 1] is StoreArtifact);
    lemma_artifact_stored_only_after_pass(flows, replies, steps, k - 1);
    assert(flows[1].next(replies[1], flows[2], steps[1]));
    assert(flows[2].next(replies[2], flows[3], steps[2]));
    lemma_upload_run_facts(flows, replies, steps, 3);
}

/// Every recorded version is marked as having passed validation, with the
/// pipeline's report: the mark is the fifth step of the run and marks the
/// version the record gave back.
pub proof fn lemma_recorded_version_marked_passed(
    flows: Seq<UploadVersionFlow>,
    replies: Seq<Reply>,
    steps: Seq<Step<UploadAnswer>>,
    k: int,
)
    requires
        upload_run(flows, replies, steps),
        0 <= k < steps.len(),
        steps[k] matches Step::Query(DbOp::MarkValidated { .. }),
    ensures
        k == 4,
        replies[4] matches Reply::Version(Some(v)) && replies[2] matches Reply::Validated(r)
            && r.passed && steps[4] == Step::<UploadAnswer>::Query(
            DbOp::MarkValidated { version_id: v.id, status: ValidationStatus::Passed, report: r },
        ),
{
    assert(flows[k].next(replies[k], flows[k + 1], steps[k]));
    assert(flows[k].stage is Insert);
    assert(k >= 1);
    assert(flows[k - 1].next(replies[k - 1], flows[k], steps[k - 1]));
    assert(steps[k - 1] matches Step::Query(DbOp::InsertVersion(_)));
    lemma_version_recorded_only_after_pass(flows, replies, steps, k - 1);
    assert(flows[2].next(replies[2], flows[3], steps[2]));
    assert(flows[3].next(replies[3], flows[4], steps[3]));
}

/// A rejected upload leaves no trace: when the pipeline's verdict is a
/// failure, the answer is its report, and the flow asks for nothing after
/// it (every further reply is answered with an internal error).
pub proof fn lemma_rejected_upload_leaves_no_trace(
    flows: Seq<UploadVersionFlow>,
    replies: Seq<Reply>,
    steps: Seq<Step<UploadAnswer>>,
    k: int,
)
    requires
        upload_run(flows, replies, steps),
        1 <= k < replies.len(),
        steps[k - 1] is Validate,
        replies[k] matches Reply::Validated(r) && !r.passed,
    ensures
        replies[k] matches Reply::Validated(r) && steps[k] == Step::<UploadAnswer>::Finish(
            Ok(UploadAnswer::Rejected(r)),
        ),
        forall|j: int| k < j < steps.len() ==> fails_internally(#[trigger] steps[j]),
{
    assert(flows[k - 1].next(replies[k - 1], flows[k], steps[k - 1]));
    assert(flows[k].stage is Validate);
    assert(flows[k].next(replies[k], flows[k + 1], steps[k]));
    assert forall|j: int| k < j < steps.len() implies fails_internally(#[trigger] steps[j]) by {
        lemma_upload_stays_finished(flows, replies, steps, k + 1, j);
    }
}

// ---------------------------------------------------------------------
// Updating metadata
// ---------------------------------------------------------------------
/// A run of a metadata update from the lookup of its (valid) request.
pub open spec fn update_run(
    flows: Seq<UpdateMetadataFlow>,
    replies: Seq<Reply>,
    steps: Seq<Step<Answer<ProjectDto>>>,
) -> bool {
    &&& flows.len() == replies.len() + 1
    &&& steps.len() == replies.len()
    &&& flows[0].stage is Lookup
    &&& forall|i: int| #![trigger steps[i]] 0 <= i < replies.len() ==> flows[i].next(replies[i], flows[i + 1], steps[i])
}

proof fn lemma_update_run_facts(
    flows: Seq<UpdateMetadataFlow>,
    replies: Seq<Reply>,
    steps: Seq<Step<Answer<ProjectDto>>>,
    i: int,
)
    requires
        update_run(flows, replies, steps),
        1 <= i <= replies.len(),
    ensures
        flows[0].same_inputs(flows[i]),
        !(flows[i].stage is Lookup),
        !(flows[i].stage is Finished) ==> owned_by(replies[0], flows[0].caller),
    decreases i,
{
    assert(flows[i - 1].next(replies[i - 1], flows[i], steps[i - 1]));
    if i > 1 {
        lemma_update_run_facts(flows, replies, steps, i - 1);
    }
}

/// A project's metadata and labels are touched only when the project was
/// found owned by the caller: every database operation of the run after
/// the lookup follows that finding.
pub proof fn lemma_update_needs_owner(
    flows: Seq<UpdateMetadataFlow>,
    replies: Seq<Reply>,
    steps: Seq<Step<Answer<ProjectDto>>>,
    k: int,
)
    requires
        update_run(flows, replies, steps),
        0 <= k < steps.len(),
        steps[k] is Query,
    ensures
        owned_by(replies[0], flows[0].caller),
{
    assert(flows[k].next(replies[k], flows[k + 1], steps[k]));
    if k > 0 {
        lemma_update_run_facts(flows, replies, steps, k);
    }
}

// ---------------------------------------------------------------------
// Creating a project
// ---------------------------------------------------------------------
/// A run of a create flow from its transaction's start.
pub open spec fn create_run(
    flows: Seq<CreateProjectFlow>,
    replies: Seq<Reply>,
    steps: Seq<Step<Answer<ProjectDto>>>,
) -> bool {
    &&& flows.len() == replies.len() + 1
    &&& steps.len() == replies.len()
    &&& flows[0].stage is Begin
    &&& forall|i: int| #![trigger steps[i]] 0 <= i < replies.len() ==> flows[i].next(replies[i], flows[i + 1], steps[i])
}

proof fn lemma_create_run_facts(
    flows: Seq<CreateProjectFlow>,
    replies: Seq<Reply>,
    steps: Seq<Step<Answer<ProjectDto>>>,
    i: int,
)
    requires
        create_run(flows, replies, steps),
        1 <= i <= replies.len(),
    ensures
        flows[0].same_inputs(flows[i]),
        !(flows[i].stage is Begin),
        flows[i].stage matches CreateStage::Insert { attempt } ==> {
            &&& attempt == i - 1
            &&& attempt <= max_slug_retries()
            &&& forall|j: int| 1 <= j < i ==> #[trigger] replies[j] is UniqueViolation
        },
    decreases i,
{
    assert(flows[i - 1].next(replies[i - 1], flows[i], steps[i - 1]));
    if i > 1 {
        lemma_create_run_facts(flows, replies, steps, i - 1);
    }
}

/// A project is inserted under at most `max_slug_retries() + 1` slugs,
/// in order and each only after the one before collided: the `k`-th
/// insertion uses the `k`-th candidate (the base slug, then `base-1`,
/// `base-2`, ...) for the caller, and every reply between the first
/// insertion and it was a collision.
pub proof fn lemma_create_tries_slugs_in_order(
    flows: Seq<CreateProjectFlow>,
    replies: Seq<Reply>,
    steps: Seq<Step<Answer<ProjectDto>>>,
    k: int,
)
    requires
        create_run(flows, replies, steps),
        0 <= k < steps.len(),
        steps[k] matches Step::Query(DbOp::InsertProject { .. }),
    ensures
        k <= max_slug_retries(),
        steps[k] matches Step::Query(DbOp::InsertProject { slug, owner_id, .. }) && slug@
            == slug_candidate(flows[0].base_slug@, k as u32) && owner_id == flows[0].owner_id,
        forall|j: int| 1 <= j <= k ==> #[trigger] replies[j] is UniqueViolation,
{
    assert(flows[k].next(replies[k], flows[k + 1], steps[k]));
    lemma_create_run_facts(flows, replies, steps, k + 1);
    if k > 0 {
        lemma_create_run_facts(flows, replies, steps, k);
    }
}

// ---------------------------------------------------------------------
// Discovery
// ---------------------------------------------------------------------
/// A run of a discovery flow from its start.
pub open spec fn discover_run(
    flows: Seq<DiscoverFlow>,
    replies: Seq<Reply>,
    steps: Seq<Step<Answer<DiscoveryPage>>>,
) -> bool {
    &&& flows.len() == replies.len() + 1
    &&& steps.len() == replies.len()
    &&& flows[0].stage is Page
    &&& flows[0].items@.len() == 0
    &&& forall|i: int| #![trigger steps[i]] 0 <= i < replies.len() ==> flows[i].next(replies[i], flows[i + 1], steps[i])
}

/// The match count a page reply gives (0 without rows).
pub open spec fn page_total_of(reply: Reply) -> i64 {
    match reply {
        Reply::Page { total, .. } => match total {
            Some(t) => t,
            None => 0,
        },
        _ => 0,
    }
}

/// Row `i` of the page query with the tags and categories fetched for it:
/// the labels replies come in pairs after the page reply.
pub open spec fn page_item(rows: Seq<Project>, replies: Seq<Reply>, i: int) -> ProjectDto {
    ProjectDto::spec_from_project(rows[i], replies[2 * i + 1]->Labels_0, replies[2 * i + 2]->Labels_0)
}

/// Every row of the page query, in order, with its labels.
pub open spec fn page_items(rows: Seq<Project>, replies: Seq<Reply>) -> Seq<ProjectDto> {
    Seq::new(rows.len(), |i: int| page_item(rows, replies, i))
}

/// `items` are the first `n` rows with their labels.
pub open spec fn items_so_far(items: Seq<ProjectDto>, rows: Seq<Project>, replies: Seq<Reply>, n: int) -> bool {
    &&& items.len() == n
    &&& forall|i: int| 0 <= i < n ==> #[trigger] items[i] == page_item(rows, replies, i)
}

proof fn lemma_discover_run_facts(
    flows: Seq<DiscoverFlow>,
    replies: Seq<Reply>,
    steps: Seq<Step<Answer<DiscoveryPage>>>,
    j: int,
)
    requires
        discover_run(flows, replies, steps),
        1 <= j <= replies.len(),
    ensures
        flows[j].page == flows[0].page,
        flows[j].page_size == flows[0].page_size,
        !(flows[j].stage is Page),
        !(flows[j].stage is Finished) ==> {
            &&& replies[0] is Page
            &&& flows[j].rows == replies[0]->rows
            &&& flows[j].total == page_total_of(replies[0])
            &&& match flows[j].stage {
                DiscoverStage::Tags { index } => j == 2 * index + 1 && index < flows[j].rows@.len()
                    && items_so_far(flows[j].items@, flows[j].rows@, replies, index as int),
                DiscoverStage::Categories { index, tags } => j == 2 * index + 2 && index
                    < flows[j].rows@.len() && tags == replies[2 * index + 1]->Labels_0
                    && items_so_far(flows[j].items@, flows[j].rows@, replies, index as int),
                _ => true,
            }
        },
    decreases j,
{
    let prev = flows[j - 1];
    let cur = flows[j];
    assert(prev.next(replies[j - 1], cur, steps[j - 1]));
    if j == 1 {
        if let Reply::Page { rows, total } = replies[0] {
            if 0 < rows@.len() {
                assert(cur.items@ == prev.items@);
                assert(items_so_far(cur.items@, cur.rows@, replies, 0));
            }
        }
    } else {
        lemma_discover_run_facts(flows, replies, steps, j - 1);
        match prev.stage {
            DiscoverStage::Tags { index } => {
                if !(cur.stage is Finished) {
                    assert(cur.items@ == prev.items@);
                    assert(cur.rows == prev.rows);
                }
            },
            DiscoverStage::Categories { index, tags } => {
                if !(cur.stage is Finished) {
                    assert(replies[j - 1] is Labels);
                    let rows = cur.rows@;
                    assert(cur.rows == prev.rows);
                    assert(rows.len() == cur.rows.len());
                    assert(cur.items@ == prev.items@.push(page_item(rows, replies, index as int)));
                    assert forall|i: int| 0 <= i < index + 1 implies #[trigger] cur.items@[i]
                        == page_item(rows, replies, i) by {
                        if i < index {
                            assert(cur.items@[i] == prev.items@[i]);
                        }
                    }
                }
            },
            _ => {},
        }
    }
}

/// A discovery page lists every project the page query returned, in
/// order, each with the tags and categories fetched for it, with the
/// requested page and page size and the query's match count: an
/// answered run is the page reply followed by one pair of labels replies
/// per row.
pub proof fn lemma_discovery_lists_every_row(
    flows: Seq<DiscoverFlow>,
    replies: Seq<Reply>,
    steps: Seq<Step<Answer<DiscoveryPage>>>,
    k: int,
)
    requires
        discover_run(flows, replies, steps),
        0 <= k < steps.len(),
        steps[k] matches Step::Finish(Ok(_)),
    ensures
        replies[0] is Page,
        k == 2 * replies[0]->rows@.len(),
        answers_page(
            steps[k],
            flows[0].page,
            flows[0].page_size,
            page_total_of(replies[0]),
            page_items(replies[0]->rows@, replies),
        ),
{
    assert(flows[k].next(replies[k], flows[k + 1], steps[k]));
    if k == 0 {
        assert(replies[0] is Page);
        assert(page_items(replies[0]->rows@, replies) =~= Seq::<ProjectDto>::empty());
        assert(flows[0].items@ =~= Seq::<ProjectDto>::empty());
    } else {
        lemma_discover_run_facts(flows, replies, steps, k);
        let f = flows[k];
        assert(f.stage is Categories);
        if let DiscoverStage::Categories { index, tags } = f.stage {
            let rows = f.rows@;
            let items = f.items@.push(page_item(rows, replies, index as int));
            assert(replies[k] is Labels);
            assert(items =~= page_items(rows, replies));
        }
    }
}

} // verus!
