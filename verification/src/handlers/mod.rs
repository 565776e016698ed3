//! Request handling as explicit flows.
//!
//! Each handler is a flow: it is started with the request's inputs and
//! then driven by its caller, which performs the step the flow asks for
//! (a database operation, reading the upload, running the validation
//! pipeline, storing the artifact, publishing an event) and resumes the
//! flow with the outcome, until the flow answers. Every decision — what
//! to ask next, when to refuse, what to answer — is the flow's.
pub mod discovery;
pub mod laws;
pub mod projects;
pub mod versions;

use crate::domain::errors::CatalogError;
use crate::domain::project::{Project, ProjectDto};
use crate::domain::version::{ValidationStatus, Version};
use crate::events::CatalogEvent;
use crate::models::ApiResponse;
use crate::repository::project_repo::MetadataSnapshot;
use crate::repository::version_repo::NewVersion;
use crate::search::DiscoveryPlan;
use crate::text::owned;
use crate::validation::ValidationResult;
use vstd::prelude::*;

verus! {

/// A database operation a flow asks for, and the reply it expects.
#[derive(Clone, Debug)]
pub enum DbOp {
    /// The live (not deleted) project with this id: `Reply::Project`.
    GetProject(u128),
    /// The live project with this slug: `Reply::Project`.
    GetProjectBySlug(String),
    /// The project's tags, sorted: `Reply::Labels`.
    TagsFor(u128),
    /// The project's categories, sorted: `Reply::Labels`.
    CategoriesFor(u128),
    /// Open a transaction: `Reply::Done`.
    Begin,
    /// Insert a project in the transaction: `Reply::Project(Some(..))`,
    /// or `Reply::UniqueViolation` when the slug is taken.
    InsertProject {
        name: String,
        slug: String,
        description: Option<String>,
        documentation_url: Option<String>,
        owner_id: u128,
    },
    /// Add a tag in the transaction, ignoring duplicates: `Reply::Done`.
    InsertTag { project_id: u128, tag: String },
    /// Add a category in the transaction, ignoring duplicates:
    /// `Reply::Done`.
    InsertCategory { project_id: u128, category: String },
    /// Read and lock the live project in the transaction:
    /// `Reply::Project`.
    LockProject(u128),
    /// Set the metadata in the transaction (and the update time):
    /// `Reply::Project(Some(..))` with the updated row.
    UpdateMetadata { project_id: u128, metadata: MetadataSnapshot },
    /// Record a metadata change in the transaction: `Reply::Done`.
    RecordHistory {
        project_id: u128,
        changed_by: u128,
        previous: MetadataSnapshot,
        new: MetadataSnapshot,
    },
    /// Remove all tags in the transaction: `Reply::Done`.
    DeleteTags(u128),
    /// Remove all categories in the transaction: `Reply::Done`.
    DeleteCategories(u128),
    /// Commit the transaction: `Reply::Done`.
    Commit,
    /// Mark the project deleted and unpublished: `Reply::Done`.
    SoftDelete(u128),
    /// Point the project at its current version: `Reply::Done`.
    SetCurrentVersion { project_id: u128, version_id: u128 },
    /// Make the project visible: `Reply::Done`.
    PublishProject(u128),
    /// The version with this id: `Reply::Version`.
    GetVersion(u128),
    /// The project's versions, newest first: `Reply::Versions`.
    ListVersions(u128),
    /// Store a new version: `Reply::Version(Some(..))`, or
    /// `Reply::UniqueViolation` when the tag is taken.
    InsertVersion(NewVersion),
    /// Record the validation verdict (and the pipeline's report, which
    /// the flow hands over with the step): `Reply::Done`.
    MarkValidated { version_id: u128, status: ValidationStatus, report: ValidationResult },
    /// Owner of the version's live project: `Reply::Owner`.
    VersionOwner(u128),
    /// Yank the version: `Reply::Done`.
    Yank { version_id: u128, reason: Option<String>, yanked_by: u128 },
    /// Reverse a yank: `Reply::Done`.
    Unyank { version_id: u128, unyanked_by: u128 },
    /// Run a discovery page query: `Reply::Page`.
    Discover(DiscoveryPlan),
}

/// A named part of a multipart upload.
#[derive(Clone, Debug)]
pub struct UploadField {
    pub name: String,
    pub data: Vec<u8>,
}

/// Why reading the upload failed (texts of the transport's errors).
#[derive(Clone, Debug)]
pub enum UploadError {
    /// The multipart body could not be parsed.
    Malformed(String),
    /// A part could not be read.
    Unreadable(String),
}

/// The outcome of a step.
#[derive(Clone, Debug)]
pub enum Reply {
    Project(Option<Project>),
    Version(Option<Version>),
    Versions(Vec<Version>),
    Labels(Vec<String>),
    Owner(Option<u128>),
    /// A discovery page: the rows and the window count of the first row.
    Page { rows: Vec<Project>, total: Option<i64> },
    Done,
    /// A unique constraint was violated (the driver's error text).
    UniqueViolation(String),
    /// The database failed (the driver's error text).
    Failed(String),
    Upload(Vec<UploadField>),
    UploadFailed(UploadError),
    Validated(ValidationResult),
    /// The artifact was stored; its URL.
    Stored(String),
    /// Storing the artifact failed (the I/O error text).
    StoreFailed(String),
    /// The event was handed to the bus (failures are only logged).
    Published,
}

/// An HTTP answer: status and JSON envelope.
#[derive(Clone, Debug)]
pub struct Answer<T> {
    pub status: u16,
    pub body: ApiResponse<T>,
}

/// What a flow asks for next, or its answer.
#[derive(Debug)]
pub enum Step<A> {
    Query(DbOp),
    /// Read the multipart body: `Reply::Upload` or `Reply::UploadFailed`.
    ReadUpload,
    /// Run the validation pipeline on the artifact the flow holds:
    /// `Reply::Validated`.
    Validate,
    /// Store the artifact the flow holds under `key`: `Reply::Stored` or
    /// `Reply::StoreFailed`.
    StoreArtifact { key: String },
    /// Publish an event: `Reply::Published`.
    Publish(CatalogEvent),
    /// The flow is over.
    Finish(Result<A, CatalogError>),
}

/// `step` answers `status` with a successful envelope carrying `data` and
/// `message`.
pub open spec fn answers_ok<T>(step: Step<Answer<T>>, status: u16, data: T, message: Seq<char>) -> bool {
    step matches Step::Finish(Ok(a)) && a.status == status && a.body.success && a.body.data
        == Some(data) && a.body.message@ == message
}

/// `step` fails with `e`.
pub open spec fn fails_with<A>(step: Step<A>, e: CatalogError) -> bool {
    step == Step::<A>::Finish(Err(e))
}

/// `step` fails with an internal error (a reply the flow did not ask for,
/// or a flow resumed after it answered).
pub open spec fn fails_internally<A>(step: Step<A>) -> bool {
    step matches Step::Finish(Err(CatalogError::Internal(_)))
}

/// The refusal of an out-of-order reply.
pub fn unexpected<A>() -> (s: Step<A>)
    ensures
        fails_internally(s),
{
    Step::Finish(Err(CatalogError::Internal(owned("unexpected reply"))))
}

/// A successful answer.
pub fn ok_answer<T>(status: u16, data: T, message: &str) -> (s: Step<Answer<T>>)
    ensures
        answers_ok(s, status, data, message@),
{
    Step::Finish(Ok(Answer { status, body: ApiResponse::success(data, message) }))
}

/// A failure with a database error.
pub fn db_failure<A>(m: String) -> (s: Step<A>)
    ensures
        fails_with(s, CatalogError::Database(m)),
{
    Step::Finish(Err(CatalogError::Database(m)))
}

/// A refusal with `e`.
pub fn refuse<A>(e: CatalogError) -> (s: Step<A>)
    ensures
        fails_with(s, e),
{
    Step::Finish(Err(e))
}

// ---------------------------------------------------------------------
// Shared tail: answer with a project and its tags and categories
// ---------------------------------------------------------------------
/// Where the tail stands.
#[derive(Clone, Debug)]
pub enum TailStage {
    /// Waiting for the tags.
    Tags,
    /// Waiting for the categories.
    Categories { tags: Vec<String> },
}

/// Fetches a project's tags and categories, then answers with its public
/// representation.
#[derive(Clone, Debug)]
pub struct ProjectTail {
    pub project: Project,
    pub status: u16,
    pub message: &'static str,
    pub stage: TailStage,
}

impl ProjectTail {
    pub fn begin(project: Project, status: u16, message: &'static str) -> (r: (
        ProjectTail,
        Step<Answer<ProjectDto>>,
    ))
        ensures
            r.0.project == project,
            r.0.status == status,
            r.0.message == message,
            r.0.stage is Tags,
            r.1 == Step::<Answer<ProjectDto>>::Query(DbOp::TagsFor(project.id)),
    {
        let id = project.id;
        (ProjectTail { project, status, message, stage: TailStage::Tags }, Step::Query(DbOp::TagsFor(id)))
    }

    /// One transition of the tail: tags, then categories, then the
    /// answer; a database failure ends it.
    pub open spec fn next(self, reply: Reply, new: Option<ProjectTail>, step: Step<Answer<ProjectDto>>) -> bool {
        match (self.stage, reply) {
            (TailStage::Tags, Reply::Labels(tags)) => new == Some(
                ProjectTail { stage: TailStage::Categories { tags }, ..self },
            ) && step == Step::<Answer<ProjectDto>>::Query(DbOp::CategoriesFor(self.project.id)),
            (TailStage::Categories { tags }, Reply::Labels(categories)) => new is None && answers_ok(
                step,
                self.status,
                ProjectDto::spec_from_project(self.project, tags, categories),
                self.message@,
            ),
            (_, Reply::Failed(m)) => new is None && fails_with(step, CatalogError::Database(m)),
            _ => new is None && fails_internally(step),
        }
    }

    pub fn resume(self, reply: Reply) -> (r: (Option<ProjectTail>, Step<Answer<ProjectDto>>))
        ensures
            self.next(reply, r.0, r.1),
    {
        let ProjectTail { project, status, message, stage } = self;
        match (stage, reply) {
            (TailStage::Tags, Reply::Labels(tags)) => {
                let id = project.id;
                (
                    Some(ProjectTail { project, status, message, stage: TailStage::Categories { tags } }),
                    Step::Query(DbOp::CategoriesFor(id)),
                )
            },
            (TailStage::Categories { tags }, Reply::Labels(categories)) => {
                let dto = ProjectDto::from_project(project, tags, categories);
                (None, ok_answer(status, dto, message))
            },
            (_, Reply::Failed(m)) => (None, db_failure(m)),
            _ => (None, unexpected()),
        }
    }
}

} // verus!
