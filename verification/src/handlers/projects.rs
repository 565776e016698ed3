//! Project flows: read, create, update metadata, delete, set the current
//! version.
use super::{
    answers_ok, db_failure, fails_internally, fails_with, ok_answer, refuse, unexpected, Answer,
    DbOp, ProjectTail, Reply, Step,
};
use crate::domain::errors::CatalogError;
use crate::domain::project::{slug_of, slugify, Project, ProjectDto};
use crate::models::{CreateProjectRequest, SetCurrentVersionRequest, UpdateMetadataRequest};
use crate::repository::project_repo::{
    check_name_length, clone_opt, make_slug_candidate, max_slug_retries, merge_metadata, merged,
    name_long_enough, normalize_labels, normalized_label, short_name_error, short_name_message,
    slug_candidate, slug_retry_limit, snapshot_of, take_snapshot, MetadataSnapshot,
    MetadataUpdate,
};
use crate::text::owned;
use vstd::prelude::*;

verus! {

// ---------------------------------------------------------------------
// Reading a project (by id or by slug)
// ---------------------------------------------------------------------
#[derive(Clone, Debug)]
pub enum GetProjectStage {
    Lookup,
    Tail(ProjectTail),
    Finished,
}

/// `GET /projects/{id}` and `GET /projects/by-slug/{slug}`: the live
/// project with its tags and categories, or `ProjectNotFound`.
#[derive(Clone, Debug)]
pub struct GetProjectFlow {
    pub stage: GetProjectStage,
}

/// The stage after a tail transition.
pub open spec fn tail_stage_after(t: ProjectTail, reply: Reply, new: GetProjectStage, step: Step<Answer<ProjectDto>>) -> bool {
    match new {
        GetProjectStage::Tail(x) => t.next(reply, Some(x), step),
        GetProjectStage::Finished => t.next(reply, None, step),
        GetProjectStage::Lookup => false,
    }
}

impl GetProjectFlow {
    pub fn by_id(id: u128) -> (r: (Self, Step<Answer<ProjectDto>>))
        ensures
            r.0.stage is Lookup,
            r.1 == Step::<Answer<ProjectDto>>::Query(DbOp::GetProject(id)),
    {
        (GetProjectFlow { stage: GetProjectStage::Lookup }, Step::Query(DbOp::GetProject(id)))
    }

    pub fn by_slug(slug: String) -> (r: (Self, Step<Answer<ProjectDto>>))
        ensures
            r.0.stage is Lookup,
            r.1 == Step::<Answer<ProjectDto>>::Query(DbOp::GetProjectBySlug(slug)),
    {
        (GetProjectFlow { stage: GetProjectStage::Lookup }, Step::Query(DbOp::GetProjectBySlug(slug)))
    }

    pub open spec fn next(self, reply: Reply, new: Self, step: Step<Answer<ProjectDto>>) -> bool {
        match (self.stage, reply) {
            (GetProjectStage::Lookup, Reply::Project(None)) => new.stage is Finished && fails_with(
                step,
                CatalogError::ProjectNotFound,
            ),
            (GetProjectStage::Lookup, Reply::Project(Some(p))) => new.stage matches GetProjectStage::Tail(t)
                && t.project == p && t.status == 200 && t.message@ == "OK"@ && t.stage is Tags
                && step == Step::<Answer<ProjectDto>>::Query(DbOp::TagsFor(p.id)),
            (GetProjectStage::Lookup, Reply::Failed(m)) => new.stage is Finished && fails_with(
                step,
                CatalogError::Database(m),
            ),
            (GetProjectStage::Tail(t), r) => tail_stage_after(t, r, new.stage, step),
            _ => new.stage is Finished && fails_internally(step),
        }
    }

    pub fn resume(self, reply: Reply) -> (r: (Self, Step<Answer<ProjectDto>>))
        ensures
            self.next(reply, r.0, r.1),
    {
        match (self.stage, reply) {
            (GetProjectStage::Lookup, Reply::Project(None)) => (
                GetProjectFlow { stage: GetProjectStage::Finished },
                refuse(CatalogError::ProjectNotFound),
            ),
            (GetProjectStage::Lookup, Reply::Project(Some(p))) => {
                let (t, s) = ProjectTail::begin(p, 200, "OK");
                (GetProjectFlow { stage: GetProjectStage::Tail(t) }, s)
            },
            (GetProjectStage::Lookup, Reply::Failed(m)) => (
                GetProjectFlow { stage: GetProjectStage::Finished },
                db_failure(m),
            ),
            (GetProjectStage::Tail(t), r) => {
                let (nt, s) = t.resume(r);
                match nt {
                    Some(x) => (GetProjectFlow { stage: GetProjectStage::Tail(x) }, s),
                    None => (GetProjectFlow { stage: GetProjectStage::Finished }, s),
                }
            },
            _ => (GetProjectFlow { stage: GetProjectStage::Finished }, unexpected()),
        }
    }
}

// ---------------------------------------------------------------------
// Deleting a project
// ---------------------------------------------------------------------
#[derive(Clone, Copy, Debug)]
pub enum DeleteStage {
    Lookup,
    Delete,
    Finished,
}

/// `DELETE /projects/{id}`: only the owner may delete; deletion is soft.
#[derive(Clone, Copy, Debug)]
pub struct DeleteProjectFlow {
    pub project_id: u128,
    pub caller: u128,
    pub stage: DeleteStage,
}

impl DeleteProjectFlow {
    pub fn start(project_id: u128, caller: u128) -> (r: (Self, Step<Answer<()>>))
        ensures
            r.0.project_id == project_id,
            r.0.caller == caller,
            r.0.stage is Lookup,
            r.1 == Step::<Answer<()>>::Query(DbOp::GetProject(project_id)),
    {
        (
            DeleteProjectFlow { project_id, caller, stage: DeleteStage::Lookup },
            Step::Query(DbOp::GetProject(project_id)),
        )
    }

    pub open spec fn next(self, reply: Reply, new: Self, step: Step<Answer<()>>) -> bool {
        &&& new.project_id == self.project_id
        &&& new.caller == self.caller
        &&& match (self.stage, reply) {
            (DeleteStage::Lookup, Reply::Project(None)) => new.stage is Finished && fails_with(
                step,
                CatalogError::ProjectNotFound,
            ),
            (DeleteStage::Lookup, Reply::Project(Some(p))) => if p.owner_id != self.caller {
                new.stage is Finished && fails_with(step, CatalogError::NotOwner)
            } else {
                new.stage is Delete && step == Step::<Answer<()>>::Query(
                    DbOp::SoftDelete(self.project_id),
                )
            },
            (DeleteStage::Delete, Reply::Done) => new.stage is Finished && answers_ok(
                step,
                200,
                (),
                "Project deleted"@,
            ),
            (DeleteStage::Lookup, Reply::Failed(m)) | (DeleteStage::Delete, Reply::Failed(m)) =>
                new.stage is Finished && fails_with(step, CatalogError::Database(m)),
            _ => new.stage is Finished && fails_internally(step),
        }
    }

    pub fn resume(self, reply: Reply) -> (r: (Self, Step<Answer<()>>))
        ensures
            self.next(reply, r.0, r.1),
    {
        let done = DeleteProjectFlow { stage: DeleteStage::Finished, ..self };
        match (self.stage, reply) {
            (DeleteStage::Lookup, Reply::Project(None)) => (done, refuse(CatalogError::ProjectNotFound)),
            (DeleteStage::Lookup, Reply::Project(Some(p))) => if p.owner_id != self.caller {
                (done, refuse(CatalogError::NotOwner))
            } else {
                (
                    DeleteProjectFlow { stage: DeleteStage::Delete, ..self },
                    Step::Query(DbOp::SoftDelete(self.project_id)),
                )
            },
            (DeleteStage::Delete, Reply::Done) => (done, ok_answer(200, (), "Project deleted")),
            (DeleteStage::Lookup, Reply::Failed(m)) | (DeleteStage::Delete, Reply::Failed(m)) => (
                done,
                db_failure(m),
            ),
            _ => (done, unexpected()),
        }
    }
}

// ---------------------------------------------------------------------
// Setting the current version
// ---------------------------------------------------------------------
#[derive(Clone, Copy, Debug)]
pub enum SetCurrentStage {
    Lookup,
    Version,
    Update,
    Finished,
}

/// `PUT /projects/{id}/current-version`: only the owner, and only to a
/// version of this project.
#[derive(Clone, Copy, Debug)]
pub struct SetCurrentVersionFlow {
    pub project_id: u128,
    pub caller: u128,
    pub version_id: u128,
    pub stage: SetCurrentStage,
}

/// The refusal of a version of another project.
pub open spec fn foreign_version_message() -> Seq<char> {
    "version does not belong to this project"@
}

impl SetCurrentVersionFlow {
    pub fn start(project_id: u128, caller: u128, req: SetCurrentVersionRequest) -> (r: (
        Self,
        Step<Answer<()>>,
    ))
        ensures
            r.0.project_id == project_id,
            r.0.caller == caller,
            r.0.version_id == req.version_id,
            r.0.stage is Lookup,
            r.1 == Step::<Answer<()>>::Query(DbOp::GetProject(project_id)),
    {
        (
            SetCurrentVersionFlow {
                project_id,
                caller,
                version_id: req.version_id,
                stage: SetCurrentStage::Lookup,
            },
            Step::Query(DbOp::GetProject(project_id)),
        )
    }

    pub open spec fn next(self, reply: Reply, new: Self, step: Step<Answer<()>>) -> bool {
        &&& new.project_id == self.project_id
        &&& new.caller == self.caller
        &&& new.version_id == self.version_id
        &&& match (self.stage, reply) {
            (SetCurrentStage::Lookup, Reply::Project(None)) => new.stage is Finished && fails_with(
                step,
                CatalogError::ProjectNotFound,
            ),
            (SetCurrentStage::Lookup, Reply::Project(Some(p))) => if p.owner_id != self.caller {
                new.stage is Finished && fails_with(step, CatalogError::NotOwner)
            } else {
                new.stage is Version && step == Step::<Answer<()>>::Query(
                    DbOp::GetVersion(self.version_id),
                )
            },
            (SetCurrentStage::Version, Reply::Version(None)) => new.stage is Finished
                && fails_with(step, CatalogError::VersionNotFound),
            (SetCurrentStage::Version, Reply::Version(Some(v))) => if v.project_id
                != self.project_id {
                new.stage is Finished && (step matches Step::Finish(
                    Err(CatalogError::BadRequest(m)),
                ) && m@ == foreign_version_message())
            } else {
                new.stage is Update && step == Step::<Answer<()>>::Query(
                    DbOp::SetCurrentVersion { project_id: self.project_id, version_id: v.id },
                )
            },
            (SetCurrentStage::Update, Reply::Done) => new.stage is Finished && answers_ok(
                step,
                200,
                (),
                "Current version updated"@,
            ),
            (SetCurrentStage::Finished, _) => new.stage is Finished && fails_internally(step),
            (_, Reply::Failed(m)) => new.stage is Finished && fails_with(
                step,
                CatalogError::Database(m),
            ),
            _ => new.stage is Finished && fails_internally(step),
        }
    }

    pub fn resume(self, reply: Reply) -> (r: (Self, Step<Answer<()>>))
        ensures
            self.next(reply, r.0, r.1),
    {
        let done = SetCurrentVersionFlow { stage: SetCurrentStage::Finished, ..self };
        match (self.stage, reply) {
            (SetCurrentStage::Lookup, Reply::Project(None)) => (
                done,
                refuse(CatalogError::ProjectNotFound),
            ),
            (SetCurrentStage::Lookup, Reply::Project(Some(p))) => if p.owner_id != self.caller {
                (done, refuse(CatalogError::NotOwner))
            } else {
                (
                    SetCurrentVersionFlow { stage: SetCurrentStage::Version, ..self },
                    Step::Query(DbOp::GetVersion(self.version_id)),
                )
            },
            (SetCurrentStage::Version, Reply::Version(None)) => (
                done,
                refuse(CatalogError::VersionNotFound),
            ),
            (SetCurrentStage::Version, Reply::Version(Some(v))) => if v.project_id
                != self.project_id {
                (
                    done,
                    refuse(
                        CatalogError::BadRequest(owned("version does not belong to this project")),
                    ),
                )
            } else {
                (
                    SetCurrentVersionFlow { stage: SetCurrentStage::Update, ..self },
                    Step::Query(
                        DbOp::SetCurrentVersion { project_id: self.project_id, version_id: v.id },
                    ),
                )
            },
            (SetCurrentStage::Update, Reply::Done) => (
                done,
                ok_answer(200, (), "Current version updated"),
            ),
            (SetCurrentStage::Finished, _) => (done, unexpected()),
            (_, Reply::Failed(m)) => (done, db_failure(m)),
            _ => (done, unexpected()),
        }
    }
}

// ---------------------------------------------------------------------
// Creating a project
// ---------------------------------------------------------------------
#[derive(Clone, Debug)]
pub enum CreateStage {
    Begin,
    Insert { attempt: u32 },
    Tags { project: Project, index: usize },
    Categories { project: Project, index: usize },
    Commit { project: Project },
    Tail(ProjectTail),
    Finished,
}

/// `POST /projects`: validate the request, insert the project under its
/// slug (retrying `slug-1` ... `slug-20` on collisions), add its
/// normalized tags and categories in the same transaction, then answer
/// 201 with the project. The project starts unpublished.
#[derive(Clone, Debug)]
pub struct CreateProjectFlow {
    pub owner_id: u128,
    pub name: String,
    pub description: Option<String>,
    pub documentation_url: Option<String>,
    pub base_slug: String,
    pub tags: Vec<String>,
    pub categories: Vec<String>,
    pub stage: CreateStage,
}

/// `out` holds the normalized forms of `labels`, in order.
pub open spec fn labels_normalized(out: Vec<String>, labels: Vec<String>) -> bool {
    &&& out@.len() == labels@.len()
    &&& forall|i: int| 0 <= i < out@.len() ==> #[trigger] out@[i]@ == normalized_label(labels@[i]@)
}

impl CreateProjectFlow {
    /// The inputs a create flow carries through every stage.
    pub open spec fn same_inputs(self, other: Self) -> bool {
        &&& other.owner_id == self.owner_id
        &&& other.name == self.name
        &&& other.description == self.description
        &&& other.documentation_url == self.documentation_url
        &&& other.base_slug == self.base_slug
        &&& other.tags == self.tags
        &&& other.categories == self.categories
    }

    /// `step` inserts the project under the slug of `attempt`.
    pub open spec fn insert_step(self, attempt: u32, step: Step<Answer<ProjectDto>>) -> bool {
        step matches Step::Query(DbOp::InsertProject { name, slug, description, documentation_url, owner_id })
            && name == self.name && slug@ == slug_candidate(self.base_slug@, attempt)
            && description == self.description && documentation_url == self.documentation_url
            && owner_id == self.owner_id
    }

    /// Categories from `index` on, then the commit.
    pub open spec fn categories_from(self, project: Project, index: int, stage: CreateStage, step: Step<Answer<ProjectDto>>) -> bool {
        if index < self.categories@.len() {
            stage == CreateStage::Categories { project, index: index as usize } && step
                == Step::<Answer<ProjectDto>>::Query(
                DbOp::InsertCategory { project_id: project.id, category: self.categories@[index] },
            )
        } else {
            stage == CreateStage::Commit { project } && step == Step::<Answer<ProjectDto>>::Query(
                DbOp::Commit,
            )
        }
    }

    /// Tags from `index` on, then the categories.
    pub open spec fn tags_from(self, project: Project, index: int, stage: CreateStage, step: Step<Answer<ProjectDto>>) -> bool {
        if index < self.tags@.len() {
            stage == CreateStage::Tags { project, index: index as usize } && step
                == Step::<Answer<ProjectDto>>::Query(
                DbOp::InsertTag { project_id: project.id, tag: self.tags@[index] },
            )
        } else {
            self.categories_from(project, 0, stage, step)
        }
    }

    pub open spec fn next(self, reply: Reply, new: Self, step: Step<Answer<ProjectDto>>) -> bool {
        &&& self.same_inputs(new)
        &&& match (self.stage, reply) {
            (CreateStage::Begin, Reply::Done) => new.stage == CreateStage::Insert { attempt: 0 }
                && self.insert_step(0, step),
            (CreateStage::Insert { attempt }, Reply::Project(Some(p))) => self.tags_from(
                p,
                0,
                new.stage,
                step,
            ),
            (CreateStage::Insert { attempt }, Reply::UniqueViolation(m)) => if attempt
                < max_slug_retries() {
                new.stage == CreateStage::Insert { attempt: (attempt + 1) as u32 } && self.insert_step(
                    (attempt + 1) as u32,
                    step,
                )
            } else {
                new.stage is Finished && fails_with(step, CatalogError::Database(m))
            },
            (CreateStage::Tags { project, index }, Reply::Done) => self.tags_from(
                project,
                index + 1,
                new.stage,
                step,
            ),
            (CreateStage::Categories { project, index }, Reply::Done) => self.categories_from(
                project,
                index + 1,
                new.stage,
                step,
            ),
            (CreateStage::Commit { project }, Reply::Done) => new.stage matches CreateStage::Tail(t)
                && t.project == project && t.status == 201 && t.message@ == "Project created"@
                && t.stage is Tags && step == Step::<Answer<ProjectDto>>::Query(
                DbOp::TagsFor(project.id),
            ),
            (CreateStage::Tail(t), r) => match new.stage {
                CreateStage::Tail(x) => t.next(r, Some(x), step),
                CreateStage::Finished => t.next(r, None, step),
                _ => false,
            },
            (CreateStage::Finished, _) => new.stage is Finished && fails_internally(step),
            (_, Reply::Failed(m)) => new.stage is Finished && fails_with(
                step,
                CatalogError::Database(m),
            ),
            _ => new.stage is Finished && fails_internally(step),
        }
    }

    /// Start creating a project for `owner_id`.
    pub fn start(owner_id: u128, req: CreateProjectRequest) -> (r: (Self, Step<Answer<ProjectDto>>))
        ensures
            !req.spec_is_valid() ==> r.0.stage is Finished && (r.1 matches Step::Finish(
                Err(CatalogError::BadRequest(m)),
            ) && m@ == crate::models::violations_text(req.spec_violations())),
            req.spec_is_valid() && !name_long_enough(req.name@) ==> r.0.stage is Finished && (
            r.1 matches Step::Finish(Err(CatalogError::BadRequest(m))) && m@
                == short_name_message()),
            req.spec_is_valid() && name_long_enough(req.name@) ==> {
                &&& r.0.stage is Begin
                &&& r.1 == Step::<Answer<ProjectDto>>::Query(DbOp::Begin)
                &&& r.0.owner_id == owner_id
                &&& r.0.name == req.name
                &&& r.0.description == req.description
                &&& r.0.documentation_url == req.documentation_url
                &&& r.0.base_slug@ == slug_of(req.name@)
                &&& labels_normalized(r.0.tags, req.tags)
                &&& labels_normalized(r.0.categories, req.categories)
            },
    {
        let checked = req.validate();
        let base_slug = slugify(req.name.as_str());
        let tags = normalize_labels(&req.tags);
        let categories = normalize_labels(&req.categories);
        let long_enough = check_name_length(req.name.as_str());
        let flow = CreateProjectFlow {
            owner_id,
            name: req.name,
            description: req.description,
            documentation_url: req.documentation_url,
            base_slug,
            tags,
            categories,
            stage: CreateStage::Finished,
        };
        match checked {
            Err(m) => (flow, refuse(CatalogError::BadRequest(m))),
            Ok(()) => if !long_enough {
                (flow, refuse(short_name_error()))
            } else {
                (CreateProjectFlow { stage: CreateStage::Begin, ..flow }, Step::Query(DbOp::Begin))
            },
        }
    }

    fn make_insert(&self, attempt: u32) -> (step: Step<Answer<ProjectDto>>)
        ensures
            self.insert_step(attempt, step),
    {
        Step::Query(
            DbOp::InsertProject {
                name: self.name.clone(),
                slug: make_slug_candidate(self.base_slug.as_str(), attempt),
                description: clone_opt(&self.description),
                documentation_url: clone_opt(&self.documentation_url),
                owner_id: self.owner_id,
            },
        )
    }

    fn make_categories_from(&self, project: Project, index: usize) -> (r: (CreateStage, Step<Answer<ProjectDto>>))
        requires
            index <= self.categories@.len(),
        ensures
            self.categories_from(project, index as int, r.0, r.1),
    {
        if index < self.categories.len() {
            let id = project.id;
            (
                CreateStage::Categories { project, index },
                Step::Query(DbOp::InsertCategory { project_id: id, category: self.categories[index].clone() }),
            )
        } else {
            (CreateStage::Commit { project }, Step::Query(DbOp::Commit))
        }
    }

    fn make_tags_from(&self, project: Project, index: usize) -> (r: (CreateStage, Step<Answer<ProjectDto>>))
        requires
            index <= self.tags@.len(),
        ensures
            self.tags_from(project, index as int, r.0, r.1),
    {
        if index < self.tags.len() {
            let id = project.id;
            (
                CreateStage::Tags { project, index },
                Step::Query(DbOp::InsertTag { project_id: id, tag: self.tags[index].clone() }),
            )
        } else {
            self.make_categories_from(project, 0)
        }
    }

    /// Continue with the outcome of the last step.
    pub fn resume(self, reply: Reply) -> (r: (Self, Step<Answer<ProjectDto>>))
        ensures
            self.next(reply, r.0, r.1),
    {
        let stage = self.stage;
        let shell = CreateProjectFlow { stage: CreateStage::Finished, ..self };
        match (stage, reply) {
            (CreateStage::Begin, Reply::Done) => {
                let s = shell.make_insert(0);
                (CreateProjectFlow { stage: CreateStage::Insert { attempt: 0 }, ..shell }, s)
            },
            (CreateStage::Insert { attempt }, Reply::Project(Some(p))) => {
                let (st, s) = shell.make_tags_from(p, 0);
                (CreateProjectFlow { stage: st, ..shell }, s)
            },
            (CreateStage::Insert { attempt }, Reply::UniqueViolation(m)) => if attempt
                < slug_retry_limit() {
                let s = shell.make_insert(attempt + 1);
                (CreateProjectFlow { stage: CreateStage::Insert { attempt: attempt + 1 }, ..shell }, s)
            } else {
                (shell, db_failure(m))
            },
            (CreateStage::Tags { project, index }, Reply::Done) => {
                let n = shell.tags.len();
                let following = if index < n {
                    index + 1
                } else {
                    n
                };
                let (st, s) = shell.make_tags_from(project, following);
                (CreateProjectFlow { stage: st, ..shell }, s)
            },
            (CreateStage::Categories { project, index }, Reply::Done) => {
                let n = shell.categories.len();
                let following = if index < n {
                    index + 1
                } else {
                    n
                };
                let (st, s) = shell.make_categories_from(project, following);
                (CreateProjectFlow { stage: st, ..shell }, s)
            },
            (CreateStage::Commit { project }, Reply::Done) => {
                let (t, s) = ProjectTail::begin(project, 201, "Project created");
                (CreateProjectFlow { stage: CreateStage::Tail(t), ..shell }, s)
            },
            (CreateStage::Tail(t), r) => {
                let (nt, s) = t.resume(r);
                match nt {
                    Some(x) => (CreateProjectFlow { stage: CreateStage::Tail(x), ..shell }, s),
                    None => (shell, s),
                }
            },
            (CreateStage::Finished, _) => (shell, unexpected()),
            (_, Reply::Failed(m)) => (shell, db_failure(m)),
            _ => (shell, unexpected()),
        }
    }
}

/// A copy of a project row.
pub fn clone_project(p: &Project) -> (r: Project)
    ensures
        r == *p,
{
    Project {
        id: p.id,
        name: p.name.clone(),
        slug: p.slug.clone(),
        description: clone_opt(&p.description),
        documentation_url: clone_opt(&p.documentation_url),
        owner_id: p.owner_id,
        current_version_id: p.current_version_id,
        is_published: p.is_published,
        created_at: p.created_at,
        updated_at: p.updated_at,
        deleted_at: p.deleted_at,
        popularity_score_bits: p.popularity_score_bits,
    }
}

// ---------------------------------------------------------------------
// Updating metadata
// ---------------------------------------------------------------------
/// Which label list is being replaced.
#[derive(Clone, Copy, Debug, PartialEq, Eq, Structural)]
pub enum LabelKind {
    Tags,
    Categories,
}

/// Where a label replacement stands (its own transaction).
#[derive(Clone, Copy, Debug, PartialEq, Eq, Structural)]
pub enum ReplacePhase {
    Begin,
    Delete,
    Insert(usize),
    Commit,
}

#[derive(Clone, Debug)]
pub enum UpdateStage {
    Lookup,
    Begin,
    Lock,
    Update { before: MetadataSnapshot },
    History { after: Project },
    Commit { after: Project },
    Replace { after: Project, kind: LabelKind, phase: ReplacePhase },
    Tail(ProjectTail),
    Finished,
}

/// `PATCH /projects/{id}`: validate the request; only the owner may
/// update. In one transaction the locked row's metadata is merged with
/// the update and the change is recorded in the history; then each label
/// list the request gives replaces the stored one (each in its own
/// transaction); the answer is the updated project.
#[derive(Clone, Debug)]
pub struct UpdateMetadataFlow {
    pub project_id: u128,
    pub caller: u128,
    pub update: MetadataUpdate,
    pub tags: Option<Vec<String>>,
    pub categories: Option<Vec<String>>,
    pub stage: UpdateStage,
}

/// The normalized forms of an optional label list.
pub open spec fn opt_labels_normalized(out: Option<Vec<String>>, labels: Option<Vec<String>>) -> bool {
    match (out, labels) {
        (Some(o), Some(l)) => labels_normalized(o, l),
        (None, None) => true,
        _ => false,
    }
}

fn normalize_opt_labels(labels: &Option<Vec<String>>) -> (r: Option<Vec<String>>)
    ensures
        opt_labels_normalized(r, *labels),
{
    match labels {
        Some(l) => Some(normalize_labels(l)),
        None => None,
    }
}

fn clone_update(u: &MetadataUpdate) -> (r: MetadataUpdate)
    ensures
        r == *u,
{
    MetadataUpdate {
        name: clone_opt(&u.name),
        description: clone_opt(&u.description),
        documentation_url: clone_opt(&u.documentation_url),
    }
}

impl UpdateMetadataFlow {
    pub open spec fn same_inputs(self, other: Self) -> bool {
        &&& other.project_id == self.project_id
        &&& other.caller == self.caller
        &&& other.update == self.update
        &&& other.tags == self.tags
        &&& other.categories == self.categories
    }

    /// The labels of `kind` (empty when the request leaves them).
    pub open spec fn labels(self, kind: LabelKind) -> Seq<String> {
        match kind {
            LabelKind::Tags => match self.tags {
                Some(t) => t@,
                None => Seq::empty(),
            },
            LabelKind::Categories => match self.categories {
                Some(c) => c@,
                None => Seq::empty(),
            },
        }
    }

    /// Replacing `kind`, from label `index` on, then the commit.
    pub open spec fn insert_from(self, after: Project, kind: LabelKind, index: int, stage: UpdateStage, step: Step<Answer<ProjectDto>>) -> bool {
        if index < self.labels(kind).len() {
            stage == UpdateStage::Replace { after, kind, phase: ReplacePhase::Insert(index as usize) }
                && step == Step::<Answer<ProjectDto>>::Query(
                match kind {
                    LabelKind::Tags => DbOp::InsertTag { project_id: self.project_id, tag: self.labels(kind)[index] },
                    LabelKind::Categories => DbOp::InsertCategory {
                        project_id: self.project_id,
                        category: self.labels(kind)[index],
                    },
                },
            )
        } else {
            stage == UpdateStage::Replace { after, kind, phase: ReplacePhase::Commit } && step
                == Step::<Answer<ProjectDto>>::Query(DbOp::Commit)
        }
    }

    /// What follows the label lists from `kind` on: the next requested
    /// replacement, or the answer.
    pub open spec fn labels_from(self, after: Project, kind: LabelKind, stage: UpdateStage, step: Step<Answer<ProjectDto>>) -> bool {
        if kind == LabelKind::Tags && self.tags is Some {
            stage == UpdateStage::Replace { after, kind: LabelKind::Tags, phase: ReplacePhase::Begin }
                && step == Step::<Answer<ProjectDto>>::Query(DbOp::Begin)
        } else if self.categories is Some {
            stage == UpdateStage::Replace { after, kind: LabelKind::Categories, phase: ReplacePhase::Begin }
                && step == Step::<Answer<ProjectDto>>::Query(DbOp::Begin)
        } else {
            Self::answer_with(after, stage, step)
        }
    }

    /// Answer with the updated project and its labels.
    pub open spec fn answer_with(after: Project, stage: UpdateStage, step: Step<Answer<ProjectDto>>) -> bool {
        stage matches UpdateStage::Tail(t) && t.project == after && t.status == 200
            && t.message@ == "Project updated"@ && t.stage is Tags && step
            == Step::<Answer<ProjectDto>>::Query(DbOp::TagsFor(after.id))
    }

    pub open spec fn next(self, reply: Reply, new: Self, step: Step<Answer<ProjectDto>>) -> bool {
        &&& self.same_inputs(new)
        &&& match (self.stage, reply) {
            (UpdateStage::Lookup, Reply::Project(None)) => new.stage is Finished && fails_with(
                step,
                CatalogError::ProjectNotFound,
            ),
            (UpdateStage::Lookup, Reply::Project(Some(p))) => if p.owner_id != self.caller {
                new.stage is Finished && fails_with(step, CatalogError::NotOwner)
            } else {
                new.stage is Begin && step == Step::<Answer<ProjectDto>>::Query(DbOp::Begin)
            },
            (UpdateStage::Begin, Reply::Done) => new.stage is Lock && step
                == Step::<Answer<ProjectDto>>::Query(DbOp::LockProject(self.project_id)),
            (UpdateStage::Lock, Reply::Project(None)) => new.stage is Finished && fails_with(
                step,
                CatalogError::ProjectNotFound,
            ),
            (UpdateStage::Lock, Reply::Project(Some(before))) => new.stage == UpdateStage::Update {
                before: snapshot_of(before),
            } && step == Step::<Answer<ProjectDto>>::Query(
                DbOp::UpdateMetadata {
                    project_id: self.project_id,
                    metadata: merged(snapshot_of(before), self.update),
                },
            ),
            (UpdateStage::Update { before }, Reply::Project(Some(after))) => new.stage
                == UpdateStage::History { after } && step == Step::<Answer<ProjectDto>>::Query(
                DbOp::RecordHistory {
                    project_id: self.project_id,
                    changed_by: self.caller,
                    previous: before,
                    new: snapshot_of(after),
                },
            ),
            (UpdateStage::History { after }, Reply::Done) => new.stage == UpdateStage::Commit {
                after,
            } && step == Step::<Answer<ProjectDto>>::Query(DbOp::Commit),
            (UpdateStage::Commit { after }, Reply::Done) => self.labels_from(
                after,
                LabelKind::Tags,
                new.stage,
                step,
            ),
            (UpdateStage::Replace { after, kind, phase }, Reply::Done) => match phase {
                ReplacePhase::Begin => new.stage == UpdateStage::Replace {
                    after,
                    kind,
                    phase: ReplacePhase::Delete,
                } && step == Step::<Answer<ProjectDto>>::Query(
                    match kind {
                        LabelKind::Tags => DbOp::DeleteTags(self.project_id),
                        LabelKind::Categories => DbOp::DeleteCategories(self.project_id),
                    },
                ),
                ReplacePhase::Delete => self.insert_from(after, kind, 0, new.stage, step),
                ReplacePhase::Insert(i) => self.insert_from(after, kind, i + 1, new.stage, step),
                ReplacePhase::Commit => if kind == LabelKind::Tags {
                    self.labels_from(after, LabelKind::Categories, new.stage, step)
                } else {
                    Self::answer_with(after, new.stage, step)
                },
            },
            (UpdateStage::Tail(t), r) => match new.stage {
                UpdateStage::Tail(x) => t.next(r, Some(x), step),
                UpdateStage::Finished => t.next(r, None, step),
                _ => false,
            },
            (UpdateStage::Finished, _) => new.stage is Finished && fails_internally(step),
            (_, Reply::Failed(m)) => new.stage is Finished && fails_with(
                step,
                CatalogError::Database(m),
            ),
            _ => new.stage is Finished && fails_internally(step),
        }
    }

    /// Start updating project `project_id` for `caller`.
    pub fn start(project_id: u128, caller: u128, req: UpdateMetadataRequest) -> (r: (
        Self,
        Step<Answer<ProjectDto>>,
    ))
        ensures
            !req.spec_is_valid() ==> r.0.stage is Finished && (r.1 matches Step::Finish(
                Err(CatalogError::BadRequest(m)),
            ) && m@ == crate::models::violations_text(req.spec_violations())),
            req.spec_is_valid() ==> {
                &&& r.0.stage is Lookup
                &&& r.1 == Step::<Answer<ProjectDto>>::Query(DbOp::GetProject(project_id))
                &&& r.0.project_id == project_id
                &&& r.0.caller == caller
                &&& r.0.update == (MetadataUpdate {
                    name: req.name,
                    description: req.description,
                    documentation_url: req.documentation_url,
                })
                &&& opt_labels_normalized(r.0.tags, req.tags)
                &&& opt_labels_normalized(r.0.categories, req.categories)
            },
    {
        let checked = req.validate();
        let tags = normalize_opt_labels(&req.tags);
        let categories = normalize_opt_labels(&req.categories);
        let flow = UpdateMetadataFlow {
            project_id,
            caller,
            update: MetadataUpdate {
                name: req.name,
                description: req.description,
                documentation_url: req.documentation_url,
            },
            tags,
            categories,
            stage: UpdateStage::Finished,
        };
        match checked {
            Err(m) => (flow, refuse(CatalogError::BadRequest(m))),
            Ok(()) => (
                UpdateMetadataFlow { stage: UpdateStage::Lookup, ..flow },
                Step::Query(DbOp::GetProject(project_id)),
            ),
        }
    }

    fn label_count(&self, kind: LabelKind) -> (n: usize)
        ensures
            n == self.labels(kind).len(),
    {
        match kind {
            LabelKind::Tags => match &self.tags {
                Some(t) => t.len(),
                None => 0,
            },
            LabelKind::Categories => match &self.categories {
                Some(c) => c.len(),
                None => 0,
            },
        }
    }

    fn make_insert_from(&self, after: Project, kind: LabelKind, index: usize) -> (r: (UpdateStage, Step<Answer<ProjectDto>>))
        requires
            index <= self.labels(kind).len(),
        ensures
            self.insert_from(after, kind, index as int, r.0, r.1),
    {
        if index < self.label_count(kind) {
            let op = match kind {
                LabelKind::Tags => {
                    let t = match &self.tags {
                        Some(t) => t[index].clone(),
                        None => String::new(),
                    };
                    DbOp::InsertTag { project_id: self.project_id, tag: t }
                },
                LabelKind::Categories => {
                    let c = match &self.categories {
                        Some(c) => c[index].clone(),
                        None => String::new(),
                    };
                    DbOp::InsertCategory { project_id: self.project_id, category: c }
                },
            };
            (UpdateStage::Replace { after, kind, phase: ReplacePhase::Insert(index) }, Step::Query(op))
        } else {
            (UpdateStage::Replace { after, kind, phase: ReplacePhase::Commit }, Step::Query(DbOp::Commit))
        }
    }

    fn make_labels_from(&self, after: Project, kind: LabelKind) -> (r: (UpdateStage, Step<Answer<ProjectDto>>))
        ensures
            self.labels_from(after, kind, r.0, r.1),
    {
        if kind == LabelKind::Tags && self.tags.is_some() {
            (
                UpdateStage::Replace { after, kind: LabelKind::Tags, phase: ReplacePhase::Begin },
                Step::Query(DbOp::Begin),
            )
        } else if self.categories.is_some() {
            (
                UpdateStage::Replace { after, kind: LabelKind::Categories, phase: ReplacePhase::Begin },
                Step::Query(DbOp::Begin),
            )
        } else {
            let (t, s) = ProjectTail::begin(after, 200, "Project updated");
            (UpdateStage::Tail(t), s)
        }
    }

    /// Continue with the outcome of the last step.
    pub fn resume(self, reply: Reply) -> (r: (Self, Step<Answer<ProjectDto>>))
        ensures
            self.next(reply, r.0, r.1),
    {
        let stage = self.stage;
        let shell = UpdateMetadataFlow { stage: UpdateStage::Finished, ..self };
        match (stage, reply) {
            (UpdateStage::Lookup, Reply::Project(None)) => (shell, refuse(CatalogError::ProjectNotFound)),
            (UpdateStage::Lookup, Reply::Project(Some(p))) => if p.owner_id != shell.caller {
                (shell, refuse(CatalogError::NotOwner))
            } else {
                (UpdateMetadataFlow { stage: UpdateStage::Begin, ..shell }, Step::Query(DbOp::Begin))
            },
            (UpdateStage::Begin, Reply::Done) => {
                let id = shell.project_id;
                (UpdateMetadataFlow { stage: UpdateStage::Lock, ..shell }, Step::Query(DbOp::LockProject(id)))
            },
            (UpdateStage::Lock, Reply::Project(None)) => (shell, refuse(CatalogError::ProjectNotFound)),
            (UpdateStage::Lock, Reply::Project(Some(before))) => {
                let metadata = merge_metadata(&before, clone_update(&shell.update));
                let snap = take_snapshot(&before);
                let id = shell.project_id;
                (
                    UpdateMetadataFlow { stage: UpdateStage::Update { before: snap }, ..shell },
                    Step::Query(DbOp::UpdateMetadata { project_id: id, metadata }),
                )
            },
            (UpdateStage::Update { before }, Reply::Project(Some(after))) => {
                let new_snap = take_snapshot(&after);
                let op = DbOp::RecordHistory {
                    project_id: shell.project_id,
                    changed_by: shell.caller,
                    previous: before,
                    new: new_snap,
                };
                (UpdateMetadataFlow { stage: UpdateStage::History { after }, ..shell }, Step::Query(op))
            },
            (UpdateStage::History { after }, Reply::Done) => (
                UpdateMetadataFlow { stage: UpdateStage::Commit { after }, ..shell },
                Step::Query(DbOp::Commit),
            ),
            (UpdateStage::Commit { after }, Reply::Done) => {
                let (st, s) = shell.make_labels_from(after, LabelKind::Tags);
                (UpdateMetadataFlow { stage: st, ..shell }, s)
            },
            (UpdateStage::Replace { after, kind, phase }, Reply::Done) => match phase {
                ReplacePhase::Begin => {
                    let op = match kind {
                        LabelKind::Tags => DbOp::DeleteTags(shell.project_id),
                        LabelKind::Categories => DbOp::DeleteCategories(shell.project_id),
                    };
                    (
                        UpdateMetadataFlow {
                            stage: UpdateStage::Replace { after, kind, phase: ReplacePhase::Delete },
                            ..shell
                        },
                        Step::Query(op),
                    )
                },
                ReplacePhase::Delete => {
                    let (st, s) = shell.make_insert_from(after, kind, 0);
                    (UpdateMetadataFlow { stage: st, ..shell }, s)
                },
                ReplacePhase::Insert(i) => {
                    let n = shell.label_count(kind);
                    let following = if i < n {
                        i + 1
                    } else {
                        n
                    };
                    let (st, s) = shell.make_insert_from(after, kind, following);
                    (UpdateMetadataFlow { stage: st, ..shell }, s)
                },
                ReplacePhase::Commit => if kind == LabelKind::Tags {
                    let (st, s) = shell.make_labels_from(after, LabelKind::Categories);
                    (UpdateMetadataFlow { stage: st, ..shell }, s)
                } else {
                    let (t, s) = ProjectTail::begin(after, 200, "Project updated");
                    (UpdateMetadataFlow { stage: UpdateStage::Tail(t), ..shell }, s)
                },
            },
            (UpdateStage::Tail(t), r) => {
                let (nt, s) = t.resume(r);
                match nt {
                    Some(x) => (UpdateMetadataFlow { stage: UpdateStage::Tail(x), ..shell }, s),
                    None => (shell, s),
                }
            },
            (UpdateStage::Finished, _) => (shell, unexpected()),
            (_, Reply::Failed(m)) => (shell, db_failure(m)),
            _ => (shell, unexpected()),
        }
    }
}

} // verus!
