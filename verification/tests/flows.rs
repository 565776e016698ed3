use catalog::checksum::artifact_checksum;
use catalog::domain::errors::CatalogError;
use catalog::domain::project::Project;
use catalog::domain::version::{ValidationStatus, Version};
use catalog::events::CatalogEvent;
use catalog::handlers::discovery::DiscoverFlow;
use catalog::handlers::projects::{
    CreateProjectFlow, DeleteProjectFlow, GetProjectFlow, SetCurrentVersionFlow, UpdateMetadataFlow,
};
use catalog::handlers::versions::{
    read_upload, GetVersionFlow, ListVersionsFlow, UploadAnswer, UploadVersionFlow, YankFlow,
};
use catalog::handlers::{DbOp, Reply, Step, UploadError, UploadField};
use catalog::models::{
    CreateProjectRequest, SetCurrentVersionRequest, UpdateMetadataRequest, YankRequest,
};
use catalog::search::DiscoveryQuery;
use catalog::validation::{StageReport, ValidationResult};

const OWNER: u128 = 0xaa;
const OTHER: u128 = 0xbb;

fn project(id: u128, owner: u128) -> Project {
    Project {
        id,
        name: "Demo".to_string(),
        slug: "demo".to_string(),
        description: None,
        documentation_url: None,
        owner_id: owner,
        current_version_id: None,
        is_published: false,
        created_at: 1,
        updated_at: 1,
        deleted_at: None,
        popularity_score_bits: 0,
    }
}

fn version(id: u128, project_id: u128, yanked: bool) -> Version {
    Version {
        id,
        project_id,
        version_tag: "v1.0.0".to_string(),
        artifact_url: "file:///store/x.tar.gz".to_string(),
        artifact_size: 3,
        checksum: "x".to_string(),
        is_yanked: yanked,
        yank_reason: if yanked { Some("broken".to_string()) } else { None },
        yanked_at: None,
        yanked_by: None,
        unyanked_at: None,
        unyanked_by: None,
        validation_status: "passed".to_string(),
        validation_details: None,
        developer_id: OWNER,
        created_at: 2,
        validated_at: Some(2),
    }
}

fn is_internal<A>(s: &Step<A>) -> bool {
    matches!(s, Step::Finish(Err(CatalogError::Internal(_))))
}

#[test]
fn sha256_checksum_of_abc() {
    assert_eq!(
        artifact_checksum(b"abc"),
        "ba7816bf8f01cfea414140de5dae2223b00361a396177a9cb410ff61f20015ad"
    );
    assert_eq!(
        artifact_checksum(b""),
        "e3b0c44298fc1c149afbf4c8996fb92427ae41e4649b934ca495991b7852b855"
    );
}

#[test]
fn owner_deletes_project() {
    let (f, s) = DeleteProjectFlow::start(1, OWNER);
    assert!(matches!(s, Step::Query(DbOp::GetProject(1))));
    let (f, s) = f.resume(Reply::Project(Some(project(1, OWNER))));
    assert!(matches!(s, Step::Query(DbOp::SoftDelete(1))));
    let (f, s) = f.resume(Reply::Done);
    match s {
        Step::Finish(Ok(a)) => {
            assert_eq!(a.status, 200);
            assert!(a.body.success);
            assert_eq!(a.body.message, "Project deleted");
        }
        _ => panic!("expected an answer"),
    }
    let (_, s) = f.resume(Reply::Done);
    assert!(is_internal(&s));
}

#[test]
fn stranger_cannot_delete_project() {
    let (f, _) = DeleteProjectFlow::start(1, OTHER);
    let (_, s) = f.resume(Reply::Project(Some(project(1, OWNER))));
    assert!(matches!(s, Step::Finish(Err(CatalogError::NotOwner))));
    let (f, _) = DeleteProjectFlow::start(1, OWNER);
    let (_, s) = f.resume(Reply::Project(None));
    assert!(matches!(s, Step::Finish(Err(CatalogError::ProjectNotFound))));
    let (f, _) = DeleteProjectFlow::start(1, OWNER);
    let (_, s) = f.resume(Reply::Failed("connection reset".to_string()));
    assert!(matches!(s, Step::Finish(Err(CatalogError::Database(m))) if m == "connection reset"));
}

#[test]
fn current_version_must_belong_to_project() {
    let req = SetCurrentVersionRequest { version_id: 9 };
    let (f, _) = SetCurrentVersionFlow::start(1, OWNER, req);
    let (f, s) = f.resume(Reply::Project(Some(project(1, OWNER))));
    assert!(matches!(s, Step::Query(DbOp::GetVersion(9))));
    let (_, s) = f.resume(Reply::Version(Some(version(9, 2, false))));
    assert!(matches!(s, Step::Finish(Err(CatalogError::BadRequest(m))) if m == "version does not belong to this project"));

    let (f, _) = SetCurrentVersionFlow::start(1, OWNER, req);
    let (f, _) = f.resume(Reply::Project(Some(project(1, OWNER))));
    let (f, s) = f.resume(Reply::Version(Some(version(9, 1, false))));
    assert!(matches!(s, Step::Query(DbOp::SetCurrentVersion { project_id: 1, version_id: 9 })));
    let (_, s) = f.resume(Reply::Done);
    assert!(matches!(s, Step::Finish(Ok(a)) if a.body.message == "Current version updated"));
}

#[test]
fn yank_runs_checks_in_order() {
    let (f, s) = YankFlow::yank(1, 9, OWNER, YankRequest { reason: Some("cve".to_string()) });
    assert!(matches!(s, Step::Query(DbOp::GetVersion(9))));
    let (f, s) = f.resume(Reply::Version(Some(version(9, 1, false))));
    assert!(matches!(s, Step::Query(DbOp::VersionOwner(9))));
    let (f, s) = f.resume(Reply::Owner(Some(OWNER)));
    assert!(matches!(s, Step::Query(DbOp::GetVersion(9))));
    let (f, s) = f.resume(Reply::Version(Some(version(9, 1, false))));
    match &s {
        Step::Query(DbOp::Yank { version_id, reason, yanked_by }) => {
            assert_eq!(*version_id, 9);
            assert_eq!(reason.as_deref(), Some("cve"));
            assert_eq!(*yanked_by, OWNER);
        }
        _ => panic!("expected the yank"),
    }
    let (f, s) = f.resume(Reply::Done);
    assert!(matches!(s, Step::Query(DbOp::GetVersion(9))));
    let (f, s) = f.resume(Reply::Version(Some(version(9, 1, true))));
    match &s {
        Step::Publish(CatalogEvent::Yanked(e)) => {
            assert_eq!(e.version_id, 9);
            assert_eq!(e.project_id, 1);
            assert_eq!(e.developer_id, OWNER);
            assert_eq!(e.reason.as_deref(), Some("broken"));
        }
        _ => panic!("expected the announcement"),
    }
    let (_, s) = f.resume(Reply::Published);
    match s {
        Step::Finish(Ok(a)) => {
            assert_eq!(a.status, 200);
            assert_eq!(a.body.message, "Version yanked");
            assert!(a.body.data.unwrap().is_yanked);
        }
        _ => panic!("expected an answer"),
    }
}

#[test]
fn yank_refusals() {
    // A version of another project is not found, before anything else.
    let (f, _) = YankFlow::yank(1, 9, OWNER, YankRequest { reason: None });
    let (_, s) = f.resume(Reply::Version(Some(version(9, 2, false))));
    assert!(matches!(s, Step::Finish(Err(CatalogError::VersionNotFound))));
    // Only the owner.
    let (f, _) = YankFlow::yank(1, 9, OTHER, YankRequest { reason: None });
    let (f, _) = f.resume(Reply::Version(Some(version(9, 1, false))));
    let (_, s) = f.resume(Reply::Owner(Some(OWNER)));
    assert!(matches!(s, Step::Finish(Err(CatalogError::NotOwner))));
    // Already yanked.
    let (f, _) = YankFlow::yank(1, 9, OWNER, YankRequest { reason: None });
    let (f, _) = f.resume(Reply::Version(Some(version(9, 1, true))));
    let (f, _) = f.resume(Reply::Owner(Some(OWNER)));
    let (_, s) = f.resume(Reply::Version(Some(version(9, 1, true))));
    assert!(matches!(s, Step::Finish(Err(CatalogError::AlreadyYanked))));
    // Un-yanking a version never yanked.
    let (f, _) = YankFlow::unyank(1, 9, OWNER);
    let (f, _) = f.resume(Reply::Version(Some(version(9, 1, false))));
    let (f, _) = f.resume(Reply::Owner(Some(OWNER)));
    let (_, s) = f.resume(Reply::Version(Some(version(9, 1, false))));
    assert!(matches!(s, Step::Finish(Err(CatalogError::NotYanked))));
}

#[test]
fn unyank_announces_and_answers() {
    let (f, _) = YankFlow::unyank(1, 9, OWNER);
    let (f, _) = f.resume(Reply::Version(Some(version(9, 1, true))));
    let (f, _) = f.resume(Reply::Owner(Some(OWNER)));
    let (f, s) = f.resume(Reply::Version(Some(version(9, 1, true))));
    assert!(matches!(s, Step::Query(DbOp::Unyank { version_id: 9, unyanked_by: OWNER })));
    let (f, _) = f.resume(Reply::Done);
    let (f, s) = f.resume(Reply::Version(Some(version(9, 1, false))));
    assert!(matches!(s, Step::Publish(CatalogEvent::Unyanked(_))));
    let (_, s) = f.resume(Reply::Published);
    assert!(matches!(s, Step::Finish(Ok(a)) if a.body.message == "Version un-yanked"));
}

fn upload_fields(tag: &str, artifact: &[u8]) -> Vec<UploadField> {
    vec![
        UploadField { name: "version_tag".to_string(), data: tag.as_bytes().to_vec() },
        UploadField { name: "notes".to_string(), data: b"ignored".to_vec() },
        UploadField { name: "artifact".to_string(), data: artifact.to_vec() },
    ]
}

#[test]
fn upload_reads_tag_and_artifact() {
    let (tag, artifact) = read_upload(upload_fields("  v2 \n", b"abc"));
    assert_eq!(tag.as_deref(), Some("v2"));
    assert_eq!(artifact, Some(b"abc".to_vec()));
    let (tag, artifact) = read_upload(vec![]);
    assert_eq!(tag, None);
    assert_eq!(artifact, None);
}

#[test]
fn accepted_upload_is_stored_recorded_and_announced() {
    let (f, s) = UploadVersionFlow::start(1, OWNER);
    assert!(matches!(s, Step::Query(DbOp::GetProject(1))));
    let (f, s) = f.resume(Reply::Project(Some(project(1, OWNER))));
    assert!(matches!(s, Step::ReadUpload));
    let (f, s) = f.resume(Reply::Upload(upload_fields("v1.0.0", b"abc")));
    assert!(matches!(s, Step::Validate));
    assert_eq!(f.artifact, b"abc".to_vec());
    let report = ValidationResult {
        passed: true,
        reports: vec![StageReport { stage: "size_limit", passed: true, message: "3 bytes (limit 10)".to_string() }],
    };
    let (f, s) = f.resume(Reply::Validated(report));
    let key = "ba7816bf8f01cfea414140de5dae2223b00361a396177a9cb410ff61f20015ad";
    assert!(matches!(&s, Step::StoreArtifact { key: k } if k == key));
    let url = format!("file:///store/{key}.tar.gz");
    let (f, s) = f.resume(Reply::Stored(url.clone()));
    match &s {
        Step::Query(DbOp::InsertVersion(nv)) => {
            assert_eq!(nv.project_id, 1);
            assert_eq!(nv.version_tag, "v1.0.0");
            assert_eq!(nv.artifact_url, url);
            assert_eq!(nv.artifact_size, 3);
            assert_eq!(nv.checksum, key);
            assert_eq!(nv.developer_id, OWNER);
        }
        _ => panic!("expected the insert"),
    }
    let (f, s) = f.resume(Reply::Version(Some(version(9, 1, false))));
    assert!(matches!(&s, Step::Query(DbOp::MarkValidated { version_id: 9, status: ValidationStatus::Passed, .. })));
    let (f, s) = f.resume(Reply::Done);
    assert!(matches!(s, Step::Query(DbOp::PublishProject(1))));
    let (f, s) = f.resume(Reply::Done);
    assert!(matches!(s, Step::Query(DbOp::SetCurrentVersion { project_id: 1, version_id: 9 })));
    let (f, s) = f.resume(Reply::Done);
    match &s {
        Step::Publish(CatalogEvent::Published(e)) => {
            assert_eq!(e.version_id, 9);
            assert_eq!(e.version_tag, "v1.0.0");
            assert_eq!(e.developer_id, OWNER);
        }
        _ => panic!("expected the announcement"),
    }
    let (f, s) = f.resume(Reply::Published);
    assert!(matches!(s, Step::Query(DbOp::GetVersion(9))));
    let (_, s) = f.resume(Reply::Version(Some(version(9, 1, false))));
    match s {
        Step::Finish(Ok(a)) => {
            assert_eq!(a.status(), 201);
            match a {
                UploadAnswer::Published(x) => assert_eq!(x.body.message, "Version published"),
                UploadAnswer::Rejected(_) => panic!("expected the published version"),
            }
        }
        _ => panic!("expected an answer"),
    }
}

#[test]
fn rejected_upload_is_answered_with_its_report() {
    let (f, _) = UploadVersionFlow::start(1, OWNER);
    let (f, _) = f.resume(Reply::Project(Some(project(1, OWNER))));
    let (f, _) = f.resume(Reply::Upload(upload_fields("v1", b"xyz")));
    let report = ValidationResult {
        passed: false,
        reports: vec![StageReport { stage: "size_limit", passed: false, message: "too big".to_string() }],
    };
    let (f, s) = f.resume(Reply::Validated(report));
    match s {
        Step::Finish(Ok(a)) => {
            assert_eq!(a.status(), 400);
            match a {
                UploadAnswer::Rejected(r) => {
                    assert!(!r.passed);
                    assert_eq!(r.reports[0].message, "too big");
                }
                UploadAnswer::Published(_) => panic!("expected the report"),
            }
        }
        _ => panic!("expected an answer"),
    }
    let (_, s) = f.resume(Reply::Stored("file:///x".to_string()));
    assert!(is_internal(&s));
}

#[test]
fn upload_needs_owner_tag_and_artifact() {
    let (f, _) = UploadVersionFlow::start(1, OTHER);
    let (_, s) = f.resume(Reply::Project(Some(project(1, OWNER))));
    assert!(matches!(s, Step::Finish(Err(CatalogError::NotOwner))));

    let (f, _) = UploadVersionFlow::start(1, OWNER);
    let (f, _) = f.resume(Reply::Project(Some(project(1, OWNER))));
    let (_, s) = f.resume(Reply::Upload(upload_fields("   ", b"abc")));
    assert!(matches!(s, Step::Finish(Err(CatalogError::BadRequest(m))) if m == "version_tag field is required"));

    let (f, _) = UploadVersionFlow::start(1, OWNER);
    let (f, _) = f.resume(Reply::Project(Some(project(1, OWNER))));
    let fields = vec![UploadField { name: "version_tag".to_string(), data: b"v1".to_vec() }];
    let (_, s) = f.resume(Reply::Upload(fields));
    assert!(matches!(s, Step::Finish(Err(CatalogError::BadRequest(m))) if m == "artifact field (file) is required"));

    let (f, _) = UploadVersionFlow::start(1, OWNER);
    let (f, _) = f.resume(Reply::Project(Some(project(1, OWNER))));
    let (_, s) = f.resume(Reply::UploadFailed(UploadError::Malformed("boundary".to_string())));
    assert!(matches!(s, Step::Finish(Err(CatalogError::BadRequest(m))) if m == "malformed multipart body: boundary"));
}

#[test]
fn duplicate_tag_is_a_conflict() {
    let (f, _) = UploadVersionFlow::start(1, OWNER);
    let (f, _) = f.resume(Reply::Project(Some(project(1, OWNER))));
    let (f, _) = f.resume(Reply::Upload(upload_fields("v1", b"abc")));
    let (f, _) = f.resume(Reply::Validated(ValidationResult { passed: true, reports: vec![] }));
    let (f, _) = f.resume(Reply::Stored("file:///x".to_string()));
    let (_, s) = f.resume(Reply::UniqueViolation("duplicate key".to_string()));
    assert!(matches!(s, Step::Finish(Err(CatalogError::VersionTagTaken))));
}

fn create_request(name: &str) -> CreateProjectRequest {
    CreateProjectRequest {
        name: name.to_string(),
        description: None,
        documentation_url: None,
        tags: vec![" Web ".to_string()],
        categories: vec![],
    }
}

#[test]
fn create_retries_taken_slugs() {
    let (f, s) = CreateProjectFlow::start(OWNER, create_request("My Tool"));
    assert!(matches!(s, Step::Query(DbOp::Begin)));
    assert_eq!(f.base_slug, "my-tool");
    assert_eq!(f.tags, vec!["web".to_string()]);
    let (f, s) = f.resume(Reply::Done);
    assert!(matches!(&s, Step::Query(DbOp::InsertProject { slug, .. }) if slug == "my-tool"));
    let (f, s) = f.resume(Reply::UniqueViolation("slug".to_string()));
    assert!(matches!(&s, Step::Query(DbOp::InsertProject { slug, .. }) if slug == "my-tool-1"));
    let (f, s) = f.resume(Reply::Project(Some(project(5, OWNER))));
    assert!(matches!(&s, Step::Query(DbOp::InsertTag { project_id: 5, tag }) if tag == "web"));
    let (f, s) = f.resume(Reply::Done);
    assert!(matches!(s, Step::Query(DbOp::Commit)));
    let (f, s) = f.resume(Reply::Done);
    assert!(matches!(s, Step::Query(DbOp::TagsFor(5))));
    let (f, s) = f.resume(Reply::Labels(vec!["web".to_string()]));
    assert!(matches!(s, Step::Query(DbOp::CategoriesFor(5))));
    let (_, s) = f.resume(Reply::Labels(vec![]));
    match s {
        Step::Finish(Ok(a)) => {
            assert_eq!(a.status, 201);
            assert_eq!(a.body.message, "Project created");
            assert_eq!(a.body.data.unwrap().tags, vec!["web".to_string()]);
        }
        _ => panic!("expected an answer"),
    }
}

#[test]
fn create_gives_up_after_the_last_candidate() {
    let (mut f, _) = CreateProjectFlow::start(OWNER, create_request("Busy"));
    let (g, _) = f.resume(Reply::Done);
    f = g;
    for attempt in 1..=20 {
        let (g, s) = f.resume(Reply::UniqueViolation("taken".to_string()));
        let expected = format!("busy-{attempt}");
        assert!(matches!(&s, Step::Query(DbOp::InsertProject { slug, .. }) if *slug == expected));
        f = g;
    }
    let (_, s) = f.resume(Reply::UniqueViolation("taken".to_string()));
    assert!(matches!(s, Step::Finish(Err(CatalogError::Database(m))) if m == "taken"));
}

#[test]
fn create_rejects_invalid_requests() {
    let (_, s) = CreateProjectFlow::start(OWNER, create_request("ab"));
    match s {
        Step::Finish(Err(CatalogError::BadRequest(m))) => {
            assert!(m.starts_with("name: Validation error: length"));
        }
        _ => panic!("expected a bad request"),
    }
    let (_, s) = CreateProjectFlow::start(OWNER, create_request("  ab  "));
    assert!(matches!(s, Step::Finish(Err(CatalogError::BadRequest(m))) if m == "project name must be at least 3 characters"));
    let mut req = create_request("Good name");
    req.documentation_url = Some("not a url".to_string());
    let (_, s) = CreateProjectFlow::start(OWNER, req);
    assert!(matches!(s, Step::Finish(Err(CatalogError::BadRequest(m))) if m.starts_with("documentation_url: Validation error: url")));
}

#[test]
fn update_merges_and_replaces_labels() {
    let req = UpdateMetadataRequest {
        name: Some("Renamed".to_string()),
        description: None,
        documentation_url: None,
        tags: Some(vec!["CLI".to_string()]),
        categories: None,
    };
    let (f, s) = UpdateMetadataFlow::start(1, OWNER, req);
    assert!(matches!(s, Step::Query(DbOp::GetProject(1))));
    let (f, s) = f.resume(Reply::Project(Some(project(1, OWNER))));
    assert!(matches!(s, Step::Query(DbOp::Begin)));
    let (f, s) = f.resume(Reply::Done);
    assert!(matches!(s, Step::Query(DbOp::LockProject(1))));
    let (f, s) = f.resume(Reply::Project(Some(project(1, OWNER))));
    assert!(matches!(&s, Step::Query(DbOp::UpdateMetadata { project_id: 1, metadata }) if metadata.name == "Renamed"));
    let mut after = project(1, OWNER);
    after.name = "Renamed".to_string();
    let (f, s) = f.resume(Reply::Project(Some(after)));
    assert!(matches!(&s, Step::Query(DbOp::RecordHistory { previous, new, changed_by: OWNER, .. }) if previous.name == "Demo" && new.name == "Renamed"));
    let (f, s) = f.resume(Reply::Done);
    assert!(matches!(s, Step::Query(DbOp::Commit)));
    let (f, s) = f.resume(Reply::Done);
    assert!(matches!(s, Step::Query(DbOp::Begin)));
    let (f, s) = f.resume(Reply::Done);
    assert!(matches!(s, Step::Query(DbOp::DeleteTags(1))));
    let (f, s) = f.resume(Reply::Done);
    assert!(matches!(&s, Step::Query(DbOp::InsertTag { project_id: 1, tag }) if tag == "cli"));
    let (f, s) = f.resume(Reply::Done);
    assert!(matches!(s, Step::Query(DbOp::Commit)));
    let (f, s) = f.resume(Reply::Done);
    assert!(matches!(s, Step::Query(DbOp::TagsFor(1))));
    let (f, _) = f.resume(Reply::Labels(vec!["cli".to_string()]));
    let (_, s) = f.resume(Reply::Labels(vec![]));
    match s {
        Step::Finish(Ok(a)) => {
            assert_eq!(a.status, 200);
            assert_eq!(a.body.message, "Project updated");
            assert_eq!(a.body.data.unwrap().name, "Renamed");
        }
        _ => panic!("expected an answer"),
    }
}

#[test]
fn update_refuses_strangers() {
    let req = UpdateMetadataRequest { name: None, description: None, documentation_url: None, tags: None, categories: None };
    let (f, _) = UpdateMetadataFlow::start(1, OTHER, req);
    let (_, s) = f.resume(Reply::Project(Some(project(1, OWNER))));
    assert!(matches!(s, Step::Finish(Err(CatalogError::NotOwner))));
}

#[test]
fn get_project_attaches_labels() {
    let (f, s) = GetProjectFlow::by_slug("demo".to_string());
    assert!(matches!(&s, Step::Query(DbOp::GetProjectBySlug(x)) if x == "demo"));
    let (f, _) = f.resume(Reply::Project(Some(project(3, OWNER))));
    let (f, _) = f.resume(Reply::Labels(vec!["a".to_string()]));
    let (_, s) = f.resume(Reply::Labels(vec!["b".to_string()]));
    match s {
        Step::Finish(Ok(a)) => {
            let d = a.body.data.unwrap();
            assert_eq!(d.id, 3);
            assert_eq!(d.tags, vec!["a".to_string()]);
            assert_eq!(d.categories, vec!["b".to_string()]);
        }
        _ => panic!("expected an answer"),
    }
    let (f, _) = GetProjectFlow::by_id(4);
    let (_, s) = f.resume(Reply::Project(None));
    assert!(matches!(s, Step::Finish(Err(CatalogError::ProjectNotFound))));
}

#[test]
fn versions_are_listed_and_read() {
    let (f, s) = ListVersionsFlow::start(1);
    assert!(matches!(s, Step::Query(DbOp::ListVersions(1))));
    let (_, s) = f.resume(Reply::Versions(vec![version(2, 1, false), version(1, 1, true)]));
    match s {
        Step::Finish(Ok(a)) => {
            let d = a.body.data.unwrap();
            assert_eq!(d.len(), 2);
            assert_eq!(d[0].id, 2);
            assert!(d[1].is_yanked);
        }
        _ => panic!("expected an answer"),
    }
    let (f, _) = GetVersionFlow::start(1, 9);
    let (_, s) = f.resume(Reply::Version(Some(version(9, 1, false))));
    assert!(matches!(s, Step::Finish(Ok(a)) if a.body.data.as_ref().unwrap().eligible_for_new_deployment));
    let (f, _) = GetVersionFlow::start(1, 9);
    let (_, s) = f.resume(Reply::Version(Some(version(9, 1, true))));
    assert!(matches!(s, Step::Finish(Ok(a)) if !a.body.data.as_ref().unwrap().eligible_for_new_deployment));
    let (f, _) = GetVersionFlow::start(1, 9);
    let (_, s) = f.resume(Reply::Version(Some(version(9, 2, false))));
    assert!(matches!(s, Step::Finish(Err(CatalogError::VersionNotFound))));
}

#[test]
fn discovery_page_attaches_labels() {
    let q = DiscoveryQuery { q: None, tags: None, categories: None, author_id: None, sort: None, page: 2, page_size: 5 };
    let (f, s) = DiscoverFlow::start(q);
    assert!(matches!(&s, Step::Query(DbOp::Discover(p)) if p.offset == 5 && p.limit == 5));
    let (f, s) = f.resume(Reply::Page { rows: vec![project(3, OWNER)], total: Some(6) });
    assert!(matches!(s, Step::Query(DbOp::TagsFor(3))));
    let (f, s) = f.resume(Reply::Labels(vec!["t".to_string()]));
    assert!(matches!(s, Step::Query(DbOp::CategoriesFor(3))));
    let (_, s) = f.resume(Reply::Labels(vec![]));
    match s {
        Step::Finish(Ok(a)) => {
            let page = a.body.data.unwrap();
            assert_eq!((page.page, page.page_size, page.total), (2, 5, 6));
            assert_eq!(page.items.len(), 1);
            assert_eq!(page.items[0].tags, vec!["t".to_string()]);
        }
        _ => panic!("expected an answer"),
    }
    let (f, _) = DiscoverFlow::start(DiscoveryQuery { q: None, tags: None, categories: None, author_id: None, sort: None, page: 1, page_size: 20 });
    let (_, s) = f.resume(Reply::Page { rows: vec![], total: None });
    assert!(matches!(s, Step::Finish(Ok(a)) if a.body.data.as_ref().unwrap().total == 0));
}

#[test]
fn yank_then_unyank_restores_the_version() {
    let v0 = version(9, 1, false);
    let mut v1 = v0.clone();
    v1.is_yanked = true;
    v1.yank_reason = Some("cve".to_string());
    v1.yanked_by = Some(OWNER);
    let mut v2 = v1.clone();
    v2.is_yanked = false;
    v2.unyanked_by = Some(OWNER);

    let (f, _) = YankFlow::yank(1, 9, OWNER, YankRequest { reason: Some("cve".to_string()) });
    let (f, _) = f.resume(Reply::Version(Some(v0.clone())));
    let (f, _) = f.resume(Reply::Owner(Some(OWNER)));
    let (f, s) = f.resume(Reply::Version(Some(v0.clone())));
    assert!(matches!(s, Step::Query(DbOp::Yank { version_id: 9, .. })));
    let (f, _) = f.resume(Reply::Done);
    let (f, _) = f.resume(Reply::Version(Some(v1.clone())));
    let (_, s) = f.resume(Reply::Published);
    assert!(matches!(&s, Step::Finish(Ok(a)) if a.body.data.as_ref().unwrap().is_yanked));
    assert!(!v1.eligible_for_new_deployment());

    let (f, _) = YankFlow::unyank(1, 9, OWNER);
    let (f, _) = f.resume(Reply::Version(Some(v1.clone())));
    let (f, _) = f.resume(Reply::Owner(Some(OWNER)));
    let (f, s) = f.resume(Reply::Version(Some(v1.clone())));
    assert!(matches!(s, Step::Query(DbOp::Unyank { version_id: 9, unyanked_by: OWNER })));
    let (f, _) = f.resume(Reply::Done);
    let (f, _) = f.resume(Reply::Version(Some(v2.clone())));
    let (_, s) = f.resume(Reply::Published);
    assert!(matches!(&s, Step::Finish(Ok(a)) if !a.body.data.as_ref().unwrap().is_yanked));
    assert_eq!(v2.eligible_for_new_deployment(), v0.eligible_for_new_deployment());

    let (f, _) = YankFlow::unyank(1, 9, OWNER);
    let (f, _) = f.resume(Reply::Version(Some(v2.clone())));
    let (f, _) = f.resume(Reply::Owner(Some(OWNER)));
    let (_, s) = f.resume(Reply::Version(Some(v2)));
    assert!(matches!(s, Step::Finish(Err(CatalogError::NotYanked))));
}
