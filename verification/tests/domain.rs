use catalog::domain::errors::CatalogError;
use catalog::domain::project::{slugify, Project, ProjectDto};
use catalog::domain::version::{parse_validation_status, ValidationStatus, Version, VersionDto};
use catalog::repository::project_repo::{
    check_name_length, make_slug_candidate, merge_metadata, normalize_label, normalize_labels,
    short_name_error, slug_retry_limit, MetadataUpdate,
};
use catalog::repository::version_repo::{check_ownership, check_unyankable, check_yankable};

fn project(owner: u128) -> Project {
    Project {
        id: 7,
        name: "Demo".to_string(),
        slug: "demo".to_string(),
        description: Some("a demo".to_string()),
        documentation_url: None,
        owner_id: owner,
        current_version_id: None,
        is_published: false,
        created_at: 1,
        updated_at: 2,
        deleted_at: None,
        popularity_score_bits: 0,
    }
}

fn version(status: &str, yanked: bool) -> Version {
    Version {
        id: 11,
        project_id: 7,
        version_tag: "v1".to_string(),
        artifact_url: "file:///a".to_string(),
        artifact_size: 10,
        checksum: "abc".to_string(),
        is_yanked: yanked,
        yank_reason: None,
        yanked_at: None,
        yanked_by: None,
        unyanked_at: None,
        unyanked_by: None,
        validation_status: status.to_string(),
        validation_details: None,
        developer_id: 3,
        created_at: 5,
        validated_at: Some(6),
    }
}

#[test]
fn slugify_lowercases_and_collapses_separators() {
    assert_eq!(slugify("  Hello, World!  "), "hello-world");
    assert_eq!(slugify("Rust 2024 -- Edition"), "rust-2024-edition");
    assert_eq!(slugify("Ünïcode"), "n-code");
}

#[test]
fn slugify_falls_back_to_project() {
    assert_eq!(slugify(""), "project");
    assert_eq!(slugify("***"), "project");
    assert_eq!(slugify("   "), "project");
}

#[test]
fn slugify_is_idempotent() {
    for name in ["My Project!", "a--b", "  x  ", "", "Ünïcode", "-lead-and-trail-"] {
        let once = slugify(name);
        assert_eq!(slugify(&once), once);
    }
}

#[test]
fn status_names_round_trip() {
    for s in [
        ValidationStatus::Pending,
        ValidationStatus::Validating,
        ValidationStatus::Passed,
        ValidationStatus::Failed,
    ] {
        let back = parse_validation_status(s.as_str());
        assert_eq!(back.map(|b| b.as_str()), Ok(s.as_str()));
    }
    assert_eq!(ValidationStatus::Passed.as_str(), "passed");
    assert!(parse_validation_status("PASSED").is_err());
    assert!(matches!("failed".parse::<ValidationStatus>(), Ok(ValidationStatus::Failed)));
}

#[test]
fn eligibility_needs_passed_and_not_yanked() {
    assert!(version("passed", false).eligible_for_new_deployment());
    assert!(!version("passed", true).eligible_for_new_deployment());
    assert!(!version("failed", false).eligible_for_new_deployment());
    assert!(!version("pending", false).eligible_for_new_deployment());
}

#[test]
fn version_dto_keeps_public_fields() {
    let v = version("passed", false);
    let d = VersionDto::from_version(v.clone());
    assert_eq!(d.id, 11);
    assert_eq!(d.project_id, 7);
    assert_eq!(d.version_tag, "v1");
    assert_eq!(d.checksum, "abc");
    assert_eq!(d.validation_status, "passed");
    assert_eq!(d.validated_at, Some(6));
    let e: VersionDto = v.into();
    assert_eq!(e.artifact_size, 10);
}

#[test]
fn project_dto_attaches_labels() {
    let d = ProjectDto::from_project(project(3), vec!["cli".to_string()], vec![]);
    assert_eq!(d.id, 7);
    assert_eq!(d.slug, "demo");
    assert_eq!(d.owner_id, 3);
    assert_eq!(d.tags, vec!["cli".to_string()]);
    assert!(d.categories.is_empty());
}

#[test]
fn error_status_codes() {
    assert_eq!(CatalogError::ProjectNotFound.status_code(), 404);
    assert_eq!(CatalogError::VersionNotFound.status_code(), 404);
    assert_eq!(CatalogError::SlugTaken.status_code(), 409);
    assert_eq!(CatalogError::VersionTagTaken.status_code(), 409);
    assert_eq!(CatalogError::NotOwner.status_code(), 403);
    assert_eq!(CatalogError::AlreadyYanked.status_code(), 409);
    assert_eq!(CatalogError::NotYanked.status_code(), 409);
    assert_eq!(CatalogError::ValidationFailed("x".to_string()).status_code(), 400);
    assert_eq!(CatalogError::BadRequest("x".to_string()).status_code(), 400);
    assert_eq!(CatalogError::TooLarge { limit_bytes: 5 }.status_code(), 413);
    assert_eq!(CatalogError::Database("x".to_string()).status_code(), 500);
    assert_eq!(CatalogError::Internal("x".to_string()).status_code(), 500);
}

#[test]
fn error_messages() {
    assert_eq!(CatalogError::NotYanked.to_string(), "version was never yanked");
    assert_eq!(
        CatalogError::TooLarge { limit_bytes: 104857600 }.to_string(),
        "upload exceeds the configured size limit (104857600 bytes)"
    );
    assert_eq!(CatalogError::BadRequest("bad".to_string()).to_string(), "invalid request: bad");
    assert_eq!(CatalogError::Internal("oops".to_string()).to_string(), "internal error: oops");
    assert_eq!(CatalogError::Database("conn reset".to_string()).to_string(), "conn reset");
}

#[test]
fn internal_errors_are_answered_opaquely() {
    assert_eq!(CatalogError::Database("secret dsn".to_string()).error_body().error, "internal error");
    assert_eq!(CatalogError::Internal("boom".to_string()).error_body().error, "internal error");
    assert!(CatalogError::Internal("boom".to_string()).is_internal());
    assert_eq!(CatalogError::NotOwner.error_body().error, "not the owner of this project");
    assert!(!CatalogError::NotOwner.is_internal());
}

#[test]
fn name_length_counts_trimmed_chars() {
    assert!(check_name_length("abc"));
    assert!(!check_name_length("  ab  "));
    assert!(check_name_length(" äöü "));
    match short_name_error() {
        CatalogError::BadRequest(m) => assert_eq!(m, "project name must be at least 3 characters"),
        _ => panic!("expected a bad request"),
    }
}

#[test]
fn slug_candidates_number_from_one() {
    assert_eq!(slug_retry_limit(), 20);
    assert_eq!(make_slug_candidate("demo", 0), "demo");
    assert_eq!(make_slug_candidate("demo", 1), "demo-1");
    assert_eq!(make_slug_candidate("demo", 20), "demo-20");
}

#[test]
fn labels_are_trimmed_and_lowercased() {
    assert_eq!(normalize_label("  Web  "), "web");
    assert_eq!(normalize_label("ÄPFEL"), "äpfel");
    let v = normalize_labels(&vec![" CLI".to_string(), "Tools ".to_string()]);
    assert_eq!(v, vec!["cli".to_string(), "tools".to_string()]);
}

#[test]
fn metadata_update_keeps_what_it_leaves_out() {
    let p = project(3);
    let m = merge_metadata(
        &p,
        MetadataUpdate {
            name: None,
            description: None,
            documentation_url: Some("https://docs.example".to_string()),
        },
    );
    assert_eq!(m.name, "Demo");
    assert_eq!(m.description, Some("a demo".to_string()));
    assert_eq!(m.documentation_url, Some("https://docs.example".to_string()));
    let n = merge_metadata(
        &p,
        MetadataUpdate { name: Some("Renamed".to_string()), description: None, documentation_url: None },
    );
    assert_eq!(n.name, "Renamed");
    assert_eq!(n.documentation_url, None);
}

#[test]
fn ownership_and_yank_state_checks() {
    assert!(check_ownership(Some(3), 3).is_ok());
    assert!(matches!(check_ownership(Some(4), 3), Err(CatalogError::NotOwner)));
    assert!(matches!(check_ownership(None, 3), Err(CatalogError::VersionNotFound)));
    assert!(check_yankable(&version("passed", false)).is_ok());
    assert!(matches!(check_yankable(&version("passed", true)), Err(CatalogError::AlreadyYanked)));
    assert!(check_unyankable(&version("passed", true)).is_ok());
    assert!(matches!(check_unyankable(&version("passed", false)), Err(CatalogError::NotYanked)));
}

#[test]
fn metadata_updates_repeat_and_compose() {
    let before = project(3);
    let update = MetadataUpdate {
        name: Some("Again".to_string()),
        description: None,
        documentation_url: Some("https://x.example".to_string()),
    };
    let once = merge_metadata(&before, update.clone());
    let mut after = before.clone();
    after.name = once.name.clone();
    after.description = once.description.clone();
    after.documentation_url = once.documentation_url.clone();
    let twice = merge_metadata(&after, update);
    assert_eq!(twice.name, once.name);
    assert_eq!(twice.description, once.description);
    assert_eq!(twice.documentation_url, once.documentation_url);

    let empty = merge_metadata(
        &before,
        MetadataUpdate { name: None, description: None, documentation_url: None },
    );
    assert_eq!(empty.name, before.name);
    assert_eq!(empty.description, before.description);
    assert_eq!(empty.documentation_url, before.documentation_url);
}
