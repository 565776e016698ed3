//! The catalog's error type and how each error is answered.
use crate::text::{concat, decimal, owned, u64_to_string};
use vstd::prelude::*;

verus! {

/// Everything a catalog request can fail with. `Database` carries the
/// database driver's error text.
#[derive(Clone, Debug)]
pub enum CatalogError {
    ProjectNotFound,
    VersionNotFound,
    SlugTaken,
    VersionTagTaken,
    NotOwner,
    AlreadyYanked,
    NotYanked,
    ValidationFailed(String),
    TooLarge { limit_bytes: u64 },
    BadRequest(String),
    Database(String),
    Internal(String),
}

/// Body of an error answer: `{"error": ...}`.
#[derive(Clone, Debug)]
pub struct ErrorBody {
    pub error: String,
}

impl CatalogError {
    /// HTTP status of the answer to this error.
    pub open spec fn spec_status_code(&self) -> u16 {
        match self {
            CatalogError::ProjectNotFound | CatalogError::VersionNotFound => 404,
            CatalogError::SlugTaken | CatalogError::VersionTagTaken => 409,
            CatalogError::NotOwner => 403,
            CatalogError::AlreadyYanked | CatalogError::NotYanked => 409,
            CatalogError::ValidationFailed(_) | CatalogError::BadRequest(_) => 400,
            CatalogError::TooLarge { .. } => 413,
            CatalogError::Database(_) | CatalogError::Internal(_) => 500,
        }
    }

    /// Errors whose details stay out of the answer.
    pub open spec fn spec_is_internal(&self) -> bool {
        self is Database || self is Internal
    }

    /// The error's message.
    pub open spec fn spec_message(&self) -> Seq<char> {
        match self {
            CatalogError::ProjectNotFound => "project not found"@,
            CatalogError::VersionNotFound => "version not found"@,
            CatalogError::SlugTaken => "a project with that slug already exists"@,
            CatalogError::VersionTagTaken => "a version with that tag already exists for this project"@,
            CatalogError::NotOwner => "not the owner of this project"@,
            CatalogError::AlreadyYanked => "version is already yanked"@,
            CatalogError::NotYanked => "version was never yanked"@,
            CatalogError::ValidationFailed(m) => "validation failed: "@ + m@,
            CatalogError::TooLarge { limit_bytes } => "upload exceeds the configured size limit ("@
                + decimal(*limit_bytes as nat) + " bytes)"@,
            CatalogError::BadRequest(m) => "invalid request: "@ + m@,
            CatalogError::Database(m) => m@,
            CatalogError::Internal(m) => "internal error: "@ + m@,
        }
    }

    /// The text an answer shows: the message, except for internal errors,
    /// which all read "internal error".
    pub open spec fn spec_public_message(&self) -> Seq<char> {
        if self.spec_is_internal() {
            "internal error"@
        } else {
            self.spec_message()
        }
    }

    pub fn status_code(&self) -> (c: u16)
        ensures
            c == self.spec_status_code(),
    {
        match self {
            CatalogError::ProjectNotFound | CatalogError::VersionNotFound => 404,
            CatalogError::SlugTaken | CatalogError::VersionTagTaken => 409,
            CatalogError::NotOwner => 403,
            CatalogError::AlreadyYanked | CatalogError::NotYanked => 409,
            CatalogError::ValidationFailed(_) | CatalogError::BadRequest(_) => 400,
            CatalogError::TooLarge { .. } => 413,
            CatalogError::Database(_) | CatalogError::Internal(_) => 500,
        }
    }

    pub fn is_internal(&self) -> (b: bool)
        ensures
            b == self.spec_is_internal(),
    {
        match self {
            CatalogError::Database(_) | CatalogError::Internal(_) => true,
            _ => false,
        }
    }

    /// The error's message (what its `Display` would print).
    pub fn to_string(&self) -> (m: String)
        ensures
            m@ == self.spec_message(),
    {
        match self {
            CatalogError::ProjectNotFound => owned("project not found"),
            CatalogError::VersionNotFound => owned("version not found"),
            CatalogError::SlugTaken => owned("a project with that slug already exists"),
            CatalogError::VersionTagTaken => owned(
                "a version with that tag already exists for this project",
            ),
            CatalogError::NotOwner => owned("not the owner of this project"),
            CatalogError::AlreadyYanked => owned("version is already yanked"),
            CatalogError::NotYanked => owned("version was never yanked"),
            CatalogError::ValidationFailed(m) => concat("validation failed: ", m.as_str()),
            CatalogError::TooLarge { limit_bytes } => {
                let n = u64_to_string(*limit_bytes);
                let head = concat("upload exceeds the configured size limit (", n.as_str());
                concat(head.as_str(), " bytes)")
            },
            CatalogError::BadRequest(m) => concat("invalid request: ", m.as_str()),
            CatalogError::Database(m) => m.clone(),
            CatalogError::Internal(m) => concat("internal error: ", m.as_str()),
        }
    }

    /// The body of the answer to this error.
    pub fn error_body(&self) -> (b: ErrorBody)
        ensures
            b.error@ == self.spec_public_message(),
    {
        if self.is_internal() {
            ErrorBody { error: owned("internal error") }
        } else {
            ErrorBody { error: self.to_string() }
        }
    }
}

/// Internal errors never reveal their details: whatever the database or
/// internal message, the answer's text is the same.
pub proof fn lemma_internal_errors_are_opaque(e: CatalogError, f: CatalogError)
    requires
        e.spec_is_internal(),
        f.spec_is_internal(),
    ensures
        e.spec_public_message() == f.spec_public_message(),
        e.spec_status_code() == 500,
{
}

/// Every error answer is a client (4xx) or server (5xx) error, and only
/// internal errors are server errors.
pub proof fn lemma_error_status_classes(e: CatalogError)
    ensures
        400 <= e.spec_status_code() < 600,
        e.spec_status_code() >= 500 <==> e.spec_is_internal(),
{
}

} // verus!
