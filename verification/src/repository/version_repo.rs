//! Rules the version repository applies around its queries: ownership
//! and yank-state checks.
use crate::domain::errors::CatalogError;
use crate::domain::version::Version;
use vstd::prelude::*;

verus! {

/// A version to store.
#[derive(Clone, Debug)]
pub struct NewVersion {
    pub project_id: u128,
    pub version_tag: String,
    pub artifact_url: String,
    pub artifact_size: i64,
    pub checksum: String,
    pub developer_id: u128,
}

/// The verdict on the owner found for a version (the owner of its live
/// project, if any) against the caller.
pub open spec fn spec_ownership(owner: Option<u128>, caller: u128) -> Result<(), CatalogError> {
    match owner {
        Some(o) => if o == caller {
            Ok(())
        } else {
            Err(CatalogError::NotOwner)
        },
        None => Err(CatalogError::VersionNotFound),
    }
}

pub fn check_ownership(owner: Option<u128>, caller: u128) -> (r: Result<(), CatalogError>)
    ensures
        r == spec_ownership(owner, caller),
{
    match owner {
        Some(o) => if o == caller {
            Ok(())
        } else {
            Err(CatalogError::NotOwner)
        },
        None => Err(CatalogError::VersionNotFound),
    }
}

/// `after` is the stored `before` once yanked by `by` with `reason`: the
/// yank time is the store's; every other field is kept.
pub open spec fn yank_applied(before: Version, after: Version, reason: Option<String>, by: u128) -> bool {
    after == (Version {
        is_yanked: true,
        yank_reason: reason,
        yanked_at: after.yanked_at,
        yanked_by: Some(by),
        ..before
    })
}

/// `after` is the stored `before` once un-yanked by `by`: the un-yank time
/// is the store's; every other field is kept.
pub open spec fn unyank_applied(before: Version, after: Version, by: u128) -> bool {
    after == (Version { is_yanked: false, unyanked_at: after.unyanked_at, unyanked_by: Some(by), ..before })
}

/// A yank needs a version that is not yanked.
pub fn check_yankable(v: &Version) -> (r: Result<(), CatalogError>)
    ensures
        r == (if v.is_yanked {
            Err(CatalogError::AlreadyYanked)
        } else {
            Ok(())
        }),
{
    if v.is_yanked {
        Err(CatalogError::AlreadyYanked)
    } else {
        Ok(())
    }
}

/// An un-yank needs a yanked version.
pub fn check_unyankable(v: &Version) -> (r: Result<(), CatalogError>)
    ensures
        r == (if !v.is_yanked {
            Err(CatalogError::NotYanked)
        } else {
            Ok(())
        }),
{
    if !v.is_yanked {
        Err(CatalogError::NotYanked)
    } else {
        Ok(())
    }
}

} // verus!
