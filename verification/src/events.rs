//! Domain events the catalog publishes (identifiers are UUID values).
use vstd::prelude::*;

verus! {

/// A version passed validation and was stored.
#[derive(Clone, Debug)]
pub struct VersionPublished {
    pub project_id: u128,
    pub version_id: u128,
    pub version_tag: String,
    pub developer_id: u128,
}

/// A version was withdrawn from new deployments.
#[derive(Clone, Debug)]
pub struct VersionYanked {
    pub project_id: u128,
    pub version_id: u128,
    pub version_tag: String,
    pub developer_id: u128,
    pub reason: Option<String>,
}

/// A yank was reversed.
#[derive(Clone, Debug)]
pub struct VersionUnyanked {
    pub project_id: u128,
    pub version_id: u128,
    pub version_tag: String,
    pub developer_id: u128,
}

impl VersionPublished {
    pub fn subject() -> (s: &'static str)
        ensures
            s@ == "version.published"@,
    {
        "version.published"
    }
}

impl VersionYanked {
    pub fn subject() -> (s: &'static str)
        ensures
            s@ == "version.yanked"@,
    {
        "version.yanked"
    }
}

impl VersionUnyanked {
    pub fn subject() -> (s: &'static str)
        ensures
            s@ == "version.unyanked"@,
    {
        "version.unyanked"
    }
}

/// Any of the catalog's events.
#[derive(Clone, Debug)]
pub enum CatalogEvent {
    Published(VersionPublished),
    Yanked(VersionYanked),
    Unyanked(VersionUnyanked),
}

impl CatalogEvent {
    pub open spec fn spec_subject(&self) -> Seq<char> {
        match self {
            CatalogEvent::Published(_) => "version.published"@,
            CatalogEvent::Yanked(_) => "version.yanked"@,
            CatalogEvent::Unyanked(_) => "version.unyanked"@,
        }
    }

    /// The subject the event is published under.
    pub fn subject(&self) -> (s: &'static str)
        ensures
            s@ == self.spec_subject(),
    {
        match self {
            CatalogEvent::Published(_) => VersionPublished::subject(),
            CatalogEvent::Yanked(_) => VersionYanked::subject(),
            CatalogEvent::Unyanked(_) => VersionUnyanked::subject(),
        }
    }
}

} // verus!
