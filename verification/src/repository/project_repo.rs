//! Rules the project repository applies around its queries: name length,
//! slug candidates, label normalization and metadata merging.
use crate::domain::errors::CatalogError;
use crate::domain::project::Project;
use crate::text::{
    chars_of, concat, decimal, owned, string_from_chars, to_lowercase, trim, trim_chars,
    u64_to_string, unicode_lowercase,
};
use vstd::prelude::*;

verus! {

/// A project to create, as the owner submitted it.
#[derive(Clone, Debug)]
pub struct NewProject {
    pub name: String,
    pub description: Option<String>,
    pub documentation_url: Option<String>,
    pub owner_id: u128,
    pub tags: Vec<String>,
    pub categories: Vec<String>,
}

/// A metadata change; absent fields are kept.
#[derive(Clone, Debug)]
pub struct MetadataUpdate {
    pub name: Option<String>,
    pub description: Option<String>,
    pub documentation_url: Option<String>,
}

/// The metadata recorded in the change history.
#[derive(Clone, Debug)]
pub struct MetadataSnapshot {
    pub name: String,
    pub description: Option<String>,
    pub documentation_url: Option<String>,
}

/// A name is long enough when it has at least 3 characters once trimmed.
pub open spec fn name_long_enough(name: Seq<char>) -> bool {
    trim(name).len() >= 3
}

pub fn check_name_length(name: &str) -> (b: bool)
    ensures
        b == name_long_enough(name@),
{
    let v = chars_of(name);
    let t = trim_chars(&v);
    t.len() >= 3
}

/// The refusal of a short name.
pub open spec fn short_name_message() -> Seq<char> {
    "project name must be at least 3 characters"@
}

pub fn short_name_error() -> (e: CatalogError)
    ensures
        e matches CatalogError::BadRequest(m) && m@ == short_name_message(),
{
    CatalogError::BadRequest(owned("project name must be at least 3 characters"))
}

/// How many suffixed slugs are tried after the base slug collides.
pub open spec fn max_slug_retries() -> u32 {
    20
}

pub fn slug_retry_limit() -> (n: u32)
    ensures
        n == max_slug_retries(),
{
    20
}

/// The slug tried at `attempt`: the base slug, then `base-1`, `base-2`, ...
pub open spec fn slug_candidate(base: Seq<char>, attempt: u32) -> Seq<char> {
    if attempt == 0 {
        base
    } else {
        base + "-"@ + decimal(attempt as nat)
    }
}

pub fn make_slug_candidate(base: &str, attempt: u32) -> (s: String)
    ensures
        s@ == slug_candidate(base@, attempt),
{
    if attempt == 0 {
        owned(base)
    } else {
        let n = u64_to_string(attempt as u64);
        let a = concat(base, "-");
        concat(a.as_str(), n.as_str())
    }
}

/// Tags and categories are stored trimmed and lower-cased.
pub open spec fn normalized_label(s: Seq<char>) -> Seq<char> {
    unicode_lowercase(trim(s))
}

pub fn normalize_label(s: &str) -> (r: String)
    ensures
        r@ == normalized_label(s@),
{
    let v = chars_of(s);
    let t = trim_chars(&v);
    let ts = string_from_chars(&t);
    to_lowercase(ts.as_str())
}

/// Every label normalized, in order.
pub fn normalize_labels(labels: &Vec<String>) -> (r: Vec<String>)
    ensures
        r@.len() == labels@.len(),
        forall|i: int| 0 <= i < r@.len() ==> #[trigger] r@[i]@ == normalized_label(labels@[i]@),
{
    let mut r: Vec<String> = Vec::new();
    let n = labels.len();
    for i in 0..n
        invariant
            n == labels@.len(),
            r@.len() == i,
            forall|k: int| 0 <= k < i ==> #[trigger] r@[k]@ == normalized_label(labels@[k]@),
    {
        r.push(normalize_label(labels[i].as_str()));
    }
    r
}

/// The metadata a project holds.
pub open spec fn snapshot_of(p: Project) -> MetadataSnapshot {
    MetadataSnapshot { name: p.name, description: p.description, documentation_url: p.documentation_url }
}

pub fn take_snapshot(p: &Project) -> (s: MetadataSnapshot)
    ensures
        s == snapshot_of(*p),
{
    MetadataSnapshot {
        name: p.name.clone(),
        description: clone_opt(&p.description),
        documentation_url: clone_opt(&p.documentation_url),
    }
}

pub fn clone_opt(s: &Option<String>) -> (r: Option<String>)
    ensures
        r == *s,
{
    match s {
        Some(t) => Some(t.clone()),
        None => None,
    }
}

/// The metadata after an update: each field the update gives replaces
/// the current one.
pub open spec fn merged(before: MetadataSnapshot, update: MetadataUpdate) -> MetadataSnapshot {
    MetadataSnapshot {
        name: match update.name {
            Some(n) => n,
            None => before.name,
        },
        description: match update.description {
            Some(d) => Some(d),
            None => before.description,
        },
        documentation_url: match update.documentation_url {
            Some(u) => Some(u),
            None => before.documentation_url,
        },
    }
}

pub fn merge_metadata(before: &Project, update: MetadataUpdate) -> (m: MetadataSnapshot)
    ensures
        m == merged(snapshot_of(*before), update),
{
    let name = match update.name {
        Some(n) => n,
        None => before.name.clone(),
    };
    let description = match update.description {
        Some(d) => Some(d),
        None => clone_opt(&before.description),
    };
    let documentation_url = match update.documentation_url {
        Some(u) => Some(u),
        None => clone_opt(&before.documentation_url),
    };
    MetadataSnapshot { name, description, documentation_url }
}

/// An empty update keeps the metadata.
pub proof fn lemma_empty_update_keeps(before: MetadataSnapshot)
    ensures
        merged(before, MetadataUpdate { name: None, description: None, documentation_url: None })
            == before,
{
}

/// Applying the same update twice is applying it once.
pub proof fn lemma_update_idempotent(before: MetadataSnapshot, update: MetadataUpdate)
    ensures
        merged(merged(before, update), update) == merged(before, update),
{
}

/// A later update of a field overrides an earlier one; fields it leaves
/// out keep the earlier update's value.
pub proof fn lemma_updates_compose(before: MetadataSnapshot, first: MetadataUpdate, second: MetadataUpdate)
    ensures
        merged(merged(before, first), second) == merged(
            before,
            MetadataUpdate {
                name: match second.name {
                    Some(n) => Some(n),
                    None => first.name,
                },
                description: match second.description {
                    Some(d) => Some(d),
                    None => first.description,
                },
                documentation_url: match second.documentation_url {
                    Some(u) => Some(u),
                    None => first.documentation_url,
                },
            },
        ),
{
}

} // verus!
