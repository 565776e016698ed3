//! Request bodies, their validation, and the response envelope.
use crate::text::{concat, owned};
use vstd::prelude::*;

verus! {

/// Body of a project creation.
#[derive(Clone, Debug)]
pub struct CreateProjectRequest {
    pub name: String,
    pub description: Option<String>,
    pub documentation_url: Option<String>,
    pub tags: Vec<String>,
    pub categories: Vec<String>,
}

/// Body of a metadata update; absent fields are left as they are.
#[derive(Clone, Debug)]
pub struct UpdateMetadataRequest {
    pub name: Option<String>,
    pub description: Option<String>,
    pub documentation_url: Option<String>,
    pub tags: Option<Vec<String>>,
    pub categories: Option<Vec<String>>,
}

/// Body of a yank.
#[derive(Clone, Debug)]
pub struct YankRequest {
    pub reason: Option<String>,
}

/// Body of a current-version change (the version's UUID value).
#[derive(Clone, Copy, Debug)]
pub struct SetCurrentVersionRequest {
    pub version_id: u128,
}

/// The response envelope.
#[derive(Clone, Debug)]
pub struct ApiResponse<T> {
    pub success: bool,
    pub data: Option<T>,
    pub message: String,
}

impl<T> ApiResponse<T> {
    pub fn success(data: T, message: &str) -> (r: Self)
        ensures
            r.success,
            r.data == Some(data),
            r.message@ == message@,
    {
        ApiResponse { success: true, data: Some(data), message: owned(message) }
    }
}

impl ApiResponse<()> {
    pub fn error(message: &str) -> (r: Self)
        ensures
            !r.success,
            r.data is None,
            r.message@ == message@,
    {
        ApiResponse { success: false, data: None, message: owned(message) }
    }
}

// ---------------------------------------------------------------------
// Field validation
// ---------------------------------------------------------------------
/// What `url::Url::parse(s).is_ok()` gives, as `validator` uses it.
pub uninterp spec fn url_accepted(s: Seq<char>) -> bool;

/// Calls `validator::ValidateUrl::validate_url` on a string; the contract
/// names its result (whether `url::Url::parse` accepts the text) without
/// restating URL syntax.
#[verifier::external_body]
fn url_is_valid(s: &str) -> (b: bool)
    ensures
        b == url_accepted(s@),
{
    validator::ValidateUrl::validate_url(s)
}

/// Calls `validator::ValidateLength::validate_length` with a minimum and a
/// maximum: the string's character count must lie between them.
#[verifier::external_body]
fn length_is_valid(s: &str, min: u64, max: u64) -> (b: bool)
    ensures
        b == (min <= s@.len() && s@.len() <= max),
{
    validator::ValidateLength::<u64>::validate_length(s, Some(min), Some(max), None)
}

/// What `format!("{:?}", s)` gives for a string: the quoted, escaped
/// form.
pub uninterp spec fn debug_quoted(s: Seq<char>) -> Seq<char>;

/// Calls the `Debug` formatting of `str`; the escaping rules are not
/// restated.
#[verifier::external_body]
pub(crate) fn quoted(s: &str) -> (r: String)
    ensures
        r@ == debug_quoted(s@),
{
    format!("{:?}", s)
}

/// A failed field rule.
#[derive(Clone, Debug)]
pub enum Violation {
    /// The field's character count is outside 3..=255.
    Length { field: &'static str, value: String },
    /// The field is not a URL.
    Url { field: &'static str, value: String },
}

/// A project name must have 3 to 255 characters.
pub open spec fn name_length_ok(name: Seq<char>) -> bool {
    3 <= name.len() && name.len() <= 255
}

/// A documentation URL, when given, must parse as a URL.
pub open spec fn url_ok(url: Option<String>) -> bool {
    match url {
        Some(u) => url_accepted(u@),
        None => true,
    }
}

/// How a violation reads in a rejection (the `validator` rendering:
/// `field: Validation error: code [params]`).
pub open spec fn violation_text(v: Violation) -> Seq<char> {
    match v {
        Violation::Length { field, value } => field@
            + ": Validation error: length [{\"min\": Number(3), \"max\": Number(255), \"value\": String("@
            + debug_quoted(value@) + ")}]"@,
        Violation::Url { field, value } => field@ + ": Validation error: url [{\"value\": String("@
            + debug_quoted(value@) + ")}]"@,
    }
}

/// All violations' texts, one per line.
pub open spec fn violations_text(vs: Seq<Violation>) -> Seq<char>
    decreases vs.len(),
{
    if vs.len() == 0 {
        Seq::empty()
    } else if vs.len() == 1 {
        violation_text(vs[0])
    } else {
        violations_text(vs.drop_last()) + "\n"@ + violation_text(vs.last())
    }
}

fn render_violation(v: &Violation) -> (s: String)
    ensures
        s@ == violation_text(*v),
{
    match v {
        Violation::Length { field, value } => {
            let q = quoted(value.as_str());
            let a = concat(
                field,
                ": Validation error: length [{\"min\": Number(3), \"max\": Number(255), \"value\": String(",
            );
            let b = concat(a.as_str(), q.as_str());
            concat(b.as_str(), ")}]")
        },
        Violation::Url { field, value } => {
            let q = quoted(value.as_str());
            let a = concat(field, ": Validation error: url [{\"value\": String(");
            let b = concat(a.as_str(), q.as_str());
            concat(b.as_str(), ")}]")
        },
    }
}

/// The rejection text for a list of violations.
pub fn render_violations(vs: &Vec<Violation>) -> (s: String)
    ensures
        s@ == violations_text(vs@),
{
    let mut s = String::new();
    let n = vs.len();
    for i in 0..n
        invariant
            n == vs@.len(),
            s@ == violations_text(vs@.take(i as int)),
    {
        assert(vs@.take(i + 1).drop_last() =~= vs@.take(i as int));
        let line = render_violation(&vs[i]);
        if i == 0 {
            s = line;
        } else {
            s.append("\n");
            s.append(line.as_str());
        }
    }
    assert(vs@.take(n as int) =~= vs@);
    s
}

fn check_name(name: &String) -> (r: Option<Violation>)
    ensures
        r is None <==> name_length_ok(name@),
        r == name_violation(Some(*name)),
{
    if length_is_valid(name.as_str(), 3, 255) {
        None
    } else {
        Some(Violation::Length { field: "name", value: name.clone() })
    }
}

fn check_url(url: &Option<String>) -> (r: Option<Violation>)
    ensures
        r is None <==> url_ok(*url),
        r == url_violation(*url),
{
    match url {
        Some(u) => if url_is_valid(u.as_str()) {
            None
        } else {
            Some(Violation::Url { field: "documentation_url", value: u.clone() })
        },
        None => None,
    }
}

/// The violations of a name check and a URL check, in that order.
pub open spec fn collected(name: Option<Violation>, url: Option<Violation>) -> Seq<Violation> {
    let a = match name {
        Some(v) => seq![v],
        None => Seq::empty(),
    };
    match url {
        Some(v) => a.push(v),
        None => a,
    }
}

fn collect(name: Option<Violation>, url: Option<Violation>) -> (r: Vec<Violation>)
    ensures
        r@ == collected(name, url),
{
    let mut r: Vec<Violation> = Vec::new();
    match name {
        Some(v) => r.push(v),
        None => {},
    }
    match url {
        Some(v) => r.push(v),
        None => {},
    }
    proof {
        assert(r@ =~= collected(name, url));
    }
    r
}

impl CreateProjectRequest {
    /// The name must have 3 to 255 characters and the documentation URL,
    /// when given, must parse.
    pub open spec fn spec_is_valid(&self) -> bool {
        name_length_ok(self.name@) && url_ok(self.documentation_url)
    }

    /// The failed rules, name first.
    pub open spec fn spec_violations(&self) -> Seq<Violation> {
        collected(name_violation(Some(self.name)), url_violation(self.documentation_url))
    }

    /// The failed rules, name first.
    pub fn violations(&self) -> (vs: Vec<Violation>)
        ensures
            vs@ == self.spec_violations(),
            vs@.len() == 0 <==> self.spec_is_valid(),
    {
        let n = check_name(&self.name);
        let u = check_url(&self.documentation_url);
        collect(n, u)
    }

    /// `Ok` when the request is valid, else the rejection text.
    pub fn validate(&self) -> (r: Result<(), String>)
        ensures
            r is Ok <==> self.spec_is_valid(),
            r matches Err(m) ==> m@ == violations_text(self.spec_violations()),
    {
        let vs = self.violations();
        if vs.len() == 0 {
            Ok(())
        } else {
            Err(render_violations(&vs))
        }
    }
}

/// The name rule's violation, if any.
pub open spec fn name_violation(name: Option<String>) -> Option<Violation> {
    match name {
        Some(n) => if name_length_ok(n@) {
            None
        } else {
            Some(Violation::Length { field: "name", value: n })
        },
        None => None,
    }
}

/// The URL rule's violation, if any.
pub open spec fn url_violation(url: Option<String>) -> Option<Violation> {
    match url {
        Some(u) => if url_accepted(u@) {
            None
        } else {
            Some(Violation::Url { field: "documentation_url", value: u })
        },
        None => None,
    }
}

impl UpdateMetadataRequest {
    /// A new name, when given, must have 3 to 255 characters and the
    /// documentation URL, when given, must parse.
    pub open spec fn spec_is_valid(&self) -> bool {
        (match self.name {
            Some(n) => name_length_ok(n@),
            None => true,
        }) && url_ok(self.documentation_url)
    }

    /// The failed rules, name first.
    pub open spec fn spec_violations(&self) -> Seq<Violation> {
        collected(name_violation(self.name), url_violation(self.documentation_url))
    }

    /// The failed rules, name first.
    pub fn violations(&self) -> (vs: Vec<Violation>)
        ensures
            vs@ == self.spec_violations(),
            vs@.len() == 0 <==> self.spec_is_valid(),
    {
        let n = match &self.name {
            Some(name) => check_name(name),
            None => None,
        };
        let u = check_url(&self.documentation_url);
        collect(n, u)
    }

    /// `Ok` when the request is valid, else the rejection text.
    pub fn validate(&self) -> (r: Result<(), String>)
        ensures
            r is Ok <==> self.spec_is_valid(),
            r matches Err(m) ==> m@ == violations_text(self.spec_violations()),
    {
        let vs = self.violations();
        if vs.len() == 0 {
            Ok(())
        } else {
            Err(render_violations(&vs))
        }
    }
}

} // verus!
