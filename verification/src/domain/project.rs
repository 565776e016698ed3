//! Projects, their public representation, and slugs.
use crate::text::{
    ascii_alnum, ascii_lower, chars_of, is_ascii_alnum, is_ascii_digit, is_ascii_lower,
    is_ascii_upper, is_white_space, string_from_chars, to_ascii_lower, trim, trim_chars, trim_start,
};
use vstd::prelude::*;

verus! {

/// A project row. Identifiers are the 128-bit values of their UUIDs,
/// timestamps are microseconds since the Unix epoch, and the popularity
/// score is carried as the bit pattern of its `f64`.
#[derive(Clone, Debug)]
pub struct Project {
    pub id: u128,
    pub name: String,
    pub slug: String,
    pub description: Option<String>,
    pub documentation_url: Option<String>,
    pub owner_id: u128,
    pub current_version_id: Option<u128>,
    pub is_published: bool,
    pub created_at: i64,
    pub updated_at: i64,
    pub deleted_at: Option<i64>,
    pub popularity_score_bits: u64,
}

/// Public representation of a project, with its tags and categories.
#[derive(Clone, Debug)]
pub struct ProjectDto {
    pub id: u128,
    pub name: String,
    pub slug: String,
    pub description: Option<String>,
    pub documentation_url: Option<String>,
    pub owner_id: u128,
    pub current_version_id: Option<u128>,
    pub is_published: bool,
    pub popularity_score_bits: u64,
    pub tags: Vec<String>,
    pub categories: Vec<String>,
    pub created_at: i64,
    pub updated_at: i64,
}

impl ProjectDto {
    /// The public view of `p`: every public field of `p`, with `tags` and
    /// `categories` attached; `deleted_at` is not exposed.
    pub open spec fn spec_from_project(p: Project, tags: Vec<String>, categories: Vec<String>) -> ProjectDto {
        ProjectDto {
            id: p.id,
            name: p.name,
            slug: p.slug,
            description: p.description,
            documentation_url: p.documentation_url,
            owner_id: p.owner_id,
            current_version_id: p.current_version_id,
            is_published: p.is_published,
            popularity_score_bits: p.popularity_score_bits,
            tags,
            categories,
            created_at: p.created_at,
            updated_at: p.updated_at,
        }
    }

    pub fn from_project(p: Project, tags: Vec<String>, categories: Vec<String>) -> (d: Self)
        ensures
            d == Self::spec_from_project(p, tags, categories),
    {
        ProjectDto {
            id: p.id,
            name: p.name,
            slug: p.slug,
            description: p.description,
            documentation_url: p.documentation_url,
            owner_id: p.owner_id,
            current_version_id: p.current_version_id,
            is_published: p.is_published,
            popularity_score_bits: p.popularity_score_bits,
            tags,
            categories,
            created_at: p.created_at,
            updated_at: p.updated_at,
        }
    }
}

// ---------------------------------------------------------------------
// Slugs
// ---------------------------------------------------------------------
/// Characters a slug is made of: lower-case ASCII letters, digits, `-`.
pub open spec fn is_slug_char(c: char) -> bool {
    is_ascii_digit(c) || is_ascii_lower(c) || c == '-'
}

/// No two consecutive dashes.
pub open spec fn no_double_dash(s: Seq<char>) -> bool {
    forall|i: int| 0 <= i < s.len() - 1 ==> !(#[trigger] s[i] == '-' && s[i + 1] == '-')
}

/// What a slug looks like: non-empty, made of slug characters, never
/// starting or ending with a dash, and without consecutive dashes.
pub open spec fn is_slug(s: Seq<char>) -> bool {
    &&& s.len() > 0
    &&& forall|i: int| 0 <= i < s.len() ==> is_slug_char(#[trigger] s[i])
    &&& s[0] != '-'
    &&& s.last() != '-'
    &&& no_double_dash(s)
}

/// A prefix of a slug: like `is_slug`, but possibly empty and possibly
/// ending in a dash.
pub open spec fn is_slug_prefix(s: Seq<char>) -> bool {
    &&& forall|i: int| 0 <= i < s.len() ==> is_slug_char(#[trigger] s[i])
    &&& (s.len() > 0 ==> s[0] != '-')
    &&& no_double_dash(s)
}

/// Left-to-right scan: each ASCII letter or digit is kept (lower-cased),
/// and every run of other characters after the first kept one becomes a
/// single dash.
pub open spec fn slug_scan(s: Seq<char>) -> Seq<char>
    decreases s.len(),
{
    if s.len() == 0 {
        Seq::empty()
    } else {
        let prev = slug_scan(s.drop_last());
        let c = s.last();
        if is_ascii_alnum(c) {
            prev.push(ascii_lower(c))
        } else if prev.len() > 0 && prev.last() != '-' {
            prev.push('-')
        } else {
            prev
        }
    }
}

/// `s` without trailing dashes.
pub open spec fn trim_dashes_end(s: Seq<char>) -> Seq<char>
    decreases s.len(),
{
    if s.len() > 0 && s.last() == '-' {
        trim_dashes_end(s.drop_last())
    } else {
        s
    }
}

/// The slug used when a name has no ASCII letters or digits.
pub open spec fn fallback_slug() -> Seq<char> {
    seq!['p', 'r', 'o', 'j', 'e', 'c', 't']
}

/// The slug of a project name: the trimmed name scanned by `slug_scan`,
/// without a trailing dash, or `"project"` when that leaves nothing.
pub open spec fn slug_of(name: Seq<char>) -> Seq<char> {
    let t = trim_dashes_end(slug_scan(trim(name)));
    if t.len() == 0 {
        fallback_slug()
    } else {
        t
    }
}

proof fn lemma_scan_prefix(s: Seq<char>)
    ensures
        is_slug_prefix(slug_scan(s)),
    decreases s.len(),
{
    if s.len() > 0 {
        lemma_scan_prefix(s.drop_last());
        let prev = slug_scan(s.drop_last());
        let c = s.last();
        let r = slug_scan(s);
        if is_ascii_alnum(c) {
            assert(r == prev.push(ascii_lower(c)));
            assert(is_slug_char(ascii_lower(c)));
            assert forall|i: int| 0 <= i < r.len() - 1 implies !(#[trigger] r[i] == '-' && r[i
                + 1] == '-') by {
                if i < r.len() - 2 {
                    assert(r[i] == prev[i] && r[i + 1] == prev[i + 1]);
                }
            }
        } else if prev.len() > 0 && prev.last() != '-' {
            assert forall|i: int| 0 <= i < r.len() - 1 implies !(#[trigger] r[i] == '-' && r[i
                + 1] == '-') by {
                if i < r.len() - 2 {
                    assert(r[i] == prev[i] && r[i + 1] == prev[i + 1]);
                }
            }
        }
    }
}

proof fn lemma_trim_dashes(s: Seq<char>)
    requires
        is_slug_prefix(s),
    ensures
        is_slug_prefix(trim_dashes_end(s)),
        trim_dashes_end(s).len() > 0 ==> trim_dashes_end(s).last() != '-',
    decreases s.len(),
{
    if s.len() > 0 && s.last() == '-' {
        let t = s.drop_last();
        assert forall|i: int| 0 <= i < t.len() - 1 implies !(#[trigger] t[i] == '-' && t[i + 1]
            == '-') by {
            assert(t[i] == s[i] && t[i + 1] == s[i + 1]);
        }
        lemma_trim_dashes(t);
    }
}

/// A slug prefix is its own scan.
proof fn lemma_scan_fixed(s: Seq<char>)
    requires
        is_slug_prefix(s),
    ensures
        slug_scan(s) == s,
    decreases s.len(),
{
    if s.len() > 0 {
        let p = s.drop_last();
        assert forall|i: int| 0 <= i < p.len() - 1 implies !(#[trigger] p[i] == '-' && p[i + 1]
            == '-') by {
            assert(p[i] == s[i] && p[i + 1] == s[i + 1]);
        }
        lemma_scan_fixed(p);
        let c = s.last();
        assert(is_slug_char(s[s.len() - 1]));
        if c == '-' {
            assert(s.len() > 1);
            assert(!(s[s.len() - 2] == '-' && s[s.len() - 1] == '-'));
            assert(p.last() == s[s.len() - 2]);
        }
        assert(s =~= p.push(c));
    }
}

/// Text without white space is its own trim.
proof fn lemma_trim_fixed(s: Seq<char>)
    requires
        s.len() > 0,
        !is_white_space(s[0]),
        !is_white_space(s.last()),
    ensures
        trim(s) == s,
{
    assert(trim_start(s) == s);
}

/// Every slug has the shape of a slug.
pub proof fn lemma_slug_shape(name: Seq<char>)
    ensures
        is_slug(slug_of(name)),
{
    lemma_scan_prefix(trim(name));
    lemma_trim_dashes(slug_scan(trim(name)));
    let f = fallback_slug();
    assert(f[0] == 'p');
    assert(f.last() == 't');
    assert(is_slug_char(f[0]) && is_slug_char(f[1]) && is_slug_char(f[2]) && is_slug_char(f[3])
        && is_slug_char(f[4]) && is_slug_char(f[5]) && is_slug_char(f[6]));
}

/// Slugging a slug gives it back: a slug is a fixed point of `slug_of`.
pub proof fn lemma_slug_of_slug(s: Seq<char>)
    requires
        is_slug(s),
    ensures
        slug_of(s) == s,
{
    assert(is_slug_char(s[0]));
    assert(is_slug_char(s[s.len() - 1]));
    lemma_trim_fixed(s);
    lemma_scan_fixed(s);
}

/// Slugifying twice is slugifying once.
pub proof fn lemma_slugify_idempotent(name: Seq<char>)
    ensures
        slug_of(slug_of(name)) == slug_of(name),
{
    lemma_slug_shape(name);
    lemma_slug_of_slug(slug_of(name));
}

/// One step of the scan from what was produced so far.
pub open spec fn scan_step(prev: Seq<char>, c: char) -> Seq<char> {
    if is_ascii_alnum(c) {
        prev.push(ascii_lower(c))
    } else if prev.len() > 0 && prev.last() != '-' {
        prev.push('-')
    } else {
        prev
    }
}

/// The scan of `s` continuing from `prev`.
pub open spec fn scan_from(prev: Seq<char>, s: Seq<char>) -> Seq<char>
    decreases s.len(),
{
    if s.len() == 0 {
        prev
    } else {
        scan_step(scan_from(prev, s.drop_last()), s.last())
    }
}

/// A run of ASCII letters and digits.
pub open spec fn is_word(s: Seq<char>) -> bool {
    s.len() > 0 && forall|i: int| 0 <= i < s.len() ==> is_ascii_alnum(#[trigger] s[i])
}

/// A run of characters that are neither ASCII letters nor digits.
pub open spec fn is_separator(s: Seq<char>) -> bool {
    s.len() > 0 && forall|i: int| 0 <= i < s.len() ==> !is_ascii_alnum(#[trigger] s[i])
}

proof fn lemma_scan_is_scan_from(s: Seq<char>)
    ensures
        slug_scan(s) == scan_from(Seq::empty(), s),
    decreases s.len(),
{
    if s.len() > 0 {
        lemma_scan_is_scan_from(s.drop_last());
    }
}

proof fn lemma_scan_from_append(prev: Seq<char>, a: Seq<char>, b: Seq<char>)
    ensures
        scan_from(prev, a + b) == scan_from(scan_from(prev, a), b),
    decreases b.len(),
{
    if b.len() == 0 {
        assert(a + b =~= a);
    } else {
        assert((a + b).drop_last() =~= a + b.drop_last());
        assert((a + b).last() == b.last());
        lemma_scan_from_append(prev, a, b.drop_last());
    }
}

/// A letter or digit lower-cased is still a slug letter or digit.
proof fn lemma_lower_alnum(c: char)
    requires
        is_ascii_alnum(c),
    ensures
        is_ascii_alnum(ascii_lower(c)),
        ascii_lower(c) != '-',
        !is_white_space(c),
{
    if is_ascii_upper(c) {
        assert(((c as u32) + 32) as char as u32 == (c as u32) + 32);
    }
}

/// A word is scanned into itself, lower-cased, after what came before.
proof fn lemma_scan_word(prev: Seq<char>, w: Seq<char>)
    requires
        forall|i: int| 0 <= i < w.len() ==> is_ascii_alnum(#[trigger] w[i]),
    ensures
        scan_from(prev, w) == prev + w.map_values(|c: char| ascii_lower(c)),
    decreases w.len(),
{
    if w.len() == 0 {
        assert(prev + w.map_values(|c: char| ascii_lower(c)) =~= prev);
    } else {
        let d = w.drop_last();
        assert forall|i: int| 0 <= i < d.len() implies is_ascii_alnum(#[trigger] d[i]) by {
            assert(d[i] == w[i]);
        }
        lemma_scan_word(prev, d);
        assert(is_ascii_alnum(w[w.len() - 1]));
        assert(prev + w.map_values(|c: char| ascii_lower(c)) =~= (prev + d.map_values(
            |c: char| ascii_lower(c),
        )).push(ascii_lower(w.last())));
    }
}

/// After a letter or digit, a run of other characters becomes one dash.
proof fn lemma_scan_separator(prev: Seq<char>, r: Seq<char>)
    requires
        prev.len() > 0,
        prev.last() != '-',
        is_separator(r),
    ensures
        scan_from(prev, r) == prev.push('-'),
    decreases r.len(),
{
    let d = r.drop_last();
    assert(!is_ascii_alnum(r[r.len() - 1]));
    if d.len() > 0 {
        assert forall|i: int| 0 <= i < d.len() implies !is_ascii_alnum(#[trigger] d[i]) by {
            assert(d[i] == r[i]);
        }
        lemma_scan_separator(prev, d);
    } else {
        assert(scan_from(prev, d) == prev);
    }
}

/// The scan never shrinks, and a text starting with a letter or digit
/// scans to something non-empty.
proof fn lemma_scan_nonempty(s: Seq<char>)
    requires
        s.len() > 0,
        is_ascii_alnum(s[0]),
    ensures
        scan_from(Seq::empty(), s).len() > 0,
    decreases s.len(),
{
    if s.len() > 1 {
        assert(s.drop_last()[0] == s[0]);
        lemma_scan_nonempty(s.drop_last());
    } else {
        assert(s.drop_last().len() == 0);
    }
}

/// Once a text starting with a letter or digit is reached, the scan goes
/// on as if it had started there.
proof fn lemma_scan_restarts(prev: Seq<char>, s: Seq<char>)
    requires
        s.len() > 0,
        is_ascii_alnum(s[0]),
    ensures
        scan_from(prev, s) == prev + scan_from(Seq::empty(), s),
    decreases s.len(),
{
    let e = Seq::<char>::empty();
    if s.len() == 1 {
        assert(s.drop_last().len() == 0);
        assert(scan_from(prev, s.drop_last()) == prev);
        assert(scan_from(e, s.drop_last()) == e);
        assert(prev.push(ascii_lower(s[0])) =~= prev + e.push(ascii_lower(s[0])));
    } else {
        let d = s.drop_last();
        assert(d[0] == s[0]);
        lemma_scan_restarts(prev, d);
        lemma_scan_nonempty(d);
        let q = scan_from(e, d);
        let c = s.last();
        assert((prev + q).last() == q.last());
        if is_ascii_alnum(c) {
            assert((prev + q).push(ascii_lower(c)) =~= prev + q.push(ascii_lower(c)));
        } else if q.last() != '-' {
            assert((prev + q).push('-') =~= prev + q.push('-'));
        }
    }
}

/// A name made of one word slugs to the word, lower-cased.
pub proof fn lemma_slug_of_word(w: Seq<char>)
    requires
        is_word(w),
    ensures
        slug_of(w) == w.map_values(|c: char| ascii_lower(c)),
{
    lemma_lower_alnum(w[0]);
    lemma_lower_alnum(w.last());
    lemma_trim_fixed(w);
    lemma_scan_is_scan_from(w);
    lemma_scan_word(Seq::empty(), w);
    let l = w.map_values(|c: char| ascii_lower(c));
    assert(Seq::<char>::empty() + l =~= l);
    assert(l.last() == ascii_lower(w.last()));
    assert(trim_dashes_end(l) == l);
}

/// Words are joined by exactly one dash: a word, then any run of
/// characters that are neither ASCII letters nor digits (spaces,
/// punctuation, underscores, non-ASCII letters...), then a name that
/// starts and ends with a letter or digit, slug to the lower-cased word,
/// one dash, and the slug of the rest.
pub proof fn lemma_slug_joins_words(w: Seq<char>, r: Seq<char>, rest: Seq<char>)
    requires
        is_word(w),
        is_separator(r),
        rest.len() > 0,
        is_ascii_alnum(rest[0]),
        is_ascii_alnum(rest.last()),
    ensures
        slug_of(w + r + rest) == w.map_values(|c: char| ascii_lower(c)) + seq!['-'] + slug_of(rest),
{
    let e = Seq::<char>::empty();
    let s = w + r + rest;
    let l = w.map_values(|c: char| ascii_lower(c));
    lemma_lower_alnum(w[0]);
    lemma_lower_alnum(w.last());
    lemma_lower_alnum(rest[0]);
    lemma_lower_alnum(rest.last());
    assert(s[0] == w[0]);
    assert(s.last() == rest.last());
    lemma_trim_fixed(s);
    lemma_trim_fixed(rest);
    lemma_scan_is_scan_from(s);
    lemma_scan_is_scan_from(rest);
    lemma_scan_from_append(e, w + r, rest);
    lemma_scan_from_append(e, w, r);
    lemma_scan_word(e, w);
    assert(e + l =~= l);
    assert(l.len() > 0 && l.last() == ascii_lower(w.last()));
    lemma_scan_separator(l, r);
    lemma_scan_restarts(l.push('-'), rest);
    let q = scan_from(e, rest);
    // The rest scans to something ending in its last letter or digit.
    assert(rest.drop_last() + seq![rest.last()] =~= rest);
    assert(q.len() > 0 && q.last() == ascii_lower(rest.last())) by {
        lemma_scan_nonempty(rest);
    }
    assert(trim_dashes_end(q) == q);
    assert(l.push('-') + q =~= l + seq!['-'] + q);
    let whole = l + seq!['-'] + q;
    assert(whole.last() == q.last());
    assert(trim_dashes_end(whole) == whole);
}

/// Turn a project name into a URL-safe slug (see `slug_of`). Collisions
/// are resolved by the caller with a numeric suffix.
pub fn slugify(name: &str) -> (slug: String)
    ensures
        slug@ == slug_of(name@),
        is_slug(slug@),
{
    let all = chars_of(name);
    let t = trim_chars(&all);
    let mut slug: Vec<char> = Vec::new();
    let mut last_was_dash = false;
    let n = t.len();
    for i in 0..n
        invariant
            n == t@.len(),
            slug@ == slug_scan(t@.take(i as int)),
            last_was_dash == (slug@.len() > 0 && slug@.last() == '-'),
    {
        let c = t[i];
        assert(t@.take(i + 1).drop_last() =~= t@.take(i as int));
        assert(t@.take(i + 1).last() == c);
        if ascii_alnum(c) {
            slug.push(to_ascii_lower(c));
            last_was_dash = false;
        } else if !last_was_dash && slug.len() > 0 {
            slug.push('-');
            last_was_dash = true;
        }
    }
    assert(t@.take(n as int) =~= t@);
    let ghost scanned = slug@;
    while slug.len() > 0 && slug[slug.len() - 1] == '-'
        invariant
            trim_dashes_end(slug@) == trim_dashes_end(scanned),
        decreases slug.len(),
    {
        slug.pop();
    }
    if slug.len() == 0 {
        slug.push('p');
        slug.push('r');
        slug.push('o');
        slug.push('j');
        slug.push('e');
        slug.push('c');
        slug.push('t');
        assert(slug@ =~= fallback_slug());
    }
    proof {
        lemma_slug_shape(name@);
    }
    string_from_chars(&slug)
}

} // verus!
