//! Project discovery: query parameters, the page query's plan, and the
//! page that comes back. Only published, non-deleted projects are
//! discoverable.
use crate::domain::project::ProjectDto;
use crate::text::{
    chars_of, concat, opt_str_view, opt_string_view, opt_strings_view, string_from_chars,
    to_lowercase, trim, trim_chars, unicode_lowercase,
};
use vstd::prelude::*;

verus! {

/// Result ordering.
#[derive(Clone, Copy, Debug, PartialEq, Eq, Structural)]
pub enum SortBy {
    Relevance,
    Popularity,
    Recency,
}

/// Discovery query parameters. `tags` and `categories` are
/// comma-separated lists that must all match; `author_id` is the owner's
/// UUID value.
#[derive(Clone, Debug)]
pub struct DiscoveryQuery {
    pub q: Option<String>,
    pub tags: Option<String>,
    pub categories: Option<String>,
    pub author_id: Option<u128>,
    pub sort: Option<SortBy>,
    pub page: u32,
    pub page_size: u32,
}

/// Page number used when the query gives none.
pub fn default_page() -> (p: u32)
    ensures
        p == 1,
{
    1
}

/// Page size used when the query gives none.
pub fn default_page_size() -> (p: u32)
    ensures
        p == 20,
{
    20
}

/// One page of discovery results; `total` counts all matches.
#[derive(Clone, Debug)]
pub struct DiscoveryPage {
    pub items: Vec<ProjectDto>,
    pub page: u32,
    pub page_size: u32,
    pub total: i64,
}

// ---------------------------------------------------------------------
// Comma-separated lists
// ---------------------------------------------------------------------
/// `str::split(',')`: the pieces between commas, including empty ones.
pub open spec fn split_commas(s: Seq<char>) -> Seq<Seq<char>>
    decreases s.len(),
{
    if s.len() == 0 {
        seq![Seq::empty()]
    } else {
        let p = split_commas(s.drop_last());
        if s.last() == ',' {
            p.push(Seq::empty())
        } else {
            p.update(p.len() - 1, p.last().push(s.last()))
        }
    }
}

proof fn lemma_split_nonempty(s: Seq<char>)
    ensures
        split_commas(s).len() > 0,
    decreases s.len(),
{
    if s.len() > 0 {
        lemma_split_nonempty(s.drop_last());
    }
}

/// The list items of `pieces`: each trimmed and lower-cased, empty ones
/// dropped.
pub open spec fn list_items(pieces: Seq<Seq<char>>) -> Seq<Seq<char>>
    decreases pieces.len(),
{
    if pieces.len() == 0 {
        Seq::empty()
    } else {
        let prev = list_items(pieces.drop_last());
        let item = unicode_lowercase(trim(pieces.last()));
        if item.len() > 0 {
            prev.push(item)
        } else {
            prev
        }
    }
}

/// Items of a comma-separated list, or `None` when there is no list or
/// no non-empty item.
pub open spec fn spec_split_csv(s: Option<Seq<char>>) -> Option<Seq<Seq<char>>> {
    match s {
        None => None,
        Some(text) => {
            let items = list_items(split_commas(text));
            if items.len() == 0 {
                None
            } else {
                Some(items)
            }
        },
    }
}

fn normalized_item(piece: &Vec<char>) -> (r: String)
    ensures
        r@ == unicode_lowercase(trim(piece@)),
{
    let t = trim_chars(piece);
    let ts = string_from_chars(&t);
    to_lowercase(ts.as_str())
}

/// Split a comma-separated list into trimmed, lower-cased, non-empty
/// items; `None` when nothing is left.
pub fn split_csv(s: Option<&str>) -> (r: Option<Vec<String>>)
    ensures
        opt_strings_view(r) == spec_split_csv(opt_str_view(s)),
{
    let text = match s {
        None => return None,
        Some(t) => t,
    };
    let chars = chars_of(text);
    let n = chars.len();
    let mut items: Vec<String> = Vec::new();
    let mut cur: Vec<char> = Vec::new();
    let ghost mut done: Seq<Seq<char>> = Seq::empty();
    for i in 0..n
        invariant
            n == chars@.len(),
            split_commas(chars@.take(i as int)) == done.push(cur@),
            items@.map_values(|x: String| x@) == list_items(done),
    {
        let c = chars[i];
        assert(chars@.take(i + 1).drop_last() =~= chars@.take(i as int));
        assert(chars@.take(i + 1).last() == c);
        if c == ',' {
            let item = normalized_item(&cur);
            assert(done.push(cur@).drop_last() =~= done);
            if !item.as_str().is_empty() {
                let ghost before = items@.map_values(|x: String| x@);
                items.push(item);
                assert(items@.map_values(|x: String| x@) =~= before.push(
                    unicode_lowercase(trim(cur@)),
                ));
            }
            proof {
                assert(done.push(cur@).drop_last() =~= done);
                done = done.push(cur@);
            }
            cur = Vec::new();
            assert(split_commas(chars@.take(i + 1)) =~= done.push(cur@));
        } else {
            cur.push(c);
            assert(split_commas(chars@.take(i + 1)) =~= done.push(cur@));
        }
    }
    let item = normalized_item(&cur);
    if !item.as_str().is_empty() {
        let ghost before = items@.map_values(|x: String| x@);
        items.push(item);
        assert(items@.map_values(|x: String| x@) =~= before.push(unicode_lowercase(trim(cur@))));
    }
    proof {
        assert(done.push(cur@).drop_last() =~= done);
        assert(chars@.take(n as int) =~= chars@);
    }
    if items.len() == 0 {
        None
    } else {
        Some(items)
    }
}

// ---------------------------------------------------------------------
// The page query
// ---------------------------------------------------------------------
/// Page number actually served: at least 1.
pub open spec fn effective_page(page: u32) -> u32 {
    if page < 1 {
        1
    } else {
        page
    }
}

/// Page size actually served: between 1 and 100.
pub open spec fn effective_page_size(page_size: u32) -> u32 {
    if page_size < 1 {
        1
    } else if page_size > 100 {
        100
    } else {
        page_size
    }
}

/// The search text: `q` trimmed, when not blank.
pub open spec fn spec_text_query(q: Option<Seq<char>>) -> Option<Seq<char>> {
    match q {
        Some(t) => if trim(t).len() > 0 {
            Some(trim(t))
        } else {
            None
        },
        None => None,
    }
}

/// Ordering asked for: the given one, else relevance when a `q`
/// parameter was given (even a blank one), else recency.
pub open spec fn spec_sort(sort: Option<SortBy>, has_q: bool) -> SortBy {
    match sort {
        Some(s) => s,
        None => if has_q {
            SortBy::Relevance
        } else {
            SortBy::Recency
        },
    }
}

/// `ORDER BY` clause for an ordering; relevance needs search text to rank
/// by and falls back to popularity without it.
pub open spec fn spec_order_by(sort: SortBy, has_text: bool) -> Seq<char> {
    match sort {
        SortBy::Relevance => if has_text {
            "rank DESC, popularity_score DESC"@
        } else {
            "popularity_score DESC, created_at DESC"@
        },
        SortBy::Popularity => "popularity_score DESC, created_at DESC"@,
        SortBy::Recency => "created_at DESC"@,
    }
}

/// The rank column added when there is search text.
pub open spec fn spec_rank_select(has_text: bool) -> Seq<char> {
    if has_text {
        ", ts_rank(p.search_vector, websearch_to_tsquery('english', $4)) AS rank"@
    } else {
        ""@
    }
}

/// The fixed part of the page query before the rank column. Parameters:
/// `$1` author, `$2` tags, `$3` categories, `$4` search text, `$5` limit,
/// `$6` offset.
pub open spec fn page_query_head() -> Seq<char> {
    "\n        SELECT p.id, p.name, p.slug, p.description, p.documentation_url, p.owner_id,\n               p.current_version_id, p.is_published, p.created_at, p.updated_at,\n               p.deleted_at, p.popularity_score,\n               COUNT(*) OVER() AS total_count\n        FROM projects p\n        WHERE p.deleted_at IS NULL\n          AND p.is_published = TRUE\n          AND ($1::uuid IS NULL OR p.owner_id = $1)\n          AND ($2::text[] IS NULL OR $2 <@ (\n                SELECT array_agg(tag) FROM project_tags WHERE project_id = p.id))\n          AND ($3::text[] IS NULL OR $3 <@ (\n                SELECT array_agg(category) FROM project_categories WHERE project_id = p.id))\n          AND ($4::text IS NULL OR p.search_vector @@ websearch_to_tsquery('english', $4))\n        "@
}

/// The page query text for the given ordering clause and rank column.
pub open spec fn spec_page_query(rank_select: Seq<char>, order_by: Seq<char>) -> Seq<char> {
    page_query_head() + rank_select + "\n        ORDER BY "@ + order_by
        + "\n        LIMIT $5 OFFSET $6\n        "@
}

/// How to run a discovery query: the SQL text and the values bound to
/// its parameters.
#[derive(Clone, Debug)]
pub struct DiscoveryPlan {
    pub page: u32,
    pub page_size: u32,
    pub limit: i64,
    pub offset: i64,
    pub sort: SortBy,
    pub author_id: Option<u128>,
    pub tags: Option<Vec<String>>,
    pub categories: Option<Vec<String>>,
    pub text_query: Option<String>,
    pub sql: String,
}

/// The offset fits the page arithmetic done in 32 bits.
pub open spec fn page_offset_fits(query: DiscoveryQuery) -> bool {
    (effective_page(query.page) - 1) * effective_page_size(query.page_size) <= u32::MAX
}

/// Whether the page arithmetic of `query` stays within 32 bits (a query
/// beyond that cannot be planned).
pub fn offset_fits(query: &DiscoveryQuery) -> (b: bool)
    ensures
        b == page_offset_fits(*query),
{
    let page: u64 = if query.page < 1 {
        1
    } else {
        query.page as u64
    };
    let page_size: u64 = if query.page_size < 1 {
        1
    } else if query.page_size > 100 {
        100
    } else {
        query.page_size as u64
    };
    assert((page - 1) * page_size <= 0xffff_ffffu64 * 100) by (nonlinear_arith)
        requires
            1 <= page <= 0xffff_ffffu64,
            1 <= page_size <= 100,
    ;
    (page - 1) * page_size <= 0xffff_ffffu64
}

fn trimmed_text(q: &String) -> (r: Option<String>)
    ensures
        opt_string_view(r) == spec_text_query(Some(q@)),
{
    let v = chars_of(q.as_str());
    let t = trim_chars(&v);
    if t.len() == 0 {
        None
    } else {
        Some(string_from_chars(&t))
    }
}

/// `plan` is how `query` is run.
pub open spec fn plan_matches(query: DiscoveryQuery, plan: DiscoveryPlan) -> bool {
    &&& plan.page == effective_page(query.page)
    &&& plan.page_size == effective_page_size(query.page_size)
    &&& plan.limit == plan.page_size
    &&& plan.offset == (plan.page - 1) * plan.page_size
    &&& plan.sort == spec_sort(query.sort, query.q is Some)
    &&& plan.author_id == query.author_id
    &&& opt_string_view(plan.text_query) == spec_text_query(opt_string_view(query.q))
    &&& opt_strings_view(plan.tags) == spec_split_csv(opt_string_view(query.tags))
    &&& opt_strings_view(plan.categories) == spec_split_csv(opt_string_view(query.categories))
    &&& plan.sql@ == spec_page_query(
        spec_rank_select(plan.text_query is Some),
        spec_order_by(plan.sort, plan.text_query is Some),
    )
}

/// Plan a discovery page: clamp the paging, resolve the ordering and the
/// search text, normalize the tag and category filters, and build the
/// query text.
pub fn plan_discovery(query: DiscoveryQuery) -> (plan: DiscoveryPlan)
    requires
        page_offset_fits(query),
    ensures
        plan_matches(query, plan),
{
    let page = if query.page < 1 {
        1
    } else {
        query.page
    };
    let page_size = if query.page_size < 1 {
        1
    } else if query.page_size > 100 {
        100
    } else {
        query.page_size
    };
    let offset = ((page - 1) * page_size) as i64;
    let limit = page_size as i64;
    let sort = match query.sort {
        Some(s) => s,
        None => if query.q.is_some() {
            SortBy::Relevance
        } else {
            SortBy::Recency
        },
    };
    let text_query = match &query.q {
        Some(q) => trimmed_text(q),
        None => None,
    };
    let has_text = text_query.is_some();
    let order_by: &str = match sort {
        SortBy::Relevance => if has_text {
            "rank DESC, popularity_score DESC"
        } else {
            "popularity_score DESC, created_at DESC"
        },
        SortBy::Popularity => "popularity_score DESC, created_at DESC",
        SortBy::Recency => "created_at DESC",
    };
    let rank_select: &str = if has_text {
        ", ts_rank(p.search_vector, websearch_to_tsquery('english', $4)) AS rank"
    } else {
        ""
    };
    let head: &str = "\n        SELECT p.id, p.name, p.slug, p.description, p.documentation_url, p.owner_id,\n               p.current_version_id, p.is_published, p.created_at, p.updated_at,\n               p.deleted_at, p.popularity_score,\n               COUNT(*) OVER() AS total_count\n        FROM projects p\n        WHERE p.deleted_at IS NULL\n          AND p.is_published = TRUE\n          AND ($1::uuid IS NULL OR p.owner_id = $1)\n          AND ($2::text[] IS NULL OR $2 <@ (\n                SELECT array_agg(tag) FROM project_tags WHERE project_id = p.id))\n          AND ($3::text[] IS NULL OR $3 <@ (\n                SELECT array_agg(category) FROM project_categories WHERE project_id = p.id))\n          AND ($4::text IS NULL OR p.search_vector @@ websearch_to_tsquery('english', $4))\n        ";
    let a = concat(head, rank_select);
    let b = concat(a.as_str(), "\n        ORDER BY ");
    let c = concat(b.as_str(), order_by);
    let sql = concat(c.as_str(), "\n        LIMIT $5 OFFSET $6\n        ");
    let tags = match &query.tags {
        Some(t) => split_csv(Some(t.as_str())),
        None => None,
    };
    let categories = match &query.categories {
        Some(t) => split_csv(Some(t.as_str())),
        None => None,
    };
    DiscoveryPlan {
        page,
        page_size,
        limit,
        offset,
        sort,
        author_id: query.author_id,
        tags,
        categories,
        text_query,
        sql,
    }
}

/// `s` ends with `t`.
pub open spec fn ends_with(s: Seq<char>, t: Seq<char>) -> bool {
    t.len() <= s.len() && s.subrange(s.len() - t.len(), s.len() as int) == t
}

/// `s` starts with `t`.
pub open spec fn starts_with(s: Seq<char>, t: Seq<char>) -> bool {
    t.len() <= s.len() && s.subrange(0, t.len() as int) == t
}

/// The order a discovery page comes in. The requested order is used when
/// there is one; without one, relevance when a search parameter was
/// given and recency otherwise. Popularity puts the most popular first
/// (the newest first among equals), recency the newest first, relevance
/// the best-ranked first (the most popular first among equals) when there
/// is search text to rank by, and falls back to popularity without it.
/// Only with search text is the rank column selected.
pub proof fn lemma_page_order(query: DiscoveryQuery, plan: DiscoveryPlan)
    requires
        plan_matches(query, plan),
    ensures
        query.sort matches Some(s) ==> plan.sort == s,
        query.sort is None && query.q is Some ==> plan.sort == SortBy::Relevance,
        query.sort is None && query.q is None ==> plan.sort == SortBy::Recency,
        plan.sort == SortBy::Popularity ==> ends_with(
            plan.sql@,
            "\n        ORDER BY popularity_score DESC, created_at DESC\n        LIMIT $5 OFFSET $6\n        "@,
        ),
        plan.sort == SortBy::Recency ==> ends_with(
            plan.sql@,
            "\n        ORDER BY created_at DESC\n        LIMIT $5 OFFSET $6\n        "@,
        ),
        plan.sort == SortBy::Relevance && plan.text_query is Some ==> ends_with(
            plan.sql@,
            "\n        ORDER BY rank DESC, popularity_score DESC\n        LIMIT $5 OFFSET $6\n        "@,
        ),
        plan.sort == SortBy::Relevance && plan.text_query is None ==> ends_with(
            plan.sql@,
            "\n        ORDER BY popularity_score DESC, created_at DESC\n        LIMIT $5 OFFSET $6\n        "@,
        ),
        plan.text_query is Some ==> starts_with(
            plan.sql@.subrange(page_query_head().len() as int, plan.sql@.len() as int),
            ", ts_rank(p.search_vector, websearch_to_tsquery('english', $4)) AS rank"@,
        ),
        plan.text_query is None ==> starts_with(
            plan.sql@.subrange(page_query_head().len() as int, plan.sql@.len() as int),
            "\n        ORDER BY "@,
        ),
{
    reveal_strlit("\n        ORDER BY popularity_score DESC, created_at DESC\n        LIMIT $5 OFFSET $6\n        ");
    reveal_strlit("\n        ORDER BY created_at DESC\n        LIMIT $5 OFFSET $6\n        ");
    reveal_strlit("\n        ORDER BY rank DESC, popularity_score DESC\n        LIMIT $5 OFFSET $6\n        ");
    reveal_strlit("popularity_score DESC, created_at DESC");
    reveal_strlit("created_at DESC");
    reveal_strlit("rank DESC, popularity_score DESC");
    reveal_strlit("\n        ORDER BY ");
    reveal_strlit("\n        LIMIT $5 OFFSET $6\n        ");
    reveal_strlit(", ts_rank(p.search_vector, websearch_to_tsquery('english', $4)) AS rank");
    reveal_strlit("");
    let has_text = plan.text_query is Some;
    let rank = spec_rank_select(has_text);
    let order = spec_order_by(plan.sort, has_text);
    let tail = "\n        ORDER BY "@ + order + "\n        LIMIT $5 OFFSET $6\n        "@;
    let sql = plan.sql@;
    assert(sql =~= page_query_head() + (rank + tail));
    assert(sql.subrange(sql.len() - tail.len(), sql.len() as int) =~= tail);
    assert(sql.subrange(page_query_head().len() as int, sql.len() as int) =~= rank + tail);
    let after = rank + tail;
    assert(after.subrange(0, rank.len() as int) =~= rank);
    if !has_text {
        assert(rank =~= Seq::<char>::empty());
        assert(after =~= tail);
        assert(after.subrange(0, "\n        ORDER BY "@.len() as int) =~= "\n        ORDER BY "@);
    }
    let pop = "\n        ORDER BY popularity_score DESC, created_at DESC\n        LIMIT $5 OFFSET $6\n        "@;
    let rec = "\n        ORDER BY created_at DESC\n        LIMIT $5 OFFSET $6\n        "@;
    let rel = "\n        ORDER BY rank DESC, popularity_score DESC\n        LIMIT $5 OFFSET $6\n        "@;
    match plan.sort {
        SortBy::Popularity => {
            assert(tail =~= pop);
        },
        SortBy::Recency => {
            assert(tail =~= rec);
        },
        SortBy::Relevance => {
            if has_text {
                assert(tail =~= rel);
            } else {
                assert(tail =~= pop);
            }
        },
    }
}

/// Number of matches, from the first row's window count (0 without
/// rows).
pub fn page_total(first_row_total: Option<i64>) -> (t: i64)
    ensures
        t == match first_row_total {
            Some(n) => n,
            None => 0,
        },
{
    match first_row_total {
        Some(n) => n,
        None => 0,
    }
}

} // verus!
