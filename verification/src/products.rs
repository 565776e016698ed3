//! The product listing's rules: slugs, the listing filter, its cache key
//! and its page count. Prices are held as the decimal text of their
//! floating-point value; the database binds the value itself.
use crate::text::{
    ascii_lower, chars_of, concat, i64_to_string, is_alphanumeric, is_ascii_alnum, is_ascii_digit,
    is_ascii_text, lemma_signed_decimal,
    opt_string_view, owned, signed_decimal, string_from_chars, to_lowercase, unicode_alphanumeric, unicode_lowercase,
};
use crate::models::{debug_quoted, quoted};
use vstd::prelude::*;

verus! {

// ---------------------------------------------------------------------
// Slugs
// ---------------------------------------------------------------------
/// Spaces become dashes; everything else that is neither alphanumeric nor
/// a dash is dropped.
pub open spec fn product_slug_chars(s: Seq<char>) -> Seq<char>
    decreases s.len(),
{
    if s.len() == 0 {
        Seq::empty()
    } else {
        let prev = product_slug_chars(s.drop_last());
        let c = if s.last() == ' ' {
            '-'
        } else {
            s.last()
        };
        if unicode_alphanumeric(c) || c == '-' {
            prev.push(c)
        } else {
            prev
        }
    }
}

/// `product_slug_chars` on ASCII text, where the alphanumerics are the
/// ASCII letters and digits.
pub open spec fn ascii_slug_chars(s: Seq<char>) -> Seq<char>
    decreases s.len(),
{
    if s.len() == 0 {
        Seq::empty()
    } else {
        let prev = ascii_slug_chars(s.drop_last());
        let c = if s.last() == ' ' {
            '-'
        } else {
            s.last()
        };
        if is_ascii_alnum(c) || c == '-' {
            prev.push(c)
        } else {
            prev
        }
    }
}

/// A product's slug: its lower-cased name with spaces as dashes and other
/// punctuation removed.
pub open spec fn product_slug(name: Seq<char>) -> Seq<char> {
    product_slug_chars(unicode_lowercase(name))
}

pub fn generate_slug(name: &str) -> (slug: String)
    ensures
        slug@ == product_slug(name@),
        is_ascii_text(name@) ==> slug@ == ascii_slug_chars(name@.map_values(|c: char| ascii_lower(c))),
{
    let lower = to_lowercase(name);
    let v = chars_of(lower.as_str());
    let mut out: Vec<char> = Vec::new();
    let n = v.len();
    let ghost ascii = is_ascii_text(name@);
    proof {
        if ascii {
            assert forall|k: int| 0 <= k < v@.len() implies (#[trigger] v@[k] as u32) < 128 by {
                let c = name@[k];
                assert(v@[k] == ascii_lower(c));
                assert((c as u32) < 128);
                if 'A' <= c && c <= 'Z' {
                    assert(((c as u32) + 32) as char as u32 == (c as u32) + 32);
                }
            }
        }
    }
    for i in 0..n
        invariant
            n == v@.len(),
            out@ == product_slug_chars(v@.take(i as int)),
            ascii ==> forall|k: int| 0 <= k < v@.len() ==> (#[trigger] v@[k] as u32) < 128,
            ascii ==> out@ == ascii_slug_chars(v@.take(i as int)),
    {
        assert(v@.take(i + 1).drop_last() =~= v@.take(i as int));
        let c = if v[i] == ' ' {
            '-'
        } else {
            v[i]
        };
        if is_alphanumeric(c) || c == '-' {
            out.push(c);
        }
    }
    assert(v@.take(n as int) =~= v@);
    string_from_chars(&out)
}

/// Spaces become dashes; every other character stays.
pub open spec fn dash_for_space(c: char) -> char {
    if c == ' ' {
        '-'
    } else {
        c
    }
}

/// A product slug keeps exactly the alphanumeric characters and dashes of
/// the (lower-cased) name, in order, spaces counting as dashes; every
/// other character is dropped.
pub proof fn lemma_product_slug_keeps_alphanumerics(s: Seq<char>)
    ensures
        product_slug_chars(s) == s.map_values(|c: char| dash_for_space(c)).filter(
            |c: char| unicode_alphanumeric(c) || c == '-',
        ),
        ascii_slug_chars(s) == s.map_values(|c: char| dash_for_space(c)).filter(
            |c: char| is_ascii_alnum(c) || c == '-',
        ),
    decreases s.len(),
{
    reveal(Seq::filter);
    let m = s.map_values(|c: char| dash_for_space(c));
    if s.len() == 0 {
        assert(m =~= Seq::<char>::empty());
    } else {
        lemma_product_slug_keeps_alphanumerics(s.drop_last());
        assert(m.drop_last() =~= s.drop_last().map_values(|c: char| dash_for_space(c)));
        assert(m.last() == dash_for_space(s.last()));
    }
}

/// For an ASCII name, `generate_slug` keeps every ASCII letter (lower-cased)
/// and digit and every dash, turns spaces into dashes, and drops every
/// other character: the slug is the lower-cased name, spaces as dashes,
/// filtered down to letters, digits and dashes.
pub proof fn lemma_ascii_product_slug(name: Seq<char>)
    ensures
        ascii_slug_chars(name.map_values(|c: char| ascii_lower(c))) == name.map_values(
            |c: char| dash_for_space(ascii_lower(c)),
        ).filter(|c: char| is_ascii_alnum(c) || c == '-'),
{
    let lower = name.map_values(|c: char| ascii_lower(c));
    lemma_product_slug_keeps_alphanumerics(lower);
    assert(lower.map_values(|c: char| dash_for_space(c)) =~= name.map_values(
        |c: char| dash_for_space(ascii_lower(c)),
    ));
}

// ---------------------------------------------------------------------
// Listing filter
// ---------------------------------------------------------------------
/// Listing parameters.
#[derive(Clone, Debug)]
pub struct ProductQuery {
    /// Text searched in names and descriptions.
    pub q: Option<String>,
    /// Lowest price, as the decimal text of its value.
    pub min_price: Option<String>,
    /// Highest price, as the decimal text of its value.
    pub max_price: Option<String>,
    pub category: Option<String>,
    pub limit: Option<i64>,
    pub offset: Option<i64>,
}

/// A piece of the listing query: SQL text, or a bound value.
#[derive(Clone, Debug)]
pub enum SqlPiece {
    Sql(&'static str),
    Text(String),
    /// A price, as the decimal text of its value.
    Price(String),
    Int(i64),
}

/// A piece as plain text.
pub enum PieceView {
    Sql(Seq<char>),
    Text(Seq<char>),
    Price(Seq<char>),
    Int(i64),
}

impl SqlPiece {
    pub open spec fn view(&self) -> PieceView {
        match self {
            SqlPiece::Sql(s) => PieceView::Sql(s@),
            SqlPiece::Text(s) => PieceView::Text(s@),
            SqlPiece::Price(s) => PieceView::Price(s@),
            SqlPiece::Int(n) => PieceView::Int(*n),
        }
    }
}

pub open spec fn spec_text_filter(q: Option<String>) -> Seq<PieceView> {
    match q {
        Some(q) => {
            let pattern = "%"@ + q@ + "%"@;
            seq![
                PieceView::Sql(" AND (name LIKE "@),
                PieceView::Text(pattern),
                PieceView::Sql(" OR description LIKE "@),
                PieceView::Text(pattern),
                PieceView::Sql(")"@),
            ]
        },
        None => Seq::empty(),
    }
}

pub open spec fn spec_bound_filter(sql: Seq<char>, bound: Option<String>) -> Seq<PieceView> {
    match bound {
        Some(p) => seq![PieceView::Sql(sql), PieceView::Price(p@)],
        None => Seq::empty(),
    }
}

pub open spec fn spec_category_filter(category: Option<String>) -> Seq<PieceView> {
    match category {
        Some(c) => seq![PieceView::Sql(" AND category = "@), PieceView::Text(c@)],
        None => Seq::empty(),
    }
}

pub open spec fn spec_paging(limit: Option<i64>, offset: Option<i64>) -> Seq<PieceView> {
    seq![
        PieceView::Sql(" ORDER BY created_at DESC"@),
        PieceView::Sql(" LIMIT "@),
        PieceView::Int(
            match limit {
                Some(l) => l,
                None => 20,
            },
        ),
        PieceView::Sql(" OFFSET "@),
        PieceView::Int(
            match offset {
                Some(o) => o,
                None => 0,
            },
        ),
    ]
}

/// The filter appended to the listing query: a text search on name and
/// description, the price bounds, the category, then newest first with
/// the limit (default 20) and offset (default 0).
pub open spec fn spec_filters(query: ProductQuery) -> Seq<PieceView> {
    spec_text_filter(query.q) + spec_bound_filter(" AND price >= "@, query.min_price)
        + spec_bound_filter(" AND price <= "@, query.max_price) + spec_category_filter(
        query.category,
    ) + spec_paging(query.limit, query.offset)
}

pub open spec fn pieces_view(v: Seq<SqlPiece>) -> Seq<PieceView> {
    v.map_values(|p: SqlPiece| p.view())
}

fn push_piece(v: &mut Vec<SqlPiece>, p: SqlPiece)
    ensures
        pieces_view(final(v)@) == pieces_view(old(v)@).push(p.view()),
{
    let ghost before = v@;
    v.push(p);
    assert(pieces_view(v@) =~= pieces_view(before).push(p.view()));
}

fn append_pieces(v: &mut Vec<SqlPiece>, mut more: Vec<SqlPiece>)
    ensures
        pieces_view(final(v)@) == pieces_view(old(v)@) + pieces_view(more@),
{
    let ghost a = v@;
    let ghost b = more@;
    v.append(&mut more);
    assert(v@ =~= a + b);
    assert(pieces_view(v@) =~= pieces_view(a) + pieces_view(b));
}

fn text_filter(q: &Option<String>) -> (v: Vec<SqlPiece>)
    ensures
        pieces_view(v@) == spec_text_filter(*q),
{
    let mut v: Vec<SqlPiece> = Vec::new();
    match q {
        Some(q) => {
            let a = concat("%", q.as_str());
            let pattern = concat(a.as_str(), "%");
            push_piece(&mut v, SqlPiece::Sql(" AND (name LIKE "));
            push_piece(&mut v, SqlPiece::Text(pattern.clone()));
            push_piece(&mut v, SqlPiece::Sql(" OR description LIKE "));
            push_piece(&mut v, SqlPiece::Text(pattern));
            push_piece(&mut v, SqlPiece::Sql(")"));
            assert(pieces_view(v@) =~= spec_text_filter(Some(*q)));
        },
        None => {
            assert(pieces_view(v@) =~= Seq::<PieceView>::empty());
        },
    }
    v
}

fn bound_filter(sql: &'static str, bound: &Option<String>) -> (v: Vec<SqlPiece>)
    ensures
        pieces_view(v@) == spec_bound_filter(sql@, *bound),
{
    let mut v: Vec<SqlPiece> = Vec::new();
    match bound {
        Some(p) => {
            push_piece(&mut v, SqlPiece::Sql(sql));
            push_piece(&mut v, SqlPiece::Price(p.clone()));
            assert(pieces_view(v@) =~= spec_bound_filter(sql@, Some(*p)));
        },
        None => {
            assert(pieces_view(v@) =~= Seq::<PieceView>::empty());
        },
    }
    v
}

fn category_filter(category: &Option<String>) -> (v: Vec<SqlPiece>)
    ensures
        pieces_view(v@) == spec_category_filter(*category),
{
    let mut v: Vec<SqlPiece> = Vec::new();
    match category {
        Some(c) => {
            push_piece(&mut v, SqlPiece::Sql(" AND category = "));
            push_piece(&mut v, SqlPiece::Text(c.clone()));
            assert(pieces_view(v@) =~= spec_category_filter(Some(*c)));
        },
        None => {
            assert(pieces_view(v@) =~= Seq::<PieceView>::empty());
        },
    }
    v
}

fn paging(limit: Option<i64>, offset: Option<i64>) -> (v: Vec<SqlPiece>)
    ensures
        pieces_view(v@) == spec_paging(limit, offset),
{
    let l = match limit {
        Some(l) => l,
        None => 20,
    };
    let o = match offset {
        Some(o) => o,
        None => 0,
    };
    let mut v: Vec<SqlPiece> = Vec::new();
    push_piece(&mut v, SqlPiece::Sql(" ORDER BY created_at DESC"));
    push_piece(&mut v, SqlPiece::Sql(" LIMIT "));
    push_piece(&mut v, SqlPiece::Int(l));
    push_piece(&mut v, SqlPiece::Sql(" OFFSET "));
    push_piece(&mut v, SqlPiece::Int(o));
    assert(pieces_view(v@) =~= spec_paging(limit, offset));
    v
}

/// The filter pieces for a listing query.
pub fn build_filters(query: ProductQuery) -> (pieces: Vec<SqlPiece>)
    ensures
        pieces_view(pieces@) == spec_filters(query),
{
    let mut v = text_filter(&query.q);
    append_pieces(&mut v, bound_filter(" AND price >= ", &query.min_price));
    append_pieces(&mut v, bound_filter(" AND price <= ", &query.max_price));
    append_pieces(&mut v, category_filter(&query.category));
    append_pieces(&mut v, paging(query.limit, query.offset));
    v
}

/// Number of pieces an optional filter adds.
pub open spec fn present<T>(o: Option<T>, n: int) -> int {
    if o is Some {
        n
    } else {
        0
    }
}

/// What the listing filter is made of, in order: the name and description
/// search when there is search text, then each given price bound and the
/// category, each SQL text immediately followed by its bound value, then
/// newest first with the limit (20 when not given) and the offset (0 when
/// not given). A bound that is not given adds nothing: its SQL text
/// appears nowhere.
pub proof fn lemma_filter_pieces(query: ProductQuery, pieces: Seq<PieceView>)
    requires
        pieces == spec_filters(query),
    ensures
        ({
            let at_min = present(query.q, 5);
            let at_max = at_min + present(query.min_price, 2);
            let at_category = at_max + present(query.max_price, 2);
            let at_paging = at_category + present(query.category, 2);
            &&& pieces.len() == at_paging + 5
            &&& query.q matches Some(q) ==> {
                &&& pieces[0] == PieceView::Sql(" AND (name LIKE "@)
                &&& pieces[1] == PieceView::Text("%"@ + q@ + "%"@)
                &&& pieces[2] == PieceView::Sql(" OR description LIKE "@)
                &&& pieces[3] == PieceView::Text("%"@ + q@ + "%"@)
                &&& pieces[4] == PieceView::Sql(")"@)
            }
            &&& query.min_price matches Some(p) ==> pieces[at_min] == PieceView::Sql(" AND price >= "@)
                && pieces[at_min + 1] == PieceView::Price(p@)
            &&& query.max_price matches Some(p) ==> pieces[at_max] == PieceView::Sql(" AND price <= "@)
                && pieces[at_max + 1] == PieceView::Price(p@)
            &&& query.category matches Some(c) ==> pieces[at_category] == PieceView::Sql(
                " AND category = "@,
            ) && pieces[at_category + 1] == PieceView::Text(c@)
            &&& pieces[at_paging] == PieceView::Sql(" ORDER BY created_at DESC"@)
            &&& pieces[at_paging + 1] == PieceView::Sql(" LIMIT "@)
            &&& pieces[at_paging + 2] == PieceView::Int(
                match query.limit {
                    Some(l) => l,
                    None => 20,
                },
            )
            &&& pieces[at_paging + 3] == PieceView::Sql(" OFFSET "@)
            &&& pieces[at_paging + 4] == PieceView::Int(
                match query.offset {
                    Some(o) => o,
                    None => 0,
                },
            )
            &&& query.min_price is None ==> forall|i: int|
                0 <= i < pieces.len() ==> #[trigger] pieces[i] != PieceView::Sql(" AND price >= "@)
            &&& query.max_price is None ==> forall|i: int|
                0 <= i < pieces.len() ==> #[trigger] pieces[i] != PieceView::Sql(" AND price <= "@)
            &&& query.category is None ==> forall|i: int|
                0 <= i < pieces.len() ==> #[trigger] pieces[i] != PieceView::Sql(" AND category = "@)
            &&& query.q is None ==> forall|i: int|
                0 <= i < pieces.len() ==> #[trigger] pieces[i] != PieceView::Sql(" AND (name LIKE "@)
        }),
{
    reveal_strlit(" AND (name LIKE ");
    reveal_strlit(" OR description LIKE ");
    reveal_strlit(")");
    reveal_strlit(" AND price >= ");
    reveal_strlit(" AND price <= ");
    reveal_strlit(" AND category = ");
    reveal_strlit(" ORDER BY created_at DESC");
    reveal_strlit(" LIMIT ");
    reveal_strlit(" OFFSET ");
    let a = spec_text_filter(query.q);
    let b = spec_bound_filter(" AND price >= "@, query.min_price);
    let c = spec_bound_filter(" AND price <= "@, query.max_price);
    let d = spec_category_filter(query.category);
    let e = spec_paging(query.limit, query.offset);
    assert(pieces =~= a + b + c + d + e);
    let at_min = present(query.q, 5);
    let at_max = at_min + present(query.min_price, 2);
    let at_category = at_max + present(query.max_price, 2);
    let at_paging = at_category + present(query.category, 2);
    assert(a.len() == at_min);
    assert(b.len() == present(query.min_price, 2));
    assert(c.len() == present(query.max_price, 2));
    assert(d.len() == present(query.category, 2));
    assert forall|i: int| 0 <= i < a.len() implies pieces[i] == a[i] by {}
    assert forall|i: int| 0 <= i < b.len() implies pieces[at_min + i] == b[i] by {}
    assert forall|i: int| 0 <= i < c.len() implies pieces[at_max + i] == c[i] by {}
    assert forall|i: int| 0 <= i < d.len() implies pieces[at_category + i] == d[i] by {}
    assert forall|i: int| 0 <= i < 5 implies pieces[at_paging + i] == e[i] by {}
    // The SQL texts are told apart by length or by one character.
    assert(" AND price >= "@.len() == 14 && " AND price <= "@.len() == 14);
    assert(" AND category = "@.len() == 16 && " AND (name LIKE "@.len() == 16);
    assert(" OR description LIKE "@.len() == 21 && ")"@.len() == 1);
    assert(" ORDER BY created_at DESC"@.len() == 25 && " LIMIT "@.len() == 7);
    assert(" OFFSET "@.len() == 8);
    assert(" AND price >= "@[11] != " AND price <= "@[11]);
    assert(" AND (name LIKE "@[5] != " AND category = "@[5]);
    assert forall|i: int| 0 <= i < pieces.len() implies {
        &&& (query.min_price is None ==> pieces[i] != PieceView::Sql(" AND price >= "@))
        &&& (query.max_price is None ==> pieces[i] != PieceView::Sql(" AND price <= "@))
        &&& (query.category is None ==> pieces[i] != PieceView::Sql(" AND category = "@))
        &&& (query.q is None ==> pieces[i] != PieceView::Sql(" AND (name LIKE "@))
    } by {
        if i < at_min {
            assert(pieces[i] == a[i]);
        } else if i < at_max {
            assert(pieces[i] == b[i - at_min]);
        } else if i < at_category {
            assert(pieces[i] == c[i - at_max]);
        } else if i < at_paging {
            assert(pieces[i] == d[i - at_category]);
        } else {
            assert(pieces[i] == e[i - at_paging]);
        }
    }
}

// ---------------------------------------------------------------------
// Cache key
// ---------------------------------------------------------------------
/// The cache key of a listing query: one `:field:value` part per given
/// parameter, in a fixed order.
pub open spec fn spec_cache_key(query: ProductQuery) -> Seq<char> {
    text_part(":name:"@, match query.q {
        Some(q) => Some("%"@ + q@ + "%"@),
        None => None,
    }) + text_part(":price>:"@, opt_string_view(query.min_price)) + text_part(
        ":price<:"@,
        opt_string_view(query.max_price),
    ) + text_part(":category:"@, opt_string_view(query.category)) + text_part(
        ":limit:"@,
        match query.limit {
            Some(l) => Some(signed_decimal(l as int)),
            None => None,
        },
    ) + text_part(
        ":offset:"@,
        match query.offset {
            Some(o) => Some(signed_decimal(o as int)),
            None => None,
        },
    )
}

/// `label` and `value` when there is a value.
pub open spec fn text_part(label: Seq<char>, value: Option<Seq<char>>) -> Seq<char> {
    match value {
        Some(v) => label + v,
        None => Seq::empty(),
    }
}

/// The part of a cache key labelled `label` for an optional number.
pub open spec fn number_part(label: Seq<char>, n: Option<i64>) -> Seq<char> {
    text_part(
        label,
        match n {
            Some(v) => Some(signed_decimal(v as int)),
            None => None,
        },
    )
}

/// The offset part of a key tells the offsets apart.
proof fn lemma_offset_part_injective(a: Option<i64>, b: Option<i64>)
    requires
        number_part(":offset:"@, a) == number_part(":offset:"@, b),
    ensures
        a == b,
{
    reveal_strlit(":offset:");
    let w = number_part(":offset:"@, a);
    match (a, b) {
        (Some(x), Some(y)) => {
            assert(signed_decimal(x as int) =~= w.subrange(8, w.len() as int));
            assert(signed_decimal(y as int) =~= w.subrange(8, w.len() as int));
            lemma_signed_decimal(x as int, y as int);
        },
        (Some(x), None) => {
            assert(w.len() >= 8);
        },
        (None, Some(y)) => {
            assert(number_part(":offset:"@, b).len() >= 8);
        },
        (None, None) => {},
    }
}

/// The limit and offset parts of a key tell both apart: the limit's
/// digits end where the offset's label (or the key) begins.
proof fn lemma_paging_parts_injective(la: Option<i64>, oa: Option<i64>, lb: Option<i64>, ob: Option<i64>)
    requires
        number_part(":limit:"@, la) + number_part(":offset:"@, oa) == number_part(":limit:"@, lb)
            + number_part(":offset:"@, ob),
    ensures
        la == lb,
        oa == ob,
{
    reveal_strlit(":limit:");
    reveal_strlit(":offset:");
    let pa = number_part(":offset:"@, oa);
    let pb = number_part(":offset:"@, ob);
    let w = number_part(":limit:"@, la) + pa;
    assert(pa.len() > 0 ==> pa[0] == ':' && pa[1] == 'o');
    assert(pb.len() > 0 ==> pb[0] == ':' && pb[1] == 'o');
    match (la, lb) {
        (None, None) => {
            assert(w =~= pa);
            assert(number_part(":limit:"@, lb) + pb =~= pb);
            lemma_offset_part_injective(oa, ob);
        },
        (Some(x), None) => {
            assert(w[1] == 'l');
            assert(number_part(":limit:"@, lb) + pb =~= pb);
        },
        (None, Some(y)) => {
            assert(w =~= pa);
            assert((number_part(":limit:"@, lb) + pb)[1] == 'l');
        },
        (Some(x), Some(y)) => {
            let dx = signed_decimal(x as int);
            let dy = signed_decimal(y as int);
            lemma_signed_decimal(x as int, y as int);
            lemma_signed_decimal(y as int, x as int);
            let v = w.subrange(7, w.len() as int);
            assert(v =~= dx + pa);
            assert(v =~= dy + pb);
            if dx.len() < dy.len() {
                if pa.len() == 0 {
                    assert(v.len() == dx.len());
                } else {
                    assert(v[dx.len() as int] == pa[0]);
                    assert(v[dx.len() as int] == dy[dx.len() as int]);
                    assert(is_ascii_digit(dy[dx.len() as int]) || dy[dx.len() as int] == '-');
                }
            } else if dy.len() < dx.len() {
                if pb.len() == 0 {
                    assert(v.len() == dy.len());
                } else {
                    assert(v[dy.len() as int] == pb[0]);
                    assert(v[dy.len() as int] == dx[dy.len() as int]);
                    assert(is_ascii_digit(dx[dy.len() as int]) || dx[dy.len() as int] == '-');
                }
            } else {
                assert(dx =~= v.subrange(0, dx.len() as int));
                assert(dy =~= v.subrange(0, dx.len() as int));
                assert(pa =~= v.subrange(dx.len() as int, v.len() as int));
                assert(pb =~= v.subrange(dx.len() as int, v.len() as int));
                lemma_offset_part_injective(oa, ob);
            }
        },
    }
}

/// `a + x + b == a + y + b` only when `x == y`.
proof fn lemma_cancel_around(a: Seq<char>, x: Seq<char>, y: Seq<char>, b: Seq<char>)
    requires
        a + x + b == a + y + b,
    ensures
        x == y,
{
    let l = a + x + b;
    assert(l.len() == a.len() + x.len() + b.len());
    assert((a + y + b).len() == a.len() + y.len() + b.len());
    assert(x.len() == y.len());
    assert(x =~= l.subrange(a.len() as int, (a.len() + x.len()) as int));
    assert(y =~= (a + y + b).subrange(a.len() as int, (a.len() + y.len()) as int));
}

/// A labelled part tells its values apart.
proof fn lemma_text_part_injective(label: Seq<char>, u: Option<Seq<char>>, v: Option<Seq<char>>)
    requires
        label.len() > 0,
        text_part(label, u) == text_part(label, v),
    ensures
        u == v,
{
    let w = text_part(label, u);
    match (u, v) {
        (Some(x), Some(y)) => {
            assert(x =~= w.subrange(label.len() as int, w.len() as int));
            assert(y =~= w.subrange(label.len() as int, w.len() as int));
        },
        (Some(x), None) => {
            assert(w.len() >= label.len());
        },
        (None, Some(y)) => {
            assert(text_part(label, v).len() >= label.len());
        },
        (None, None) => {},
    }
}

/// The name part of a key for search text `q`.
pub open spec fn name_value(q: Option<String>) -> Option<Seq<char>> {
    match q {
        Some(q) => Some("%"@ + q@ + "%"@),
        None => None,
    }
}

/// The fields a listing's cache key is made of, as text and numbers.
pub open spec fn key_fields(q: ProductQuery) -> (
    Option<Seq<char>>,
    Option<Seq<char>>,
    Option<Seq<char>>,
    Option<Seq<char>>,
    Option<i64>,
    Option<i64>,
) {
    (
        opt_string_view(q.q),
        opt_string_view(q.min_price),
        opt_string_view(q.max_price),
        opt_string_view(q.category),
        q.limit,
        q.offset,
    )
}

/// The six parts of a listing's cache key, in order.
pub open spec fn key_parts(q: ProductQuery) -> Seq<Seq<char>> {
    seq![
        text_part(":name:"@, name_value(q.q)),
        text_part(":price>:"@, opt_string_view(q.min_price)),
        text_part(":price<:"@, opt_string_view(q.max_price)),
        text_part(":category:"@, opt_string_view(q.category)),
        number_part(":limit:"@, q.limit),
        number_part(":offset:"@, q.offset),
    ]
}

/// Six parts, joined.
pub open spec fn join_parts(p: Seq<Seq<char>>) -> Seq<char> {
    p[0] + p[1] + p[2] + p[3] + p[4] + p[5]
}

proof fn lemma_key_is_parts(q: ProductQuery)
    ensures
        spec_cache_key(q) == join_parts(key_parts(q)),
{
    assert(spec_cache_key(q) =~= join_parts(key_parts(q)));
}

/// Two joins that agree on all parts but one agree on that one too.
#[verifier::rlimit(40)]
proof fn lemma_parts_cancel(pa: Seq<Seq<char>>, pb: Seq<Seq<char>>, k: int)
    requires
        pa.len() == 6,
        pb.len() == 6,
        0 <= k < 6,
        forall|j: int| 0 <= j < 6 && j != k ==> pa[j] == pb[j],
        join_parts(pa) == join_parts(pb),
    ensures
        pa[k] == pb[k],
{
    let e = Seq::<char>::empty();
    assert(pa[0] == pb[0] || k == 0);
    assert(pa[1] == pb[1] || k == 1);
    assert(pa[2] == pb[2] || k == 2);
    assert(pa[3] == pb[3] || k == 3);
    assert(pa[4] == pb[4] || k == 4);
    assert(pa[5] == pb[5] || k == 5);
    if k == 0 {
        let t = pa[1] + pa[2] + pa[3] + pa[4] + pa[5];
        assert(join_parts(pa) =~= e + pa[0] + t);
        assert(join_parts(pb) =~= e + pb[0] + t);
        lemma_cancel_around(e, pa[0], pb[0], t);
    } else if k == 1 {
        let t = pa[2] + pa[3] + pa[4] + pa[5];
        assert(join_parts(pa) =~= pa[0] + pa[1] + t);
        assert(join_parts(pb) =~= pa[0] + pb[1] + t);
        lemma_cancel_around(pa[0], pa[1], pb[1], t);
    } else if k == 2 {
        let h = pa[0] + pa[1];
        let t = pa[3] + pa[4] + pa[5];
        assert(join_parts(pa) =~= h + pa[2] + t);
        assert(join_parts(pb) =~= h + pb[2] + t);
        lemma_cancel_around(h, pa[2], pb[2], t);
    } else if k == 3 {
        let h = pa[0] + pa[1] + pa[2];
        let t = pa[4] + pa[5];
        assert(join_parts(pa) =~= h + pa[3] + t);
        assert(join_parts(pb) =~= h + pb[3] + t);
        lemma_cancel_around(h, pa[3], pb[3], t);
    } else if k == 4 {
        let h = pa[0] + pa[1] + pa[2] + pa[3];
        assert(join_parts(pa) =~= h + pa[4] + pa[5]);
        assert(join_parts(pb) =~= h + pb[4] + pa[5]);
        lemma_cancel_around(h, pa[4], pb[4], pa[5]);
    } else {
        let h = pa[0] + pa[1] + pa[2] + pa[3] + pa[4];
        assert(join_parts(pa) =~= h + pa[5] + e);
        assert(join_parts(pb) =~= h + pb[5] + e);
        lemma_cancel_around(h, pa[5], pb[5], e);
    }
}

/// The name part tells search texts apart.
proof fn lemma_name_part_injective(a: Option<String>, b: Option<String>)
    requires
        text_part(":name:"@, name_value(a)) == text_part(":name:"@, name_value(b)),
    ensures
        opt_string_view(a) == opt_string_view(b),
{
    reveal_strlit(":name:");
    reveal_strlit("%");
    lemma_text_part_injective(":name:"@, name_value(a), name_value(b));
    match (a, b) {
        (Some(x), Some(y)) => {
            let w = "%"@ + x@ + "%"@;
            assert(x@ =~= w.subrange(1, w.len() - 1));
            assert(y@ =~= w.subrange(1, w.len() - 1));
        },
        _ => {},
    }
}

/// Every filter is part of a listing's cache key: two queries that agree
/// on all fields but one, and differ in that one (search text, lowest
/// price, highest price, category, limit or offset), get different keys.
/// So no filtered listing is served from another listing's cache entry.
pub proof fn lemma_cache_key_tells_filters_apart(a: ProductQuery, b: ProductQuery)
    requires
        spec_cache_key(a) == spec_cache_key(b),
    ensures
        ({
            let (aq, amin, amax, acat, alim, aoff) = key_fields(a);
            let (bq, bmin, bmax, bcat, blim, boff) = key_fields(b);
            &&& amin == bmin && amax == bmax && acat == bcat && alim == blim && aoff == boff
                ==> aq == bq
            &&& aq == bq && amax == bmax && acat == bcat && alim == blim && aoff == boff
                ==> amin == bmin
            &&& aq == bq && amin == bmin && acat == bcat && alim == blim && aoff == boff
                ==> amax == bmax
            &&& aq == bq && amin == bmin && amax == bmax && alim == blim && aoff == boff
                ==> acat == bcat
            &&& aq == bq && amin == bmin && amax == bmax && acat == bcat && aoff == boff
                ==> alim == blim
            &&& aq == bq && amin == bmin && amax == bmax && acat == bcat && alim == blim
                ==> aoff == boff
        }),
{
    reveal_strlit(":price>:");
    reveal_strlit(":price<:");
    reveal_strlit(":category:");
    let pa = key_parts(a);
    let pb = key_parts(b);
    lemma_key_is_parts(a);
    lemma_key_is_parts(b);
    let (aq, amin, amax, acat, alim, aoff) = key_fields(a);
    let (bq, bmin, bmax, bcat, blim, boff) = key_fields(b);
    if aq == bq {
        assert(name_value(a.q) == name_value(b.q));
    }
    if amin == bmin && amax == bmax && acat == bcat && alim == blim && aoff == boff {
        lemma_parts_cancel(pa, pb, 0);
        lemma_name_part_injective(a.q, b.q);
    }
    if aq == bq && amax == bmax && acat == bcat && alim == blim && aoff == boff {
        lemma_parts_cancel(pa, pb, 1);
        lemma_text_part_injective(":price>:"@, amin, bmin);
    }
    if aq == bq && amin == bmin && acat == bcat && alim == blim && aoff == boff {
        lemma_parts_cancel(pa, pb, 2);
        lemma_text_part_injective(":price<:"@, amax, bmax);
    }
    if aq == bq && amin == bmin && amax == bmax && alim == blim && aoff == boff {
        lemma_parts_cancel(pa, pb, 3);
        lemma_text_part_injective(":category:"@, acat, bcat);
    }
    if aq == bq && amin == bmin && amax == bmax && acat == bcat && aoff == boff {
        lemma_parts_cancel(pa, pb, 4);
        if alim != blim {
            assert(pa[4] + pa[5] == pb[4] + pb[5]);
            lemma_paging_parts_injective(a.limit, a.offset, b.limit, b.offset);
        }
    }
    if aq == bq && amin == bmin && amax == bmax && acat == bcat && alim == blim {
        lemma_parts_cancel(pa, pb, 5);
        lemma_offset_part_injective(a.offset, b.offset);
    }
}

/// Each page of a listing is cached on its own: two queries that agree on
/// everything but their limit or offset get different cache keys.
pub proof fn lemma_cache_key_tells_pages_apart(a: ProductQuery, b: ProductQuery)
    requires
        a.q == b.q,
        a.min_price == b.min_price,
        a.max_price == b.max_price,
        a.category == b.category,
        a.limit != b.limit || a.offset != b.offset,
    ensures
        spec_cache_key(a) != spec_cache_key(b),
{
    let head = text_part(":name:"@, match a.q {
        Some(q) => Some("%"@ + q@ + "%"@),
        None => None,
    }) + text_part(":price>:"@, opt_string_view(a.min_price)) + text_part(
        ":price<:"@,
        opt_string_view(a.max_price),
    ) + text_part(":category:"@, opt_string_view(a.category));
    let ta = number_part(":limit:"@, a.limit) + number_part(":offset:"@, a.offset);
    let tb = number_part(":limit:"@, b.limit) + number_part(":offset:"@, b.offset);
    assert(spec_cache_key(a) =~= head + ta);
    assert(spec_cache_key(b) =~= head + tb);
    if spec_cache_key(a) == spec_cache_key(b) {
        assert(ta =~= spec_cache_key(a).subrange(head.len() as int, spec_cache_key(a).len() as int));
        assert(tb =~= spec_cache_key(b).subrange(head.len() as int, spec_cache_key(b).len() as int));
        lemma_paging_parts_injective(a.limit, a.offset, b.limit, b.offset);
    }
}

fn append_part(key: &mut String, label: &str, value: &Option<String>)
    ensures
        final(key)@ == old(key)@ + text_part(label@, opt_string_view(*value)),
{
    match value {
        Some(v) => {
            key.append(label);
            key.append(v.as_str());
        },
        None => {
            assert(old(key)@ + Seq::<char>::empty() =~= old(key)@);
        },
    }
}

/// Deterministic cache key for a listing query; limit and offset are part
/// of it, so each page is cached on its own.
pub fn cache_key_for_query(query: &ProductQuery) -> (key: String)
    ensures
        key@ == spec_cache_key(*query),
{
    let mut key = String::new();
    let pattern = match &query.q {
        Some(q) => {
            let a = concat("%", q.as_str());
            Some(concat(a.as_str(), "%"))
        },
        None => None,
    };
    append_part(&mut key, ":name:", &pattern);
    append_part(&mut key, ":price>:", &query.min_price);
    append_part(&mut key, ":price<:", &query.max_price);
    append_part(&mut key, ":category:", &query.category);
    let limit = match query.limit {
        Some(l) => Some(i64_to_string(l)),
        None => None,
    };
    append_part(&mut key, ":limit:", &limit);
    let offset = match query.offset {
        Some(o) => Some(i64_to_string(o)),
        None => None,
    };
    append_part(&mut key, ":offset:", &offset);
    proof {
        assert(key@ =~= spec_cache_key(*query));
    }
    key
}

// ---------------------------------------------------------------------
// Page count and errors
// ---------------------------------------------------------------------
/// Pages needed for `count` products at `limit` per page (at least one).
pub open spec fn spec_total_pages(count: nat, limit: nat) -> nat {
    if count == 0 {
        1
    } else {
        ((count + limit - 1) / (limit as int)) as nat
    }
}

/// Listing page parameters as they arrive in the query string.
#[derive(Clone, Debug)]
pub struct SafeProductQuery {
    pub q: Option<String>,
    pub category: Option<String>,
    pub min_price: Option<String>,
    pub max_price: Option<String>,
    pub limit: Option<String>,
    pub offset: Option<String>,
}

/// The `Debug` rendering of an optional text: `None`, or `Some("...")`.
pub open spec fn debug_opt(o: Option<String>) -> Seq<char> {
    match o {
        Some(s) => "Some("@ + debug_quoted(s@) + ")"@,
        None => "None"@,
    }
}

fn render_opt(o: &Option<String>) -> (r: String)
    ensures
        r@ == debug_opt(*o),
{
    match o {
        Some(s) => {
            let q = quoted(s.as_str());
            let a = concat("Some(", q.as_str());
            concat(a.as_str(), ")")
        },
        None => owned("None"),
    }
}

/// The key a rendered listing page is cached under: every parameter, in
/// its `Debug` rendering, so that each filtered or paginated view is
/// cached on its own.
pub open spec fn spec_page_cache_key(query: SafeProductQuery) -> Seq<char> {
    "catalog:q="@ + debug_opt(query.q) + ":cat="@ + debug_opt(query.category) + ":min="@
        + debug_opt(query.min_price) + ":max="@ + debug_opt(query.max_price) + ":limit="@
        + debug_opt(query.limit) + ":offset="@ + debug_opt(query.offset)
}

fn push_labelled(key: &mut String, label: &str, value: &Option<String>)
    ensures
        final(key)@ == old(key)@ + label@ + debug_opt(*value),
{
    let r = render_opt(value);
    key.append(label);
    key.append(r.as_str());
}

/// The cache key of a rendered listing page.
pub fn page_cache_key(query: &SafeProductQuery) -> (key: String)
    ensures
        key@ == spec_page_cache_key(*query),
{
    let mut key = String::new();
    push_labelled(&mut key, "catalog:q=", &query.q);
    push_labelled(&mut key, ":cat=", &query.category);
    push_labelled(&mut key, ":min=", &query.min_price);
    push_labelled(&mut key, ":max=", &query.max_price);
    push_labelled(&mut key, ":limit=", &query.limit);
    push_labelled(&mut key, ":offset=", &query.offset);
    proof {
        assert(key@ =~= spec_page_cache_key(*query));
    }
    key
}

/// Pages for the products fetched: 1 when there are none, else the
/// ceiling of `count / limit`.
pub fn total_pages(count: usize, limit: usize) -> (pages: usize)
    requires
        count == 0 || limit > 0,
        count + limit - 1 <= usize::MAX,
    ensures
        pages == spec_total_pages(count as nat, limit as nat),
{
    if count == 0 {
        1
    } else {
        (count - 1 + limit) / limit
    }
}

/// The page count covers what was fetched and leaves no empty page: with
/// `limit` items a page, `pages - 1` pages hold fewer than `count` items
/// and `pages` pages hold them all.
pub proof fn lemma_total_pages_cover(count: nat, limit: nat)
    requires
        count > 0,
        limit > 0,
    ensures
        (spec_total_pages(count, limit) - 1) * limit < count <= spec_total_pages(count, limit) * limit,
{
    let x: int = count + limit - 1;
    let d: int = limit as int;
    vstd::arithmetic::div_mod::lemma_fundamental_div_mod(x, d);
    let q = x / d;
    let r = x % d;
    assert(0 <= r < d) by {
        vstd::arithmetic::div_mod::lemma_mod_bound(x, d);
    }
    assert(spec_total_pages(count, limit) == q);
    assert((q - 1) * d == q * d - d) by (nonlinear_arith);
    assert(d * q == q * d) by (nonlinear_arith);
}

/// The value of a run of ASCII digits.
pub open spec fn digits_value(d: Seq<char>) -> int
    decreases d.len(),
{
    if d.len() == 0 {
        0
    } else {
        digits_value(d.drop_last()) * 10 + (d.last() as int - '0' as int)
    }
}

/// What `str::parse::<usize>` gives for `s`: an optional `+`, then one or
/// more ASCII digits whose value fits in a `usize`; anything else
/// (including a `-`, white space or an empty text) is refused.
pub open spec fn parsed_usize(s: Seq<char>) -> Option<usize> {
    let d = if s.len() > 0 && s[0] == '+' {
        s.drop_first()
    } else {
        s
    };
    if d.len() > 0 && (forall|i: int| 0 <= i < d.len() ==> is_ascii_digit(#[trigger] d[i]))
        && digits_value(d) <= usize::MAX {
        Some(digits_value(d) as usize)
    } else {
        None
    }
}

/// Calls `str::parse::<usize>`, whose accepted form its documentation
/// gives: an optional `+` followed by digits, within the type's range.
#[verifier::external_body]
fn parse_usize(s: &str) -> (r: Option<usize>)
    ensures
        r == parsed_usize(s@),
{
    s.parse::<usize>().ok()
}

/// The page size a listing page shows: the `limit` parameter when it is a
/// number, else 20.
pub fn page_limit(limit: Option<&str>) -> (n: usize)
    ensures
        n == match crate::text::opt_str_view(limit) {
            Some(s) => match parsed_usize(s) {
                Some(v) => v,
                None => 20,
            },
            None => 20,
        },
{
    match limit {
        Some(s) => match parse_usize(s) {
            Some(v) => v,
            None => 20,
        },
        None => 20,
    }
}

/// Failure of the product service (the store failed).
#[derive(Clone, Copy, Debug, PartialEq, Eq, Structural)]
pub enum ServiceError {
    Db,
}

} // verus!
