use catalog::products::{
    build_filters, cache_key_for_query, generate_slug, page_cache_key, page_limit, total_pages,
    ProductQuery, SafeProductQuery, SqlPiece,
};
use catalog::search::{
    default_page, default_page_size, offset_fits, page_total, plan_discovery, split_csv,
    DiscoveryQuery, SortBy,
};

fn query() -> DiscoveryQuery {
    DiscoveryQuery {
        q: None,
        tags: None,
        categories: None,
        author_id: None,
        sort: None,
        page: default_page(),
        page_size: default_page_size(),
    }
}

fn product_query() -> ProductQuery {
    ProductQuery { q: None, min_price: None, max_price: None, category: None, limit: None, offset: None }
}

#[test]
fn paging_defaults() {
    assert_eq!(default_page(), 1);
    assert_eq!(default_page_size(), 20);
}

#[test]
fn csv_lists_are_trimmed_lowercased_and_filtered() {
    assert_eq!(split_csv(None), None);
    assert_eq!(split_csv(Some("")), None);
    assert_eq!(split_csv(Some(" , ,")), None);
    assert_eq!(
        split_csv(Some(" Web, CLI ,,tools")),
        Some(vec!["web".to_string(), "cli".to_string(), "tools".to_string()])
    );
    assert_eq!(split_csv(Some("ÉTÉ")), Some(vec!["été".to_string()]));
}

#[test]
fn plan_clamps_paging() {
    let mut q = query();
    q.page = 0;
    q.page_size = 0;
    let p = plan_discovery(q);
    assert_eq!((p.page, p.page_size, p.limit, p.offset), (1, 1, 1, 0));

    let mut q = query();
    q.page = 3;
    q.page_size = 500;
    let p = plan_discovery(q);
    assert_eq!((p.page, p.page_size, p.limit, p.offset), (3, 100, 100, 200));
}

#[test]
fn plan_orders_by_recency_without_a_query() {
    let p = plan_discovery(query());
    assert!(matches!(p.sort, SortBy::Recency));
    assert!(p.text_query.is_none());
    assert!(p.sql.contains("ORDER BY created_at DESC"));
    assert!(!p.sql.contains("ts_rank"));
}

#[test]
fn plan_ranks_search_text() {
    let mut q = query();
    q.q = Some("  parser  ".to_string());
    q.tags = Some("Web,cli".to_string());
    q.author_id = Some(42);
    let p = plan_discovery(q);
    assert!(matches!(p.sort, SortBy::Relevance));
    assert_eq!(p.text_query, Some("parser".to_string()));
    assert_eq!(p.tags, Some(vec!["web".to_string(), "cli".to_string()]));
    assert_eq!(p.categories, None);
    assert_eq!(p.author_id, Some(42));
    assert!(p.sql.contains(", ts_rank(p.search_vector, websearch_to_tsquery('english', $4)) AS rank"));
    assert!(p.sql.contains("ORDER BY rank DESC, popularity_score DESC"));
    assert!(p.sql.ends_with("LIMIT $5 OFFSET $6\n        "));
}

#[test]
fn plan_relevance_without_text_falls_back_to_popularity() {
    let mut q = query();
    q.q = Some("   ".to_string());
    let p = plan_discovery(q);
    assert!(matches!(p.sort, SortBy::Relevance));
    assert!(p.text_query.is_none());
    assert!(p.sql.contains("ORDER BY popularity_score DESC, created_at DESC"));
}

#[test]
fn offset_check_guards_32_bit_paging() {
    let mut q = query();
    q.page = u32::MAX;
    q.page_size = 100;
    assert!(!offset_fits(&q));
    q.page_size = 1;
    assert!(offset_fits(&q));
    assert!(offset_fits(&query()));
}

#[test]
fn total_comes_from_first_row() {
    assert_eq!(page_total(Some(17)), 17);
    assert_eq!(page_total(None), 0);
}

#[test]
fn product_slugs() {
    assert_eq!(generate_slug("Hello World!"), "hello-world");
    assert_eq!(generate_slug("Café au lait"), "café-au-lait");
    assert_eq!(generate_slug("A  B"), "a--b");
    assert_eq!(generate_slug("x_y.z"), "xyz");
}

#[test]
fn cache_key_lists_given_parameters_in_order() {
    assert_eq!(cache_key_for_query(&product_query()), "");
    let q = ProductQuery {
        q: Some("mug".to_string()),
        min_price: Some("2.5".to_string()),
        max_price: None,
        category: Some("kitchen".to_string()),
        limit: Some(10),
        offset: Some(-3),
    };
    assert_eq!(
        cache_key_for_query(&q),
        ":name:%mug%:price>:2.5:category:kitchen:limit:10:offset:-3"
    );
}

#[test]
fn filters_bind_values_and_default_paging() {
    let pieces = build_filters(product_query());
    assert_eq!(pieces.len(), 5);
    assert!(matches!(&pieces[0], SqlPiece::Sql(s) if *s == " ORDER BY created_at DESC"));
    assert!(matches!(&pieces[2], SqlPiece::Int(20)));
    assert!(matches!(&pieces[4], SqlPiece::Int(0)));

    let mut q = product_query();
    q.q = Some("mug".to_string());
    q.max_price = Some("9.99".to_string());
    let pieces = build_filters(q);
    assert_eq!(pieces.len(), 12);
    assert!(matches!(&pieces[0], SqlPiece::Sql(s) if *s == " AND (name LIKE "));
    assert!(matches!(&pieces[1], SqlPiece::Text(t) if t == "%mug%"));
    assert!(matches!(&pieces[5], SqlPiece::Sql(s) if *s == " AND price <= "));
    assert!(matches!(&pieces[6], SqlPiece::Price(t) if t == "9.99"));
}

#[test]
fn page_count_is_ceiling_division() {
    assert_eq!(total_pages(0, 20), 1);
    assert_eq!(total_pages(1, 20), 1);
    assert_eq!(total_pages(20, 20), 1);
    assert_eq!(total_pages(21, 20), 2);
    assert_eq!(total_pages(45, 10), 5);
}

#[test]
fn page_limit_parses_or_defaults() {
    assert_eq!(page_limit(None), 20);
    assert_eq!(page_limit(Some("7")), 7);
    assert_eq!(page_limit(Some("seven")), 20);
    assert_eq!(page_limit(Some("-1")), 20);
}

#[test]
fn page_cache_key_renders_every_parameter() {
    let q = SafeProductQuery {
        q: Some("mug".to_string()),
        category: None,
        min_price: None,
        max_price: None,
        limit: Some("10".to_string()),
        offset: None,
    };
    assert_eq!(
        page_cache_key(&q),
        "catalog:q=Some(\"mug\"):cat=None:min=None:max=None:limit=Some(\"10\"):offset=None"
    );
    let tricky = SafeProductQuery {
        q: Some("a\"b".to_string()),
        category: Some("x".to_string()),
        min_price: Some("1".to_string()),
        max_price: Some("2".to_string()),
        limit: None,
        offset: Some("3".to_string()),
    };
    assert_eq!(
        page_cache_key(&tricky),
        "catalog:q=Some(\"a\\\"b\"):cat=Some(\"x\"):min=Some(\"1\"):max=Some(\"2\"):limit=None:offset=Some(\"3\")"
    );
}

#[test]
fn pages_of_a_listing_get_their_own_cache_keys() {
    let mut a = product_query();
    a.category = Some("kitchen".to_string());
    let mut b = a.clone();
    a.limit = Some(10);
    b.limit = Some(20);
    assert_ne!(cache_key_for_query(&a), cache_key_for_query(&b));
    let mut c = a.clone();
    c.offset = Some(0);
    assert_ne!(cache_key_for_query(&a), cache_key_for_query(&c));
    let mut d = a.clone();
    d.limit = None;
    d.offset = Some(10);
    assert_ne!(cache_key_for_query(&a), cache_key_for_query(&d));
    let mut e = a.clone();
    e.limit = Some(1);
    e.offset = Some(10);
    let mut f = a.clone();
    f.limit = Some(11);
    f.offset = Some(0);
    assert_ne!(cache_key_for_query(&e), cache_key_for_query(&f));
}

#[test]
fn page_limit_accepts_a_plus_sign_only() {
    assert_eq!(page_limit(Some("+15")), 15);
    assert_eq!(page_limit(Some("+")), 20);
    assert_eq!(page_limit(Some(" 5")), 20);
    assert_eq!(page_limit(Some("")), 20);
    assert_eq!(page_limit(Some("99999999999999999999999")), 20);
}
