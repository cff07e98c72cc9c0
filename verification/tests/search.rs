use anchoring::search::{
    build_count_query, build_search_query, page_offset, pagination_for, resolve_search_version,
    total_pages, PaginationParams, TimeoutConfig,
};

#[test]
fn paging_defaults() {
    assert_eq!(PaginationParams::default(), PaginationParams { page: 1, per_page: 20 });
    assert_eq!(
        TimeoutConfig::default(),
        TimeoutConfig { init_timeout_secs: 30, operation_timeout_secs: 10 }
    );
}

#[test]
fn paging_of_a_search() {
    assert_eq!(pagination_for(None, None), None);
    assert_eq!(pagination_for(Some(3), None), Some(PaginationParams { page: 3, per_page: 10 }));
    assert_eq!(pagination_for(None, Some(50)), Some(PaginationParams { page: 1, per_page: 50 }));
    assert_eq!(pagination_for(Some(2), Some(5)), Some(PaginationParams { page: 2, per_page: 5 }));
}

#[test]
fn offset_counts_the_results_before_a_page() {
    assert_eq!(page_offset(&PaginationParams { page: 1, per_page: 20 }), Some(0));
    assert_eq!(page_offset(&PaginationParams { page: 3, per_page: 20 }), Some(40));
    assert_eq!(page_offset(&PaginationParams { page: 0, per_page: 20 }), Some(-20));
    assert_eq!(page_offset(&PaginationParams { page: i64::MAX, per_page: 2 }), None);
    assert_eq!(page_offset(&PaginationParams { page: i64::MIN, per_page: 1 }), None);
    assert_eq!(page_offset(&PaginationParams { page: i64::MIN, per_page: 0 }), Some(0));
}

#[test]
fn pages_are_counted_by_rounding_up() {
    assert_eq!(total_pages(0, 10), 0);
    assert_eq!(total_pages(1, 10), 1);
    assert_eq!(total_pages(10, 10), 1);
    assert_eq!(total_pages(11, 10), 2);
    assert_eq!(total_pages(5, 0), 0);
    assert_eq!(total_pages(-1, 10), 0);
    assert_eq!(total_pages(i64::MAX, 1), i64::MAX);
}

#[test]
fn search_is_restricted_to_the_named_version() {
    let named = Some("00000000-0000-0000-0000-00000000002a".to_string());
    assert_eq!(resolve_search_version(&named, None), Some(42));
    assert_eq!(resolve_search_version(&named, Some(false)), Some(42));
    assert_eq!(resolve_search_version(&named, Some(true)), None);
    assert_eq!(resolve_search_version(&Some("not an id".to_string()), None), None);
    assert_eq!(resolve_search_version(&None, None), None);
}

#[test]
fn queries_are_restricted_by_filter_or_version() {
    let head = "SELECT COUNT(*) as count FROM documentation_embeddings e JOIN documentation_snippets s ON e.snippet_id = s.id JOIN technologies t ON s.technology_id = t.id JOIN technology_versions tv ON s.version_id = tv.id";
    assert_eq!(build_count_query(&None, &None), head);
    assert_eq!(
        build_count_query(&None, &Some(42)),
        format!("{} WHERE s.version_id = '00000000-0000-0000-0000-00000000002a'", head)
    );
    assert_eq!(
        build_count_query(&Some("t.name = 'x'".to_string()), &Some(42)),
        format!("{} WHERE t.name = 'x'", head)
    );
    let search = build_search_query(&None, &Some(1));
    assert!(search.starts_with("SELECT s.id::text as id"));
    assert!(search.ends_with(
        " WHERE s.version_id = '00000000-0000-0000-0000-000000000001' ORDER BY similarity ASC OFFSET $2 LIMIT $3"
    ));
}
