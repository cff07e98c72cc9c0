use anchoring::status::UrlStatus;
use anchoring::store::{DocumentationUrlService, FieldChange, StoreError};

const TECH: u128 = 1;
const VER: u128 = 2;

#[test]
fn adding_a_page_twice_keeps_one_record() {
    let mut store = DocumentationUrlService::new();
    let first = store.add_url_as("https://a.example/x", TECH, VER, 10, 100).unwrap();
    let second = store.add_url_as("https://a.example/x", TECH, VER, 11, 200).unwrap();
    assert_eq!(first.id, 10);
    assert_eq!(second.id, 10);
    assert_eq!(second.created_at, 100);
    assert_eq!(store.get_urls_for_version(VER, true).len(), 1);
}

#[test]
fn same_url_of_another_version_is_another_page() {
    let mut store = DocumentationUrlService::new();
    store.add_url_as("https://a.example/x", TECH, VER, 10, 100).unwrap();
    let other = store.add_url_as("https://a.example/x", TECH, 3, 11, 100).unwrap();
    assert_eq!(other.id, 11);
    assert_eq!(store.get_urls_for_version(VER, true).len(), 1);
    assert_eq!(store.get_urls_for_version(3, true).len(), 1);
}

#[test]
fn new_page_awaits_its_crawl_without_content() {
    let mut store = DocumentationUrlService::new();
    let page = store.add_url_as("https://a.example/x", TECH, VER, 10, 123).unwrap();
    assert_eq!(page.status, UrlStatus::PendingCrawl);
    assert_eq!(page.url, "https://a.example/x");
    assert_eq!(page.technology_id, TECH);
    assert_eq!(page.version_id, VER);
    assert_eq!(page.html, None);
    assert_eq!(page.markdown, None);
    assert_eq!(page.cleaned_markdown, None);
    assert!(!page.is_processed);
    assert_eq!(page.created_at, 123);
    assert_eq!(page.updated_at, 123);
}

#[test]
fn taken_id_is_refused() {
    let mut store = DocumentationUrlService::new();
    store.add_url_as("https://a.example/x", TECH, VER, 10, 100).unwrap();
    let refused = store.add_url_as("https://a.example/y", TECH, VER, 10, 100);
    assert_eq!(refused.err(), Some(StoreError::DuplicateId(10)));
    assert_eq!(store.get_urls_for_version(VER, true).len(), 1);
}

#[test]
fn random_ids_differ() {
    let mut store = DocumentationUrlService::new();
    let a = store.add_url("https://a.example/x", TECH, VER).unwrap();
    let b = store.add_url("https://a.example/y", TECH, VER).unwrap();
    assert_ne!(a.id, b.id);
    assert!(a.created_at > 1_600_000_000_000);
    let again = store.add_url("https://a.example/x", TECH, VER).unwrap();
    assert_eq!(again.id, a.id);
}

#[test]
fn lookups_find_what_was_added() {
    let mut store = DocumentationUrlService::new();
    store.add_url_as("https://a.example/x", TECH, VER, 10, 100).unwrap();
    assert_eq!(store.get_url_by_id(10).unwrap().url, "https://a.example/x");
    assert!(store.get_url_by_id(11).is_none());
    assert_eq!(store.get_url_by_url(TECH, VER, "https://a.example/x").unwrap().id, 10);
    assert!(store.get_url_by_url(TECH, VER, "https://a.example/y").is_none());
    assert!(store.get_url_by_url(TECH, 9, "https://a.example/x").is_none());
    assert_eq!(store.get_tech_and_version_for_url(10), Ok((TECH, VER)));
    assert_eq!(store.get_tech_and_version_for_url(11), Err(StoreError::NotFound(11)));
}

#[test]
fn status_moves_along_the_machine() {
    let mut store = DocumentationUrlService::new();
    store.add_url_as("https://a.example/x", TECH, VER, 10, 100).unwrap();
    let page = store.update_url_status(10, UrlStatus::Crawling, 101).unwrap();
    assert_eq!(page.status, UrlStatus::Crawling);
    assert_eq!(page.updated_at, 101);
    assert_eq!(page.created_at, 100);
    let page = store.update_url_status(10, UrlStatus::Crawled, 102).unwrap();
    assert_eq!(page.status, UrlStatus::Crawled);
}

#[test]
fn status_change_against_the_machine_is_refused() {
    let mut store = DocumentationUrlService::new();
    store.add_url_as("https://a.example/x", TECH, VER, 10, 100).unwrap();
    let refused = store.update_url_status(10, UrlStatus::Processed, 101);
    assert_eq!(
        refused.err(),
        Some(StoreError::InvalidTransition(10, UrlStatus::PendingCrawl, UrlStatus::Processed))
    );
    let page = store.get_url_by_id(10).unwrap();
    assert_eq!(page.status, UrlStatus::PendingCrawl);
    assert_eq!(page.updated_at, 100);
}

#[test]
fn status_of_unknown_page_is_not_found() {
    let mut store = DocumentationUrlService::new();
    assert_eq!(
        store.update_url_status(5, UrlStatus::Crawling, 1).err(),
        Some(StoreError::NotFound(5))
    );
    assert_eq!(store.update_url_html(5, "<p/>", 1).err(), Some(StoreError::NotFound(5)));
    assert_eq!(store.delete_url(5), Err(StoreError::NotFound(5)));
}

#[test]
fn setting_the_same_status_is_no_transition() {
    let mut store = DocumentationUrlService::new();
    store.add_url_as("https://a.example/x", TECH, VER, 10, 100).unwrap();
    let page = store.update_url_status(10, UrlStatus::PendingCrawl, 150).unwrap();
    assert_eq!(page.status, UrlStatus::PendingCrawl);
    assert_eq!(page.updated_at, 150);
}

#[test]
fn skipped_page_loses_its_content() {
    let mut store = DocumentationUrlService::new();
    store.add_url_as("https://a.example/x", TECH, VER, 10, 100).unwrap();
    store.update_url_status(10, UrlStatus::Crawling, 101).unwrap();
    store
        .update_url_markdown(
            10,
            Some("# md".to_string()),
            Some("clean".to_string()),
            UrlStatus::Crawled,
            102,
        )
        .unwrap();
    store.update_url_html(10, "<h1>md</h1>", 103).unwrap();
    let page = store.get_url_by_id(10).unwrap();
    assert_eq!(page.html.as_deref(), Some("<h1>md</h1>"));
    assert_eq!(page.markdown.as_deref(), Some("# md"));
    assert_eq!(page.cleaned_markdown.as_deref(), Some("clean"));
    let page = store.update_url_status(10, UrlStatus::Skipped, 104).unwrap();
    assert_eq!(page.status, UrlStatus::Skipped);
    assert_eq!(page.html, None);
    assert_eq!(page.markdown, None);
    assert_eq!(page.cleaned_markdown, None);
}

#[test]
fn markdown_update_leaves_out_what_is_not_given() {
    let mut store = DocumentationUrlService::new();
    store.add_url_as("https://a.example/x", TECH, VER, 10, 100).unwrap();
    store.update_url_cleaned_markdown(10, "kept", 101).unwrap();
    store.update_url_status(10, UrlStatus::Crawling, 102).unwrap();
    let page =
        store.update_url_markdown(10, Some("md".to_string()), None, UrlStatus::Crawled, 103).unwrap();
    assert_eq!(page.markdown.as_deref(), Some("md"));
    assert_eq!(page.cleaned_markdown.as_deref(), Some("kept"));
    assert_eq!(page.status, UrlStatus::Crawled);
}

#[test]
fn named_updates_are_applied_in_order() {
    let mut store = DocumentationUrlService::new();
    store.add_url_as("https://a.example/x", TECH, VER, 10, 100).unwrap();
    let updates = vec![
        ("html".to_string(), Some("<p>one</p>".to_string())),
        ("status".to_string(), Some("crawling".to_string())),
        ("html".to_string(), Some("<p>two</p>".to_string())),
        ("is_processed".to_string(), Some("true".to_string())),
        ("no_such_field".to_string(), Some("x".to_string())),
        ("markdown".to_string(), None),
    ];
    let page = store.update_fields(10, &updates, 200).unwrap();
    assert_eq!(page.html.as_deref(), Some("<p>two</p>"));
    assert_eq!(page.status, UrlStatus::Crawling);
    assert!(page.is_processed);
    assert_eq!(page.markdown, None);
    assert_eq!(page.updated_at, 200);
}

#[test]
fn no_updates_leave_the_page_untouched() {
    let mut store = DocumentationUrlService::new();
    store.add_url_as("https://a.example/x", TECH, VER, 10, 100).unwrap();
    let page = store.update_fields(10, &[], 200).unwrap();
    assert_eq!(page.updated_at, 100);
    assert_eq!(store.update_fields(11, &[], 200).err(), Some(StoreError::NotFound(11)));
}

#[test]
fn processed_flag_is_true_only_for_the_text_true() {
    let mut store = DocumentationUrlService::new();
    store.add_url_as("https://a.example/x", TECH, VER, 10, 100).unwrap();
    let on = vec![("is_processed".to_string(), Some("true".to_string()))];
    assert!(store.update_fields(10, &on, 1).unwrap().is_processed);
    let off = vec![("is_processed".to_string(), Some("yes".to_string()))];
    assert!(!store.update_fields(10, &off, 2).unwrap().is_processed);
    let none = vec![("is_processed".to_string(), None)];
    assert!(!store.update_fields(10, &none, 3).unwrap().is_processed);
}

#[test]
fn field_changes_collect_the_last_value_of_each_field() {
    let change = FieldChange::collect(&[
        ("status".to_string(), Some("crawled".to_string())),
        ("status".to_string(), Some("skipped".to_string())),
        ("status".to_string(), None),
        ("cleaned_markdown".to_string(), Some("c".to_string())),
    ]);
    assert_eq!(change.status, Some(UrlStatus::Skipped));
    assert_eq!(change.cleaned_markdown, Some(Some("c".to_string())));
    assert_eq!(change.html, None);
    assert_eq!(change.markdown, None);
    assert_eq!(change.is_processed, None);
}

#[test]
fn listing_a_version_can_leave_out_content() {
    let mut store = DocumentationUrlService::new();
    store.add_url_as("https://a.example/x", TECH, VER, 10, 100).unwrap();
    store.add_url_as("https://a.example/y", TECH, 3, 11, 100).unwrap();
    store.add_url_as("https://a.example/z", TECH, VER, 12, 100).unwrap();
    store.update_url_html(10, "<p/>", 101).unwrap();
    let with = store.get_urls_for_version(VER, true);
    assert_eq!(with.iter().map(|p| p.id).collect::<Vec<_>>(), vec![10, 12]);
    assert_eq!(with[0].html.as_deref(), Some("<p/>"));
    let without = store.get_urls_for_version(VER, false);
    assert_eq!(without.iter().map(|p| p.id).collect::<Vec<_>>(), vec![10, 12]);
    assert_eq!(without[0].html, None);
    assert_eq!(without[0].url, "https://a.example/x");
}

#[test]
fn deleted_page_is_gone() {
    let mut store = DocumentationUrlService::new();
    store.add_url_as("https://a.example/x", TECH, VER, 10, 100).unwrap();
    store.add_url_as("https://a.example/y", TECH, VER, 11, 100).unwrap();
    assert_eq!(store.delete_url(10), Ok(()));
    assert!(store.get_url_by_id(10).is_none());
    assert_eq!(store.get_url_by_id(11).unwrap().url, "https://a.example/y");
    let again = store.add_url_as("https://a.example/x", TECH, VER, 12, 100).unwrap();
    assert_eq!(again.id, 12);
}
