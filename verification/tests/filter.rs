use anchoring::filter::{normalize_anti_keywords, should_crawl, split_keywords};

fn strings(items: &[&str]) -> Vec<String> {
    items.iter().map(|s| s.to_string()).collect()
}

#[test]
fn full_url_prefix_matches() {
    assert!(should_crawl(
        "https://docs.example.com/v1/guide",
        "https://docs.example.com/v1/",
        &[],
        &[]
    ));
}

#[test]
fn full_url_prefix_of_another_host_does_not_match() {
    assert!(!should_crawl(
        "https://other.com/x",
        "https://docs.example.com/v1/",
        &[],
        &[]
    ));
}

#[test]
fn bare_host_prefix_matches_by_containment() {
    assert!(should_crawl("https://docs.example.com/v1/guide", "docs.example.com", &[], &[]));
    assert!(should_crawl("https://docs.example.com/v1/guide", "example.com/v1", &[], &[]));
    assert!(!should_crawl("https://docs.example.org/v1/guide", "example.com", &[], &[]));
}

#[test]
fn bare_path_prefix_matches_the_start_of_the_path() {
    assert!(should_crawl("https://docs.example.com/v1/guide", "/v1/", &[], &[]));
    assert!(!should_crawl("https://docs.example.com/v2/guide", "/v1/", &[], &[]));
}

#[test]
fn prefix_is_compared_without_regard_to_case() {
    assert!(should_crawl(
        "https://docs.example.com/V1/Guide",
        "HTTPS://DOCS.EXAMPLE.COM/v1/",
        &[],
        &[]
    ));
}

#[test]
fn empty_prefix_restricts_nothing() {
    assert!(should_crawl("https://anything.example/at/all?x=1", "", &[], &[]));
}

#[test]
fn text_that_is_no_url_is_never_in_scope() {
    assert!(!should_crawl("not a url", "", &[], &[]));
    assert!(!should_crawl("", "", &[], &[]));
}

#[test]
fn anti_keyword_rejects_wherever_it_occurs() {
    let keywords = strings(&["changelog"]);
    assert!(!should_crawl(
        "https://docs.example.com/v1/changelog",
        "https://docs.example.com/v1/",
        &[],
        &keywords
    ));
    assert!(!should_crawl("https://changelog.example.com/v1/", "", &[], &keywords));
    assert!(!should_crawl("https://docs.example.com/v1/?page=changelog", "", &[], &keywords));
    assert!(should_crawl("https://docs.example.com/v1/guide", "", &[], &keywords));
}

#[test]
fn anti_keyword_is_trimmed_and_lowercased() {
    let keywords = strings(&["  ChangeLog  "]);
    assert!(!should_crawl("https://docs.example.com/v1/CHANGELOG", "", &[], &keywords));
}

#[test]
fn blank_patterns_exclude_nothing() {
    let blanks = strings(&["", "   "]);
    assert!(should_crawl("https://docs.example.com/v1/guide", "", &blanks, &blanks));
}

#[test]
fn anti_path_matches_like_a_prefix() {
    let paths = strings(&["/v1/internal"]);
    assert!(!should_crawl("https://docs.example.com/v1/internal/x", "", &paths, &[]));
    assert!(should_crawl("https://docs.example.com/v1/public/x", "", &paths, &[]));
    let hosts = strings(&["docs.example.com/v1/api"]);
    assert!(!should_crawl("https://docs.example.com/v1/api/list", "", &hosts, &[]));
    let full = strings(&["https://docs.example.com/old"]);
    assert!(!should_crawl("https://docs.example.com/old/page", "", &full, &[]));
    assert!(should_crawl("https://docs.example.com/new/page", "", &full, &[]));
}

#[test]
fn query_belongs_to_the_path_form() {
    let paths = strings(&["/search?q="]);
    assert!(!should_crawl("https://docs.example.com/search?q=rust", "", &paths, &[]));
}

#[test]
fn single_entry_with_commas_is_a_list() {
    let configured = Some(strings(&["changelog, blog ,,release-notes"]));
    assert_eq!(
        normalize_anti_keywords(&configured),
        strings(&["changelog", "blog", "release-notes"])
    );
}

#[test]
fn several_entries_are_taken_as_they_are() {
    let configured = Some(strings(&["a,b", " c "]));
    assert_eq!(normalize_anti_keywords(&configured), strings(&["a,b", " c "]));
}

#[test]
fn single_entry_without_comma_is_taken_as_it_is() {
    let configured = Some(strings(&[" changelog "]));
    assert_eq!(normalize_anti_keywords(&configured), strings(&[" changelog "]));
}

#[test]
fn no_keywords_configured_gives_none() {
    assert_eq!(normalize_anti_keywords(&None), Vec::<String>::new());
    assert_eq!(normalize_anti_keywords(&Some(Vec::new())), Vec::<String>::new());
}

#[test]
fn keywords_are_split_at_commas_and_trimmed() {
    assert_eq!(split_keywords("a, b,c "), strings(&["a", "b", "c"]));
    assert_eq!(split_keywords(""), Vec::<String>::new());
    assert_eq!(split_keywords(" , ,"), Vec::<String>::new());
    assert_eq!(split_keywords("one"), strings(&["one"]));
}
