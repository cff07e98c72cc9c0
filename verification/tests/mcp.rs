use anchoring::browser::merge_shadow_dom;
use anchoring::mcp::{
    compose_query, find_technology, result_limit, select_version, technology_missing_message,
    version_failure_message, VersionFailure,
};
use anchoring::models::{Technology, TechnologyVersion};
use anchoring::proxies::parse_proxy_list;
use anchoring::snippets::{assemble_cleanup, chunk_info, SnippetDraft};
use anchoring::text::join;

fn named(names: &[&str]) -> Vec<Technology> {
    names
        .iter()
        .enumerate()
        .map(|(i, n)| Technology {
            id: i as u128,
            name: n.to_string(),
            language: None,
            related: None,
            created_at: 0,
            updated_at: 0,
        })
        .collect()
}

fn versioned(names: &[&str]) -> Vec<TechnologyVersion> {
    names
        .iter()
        .enumerate()
        .map(|(i, n)| TechnologyVersion {
            id: i as u128,
            technology_id: 1,
            version: n.to_string(),
            created_at: 0,
            updated_at: 0,
        })
        .collect()
}

#[test]
fn technology_is_found_whatever_the_case() {
    let techs = named(&["Tokio", "Serde", "tokio"]);
    assert_eq!(find_technology(&techs, "tokio"), Some(0));
    assert_eq!(find_technology(&techs, "SERDE"), Some(1));
    assert_eq!(find_technology(&techs, "axum"), None);
    assert_eq!(technology_missing_message("axum"), "Technology 'axum' not found");
}

#[test]
fn wanted_version_is_taken_where_it_is_stored() {
    let versions = versioned(&["1.0", "2.0", "3.0"]);
    assert_eq!(select_version(&versions, Some("2.0"), None, None), Ok(1));
    assert_eq!(select_version(&versions, Some("2.0"), Some(false), Some(false)), Ok(1));
}

#[test]
fn closest_version_stands_in_for_a_missing_one() {
    let versions = versioned(&["1.0", "3.0"]);
    assert_eq!(select_version(&versions, Some("2.0"), None, None), Ok(1));
    assert_eq!(select_version(&versions, Some("2.0"), Some(true), Some(false)), Ok(0));
    assert_eq!(
        select_version(&versions, Some("2.0"), Some(false), None),
        Err(VersionFailure::VersionNotFound)
    );
    assert_eq!(
        select_version(&versioned(&["4294967295"]), Some("0"), None, None),
        Err(VersionFailure::NoSuitableVersion)
    );
}

#[test]
fn newest_version_is_taken_where_none_is_wanted() {
    assert_eq!(select_version(&versioned(&["1.0", "1.10", "1.9"]), None, None, None), Ok(1));
    assert_eq!(select_version(&[], None, None, None), Err(VersionFailure::NoVersions));
    assert_eq!(select_version(&[], Some("1.0"), None, None), Err(VersionFailure::NoVersions));
}

#[test]
fn version_failures_are_worded() {
    assert_eq!(
        version_failure_message(VersionFailure::NoVersions, "tokio", "1.0"),
        "No versions found for technology 'tokio'"
    );
    assert_eq!(
        version_failure_message(VersionFailure::NoSuitableVersion, "tokio", "1.0"),
        "No suitable version found for technology 'tokio' version '1.0'"
    );
    assert_eq!(
        version_failure_message(VersionFailure::VersionNotFound, "tokio", "1.0"),
        "Version '1.0' not found for technology 'tokio'"
    );
}

#[test]
fn query_follows_the_code_it_is_about() {
    assert_eq!(compose_query(&None, "how?"), "how?");
    let context = Some(vec!["fn a() {}".to_string(), "fn b() {}".to_string()]);
    assert_eq!(compose_query(&context, "how?"), "fn a() {}\n\nfn b() {}\n\nQuery: how?");
    assert_eq!(compose_query(&Some(vec![]), "how?"), "\n\nQuery: how?");
    assert_eq!(result_limit(None), 10);
    assert_eq!(result_limit(Some(3)), 3);
}

#[test]
fn texts_are_joined_with_a_separator_between() {
    let parts = vec!["a".to_string(), "".to_string(), "c".to_string()];
    assert_eq!(join(&parts, ", "), "a, , c");
    assert_eq!(join(&parts[..1], ", "), "a");
    assert_eq!(join(&[], ", "), "");
}

#[test]
fn draft_without_content_is_not_stored() {
    let draft = SnippetDraft {
        title: Some("T".to_string()),
        description: None,
        content: Some(String::new()),
        concepts: None,
    };
    assert!(!draft.has_content());
    assert!(draft.into_snippet(1, "u", 2, 3, 4).is_none());
    let missing = SnippetDraft { title: None, description: None, content: None, concepts: None };
    assert!(missing.into_snippet(1, "u", 2, 3, 4).is_none());
}

#[test]
fn draft_becomes_a_snippet_of_its_page() {
    let draft = SnippetDraft {
        title: None,
        description: Some("D".to_string()),
        content: Some("C".to_string()),
        concepts: Some(vec![Some("a".to_string()), None, Some("b".to_string())]),
    };
    let snippet = draft.into_snippet(1, "https://docs.example.com/a", 2, 3, 4).unwrap();
    assert_eq!(snippet.id, 1);
    assert_eq!(snippet.title, "");
    assert_eq!(snippet.description, "D");
    assert_eq!(snippet.content, "C");
    assert_eq!(snippet.source_url, "https://docs.example.com/a");
    assert_eq!((snippet.technology_id, snippet.version_id), (2, 3));
    assert_eq!(snippet.concepts, Some(vec![Some("a".to_string()), Some("b".to_string())]));
    assert_eq!((snippet.created_at, snippet.updated_at), (4, 4));
    assert_eq!(snippet.embedding_text(), "Title: \nDescription: D\nContent: C");
}

#[test]
fn parts_of_a_text_are_announced() {
    assert_eq!(
        chunk_info(0, 1),
        "Process this technical documentation into comprehensive snippets."
    );
    assert_eq!(
        chunk_info(1, 3),
        "This is part 2/3 of the documentation. Process it into comprehensive snippets."
    );
    assert_eq!(
        chunk_info(0, 0),
        "Process this technical documentation into comprehensive snippets."
    );
}

#[test]
fn refined_text_is_put_together_from_the_answers() {
    let answers = vec![Some("one ".to_string()), None, Some("two".to_string())];
    assert_eq!(assemble_cleanup(&answers), Ok("one two".to_string()));
    assert_eq!(
        assemble_cleanup(&[None, Some(String::new())]),
        Err("No content was generated from the API".to_string())
    );
    assert_eq!(assemble_cleanup(&[]), Err("No content was generated from the API".to_string()));
}

#[test]
fn proxies_are_read_line_by_line() {
    assert_eq!(
        parse_proxy_list("1.1.1.1:80\n  2.2.2.2:8080  \r\n\n   \n3.3.3.3:3128"),
        vec!["1.1.1.1:80".to_string(), "2.2.2.2:8080".to_string(), "3.3.3.3:3128".to_string()]
    );
    assert_eq!(parse_proxy_list(""), Vec::<String>::new());
}

#[test]
fn shadow_content_goes_before_the_last_body_end() {
    assert_eq!(
        merge_shadow_dom("<html><body>a</body>b</body></html>".to_string(), "S"),
        "<html><body>a</body>b\n<!-- Shadow DOM Content -->\n<div id=\"shadow-dom-extracted-content\">S</div>\n</body></html>"
    );
    assert_eq!(
        merge_shadow_dom("<p>no body</p>".to_string(), "S"),
        "<p>no body</p>\n<!-- Shadow DOM Content -->\n<div id=\"shadow-dom-extracted-content\">S</div>"
    );
    assert_eq!(merge_shadow_dom("<body></body>".to_string(), ""), "<body></body>");
}
