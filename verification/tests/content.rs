use anchoring::content::{dedup_strings, extract_links_from_html, sort_and_dedup};
use anchoring::crawler::candidate_links;

fn owned(items: &[&str]) -> Vec<String> {
    items.iter().map(|s| s.to_string()).collect()
}

#[test]
fn links_are_made_absolute_against_the_page() {
    let html = r#"<a href="guide">g</a> <a id="x" href='/top'>t</a> <a href="../up">u</a>"#;
    assert_eq!(
        extract_links_from_html(html, "https://docs.example.com/v1/index.html"),
        owned(&[
            "https://docs.example.com/top",
            "https://docs.example.com/up",
            "https://docs.example.com/v1/guide",
        ])
    );
}

#[test]
fn links_lose_their_fragments_and_repetitions() {
    let html = r#"<a href="a#one">1</a><a href="a#two">2</a><a href="a">3</a><a href="b">4</a>"#;
    assert_eq!(
        extract_links_from_html(html, "https://docs.example.com/"),
        owned(&["https://docs.example.com/a", "https://docs.example.com/b"])
    );
}

#[test]
fn links_of_other_schemes_are_left_out() {
    let html = r#"<a href="mailto:a@b.c">m</a><a href="ftp://f.example/x">f</a><a href="javascript:void(0)">j</a><a href="http://plain.example/">p</a>"#;
    assert_eq!(
        extract_links_from_html(html, "https://docs.example.com/"),
        owned(&["http://plain.example/"])
    );
}

#[test]
fn page_whose_url_does_not_parse_has_no_links() {
    let html = r#"<a href="https://docs.example.com/a">a</a>"#;
    assert!(extract_links_from_html(html, "not a url").is_empty());
}

#[test]
fn page_without_anchors_has_no_links() {
    assert!(extract_links_from_html("<p>href=\"x\"</p>", "https://docs.example.com/").is_empty());
    assert!(extract_links_from_html("", "https://docs.example.com/").is_empty());
}

#[test]
fn candidate_links_are_normalized() {
    let html = r#"<a href="HTTPS://Docs.Example.com:443/A#x">1</a><a href="https://docs.example.com/A">2</a>"#;
    assert_eq!(
        candidate_links(html, "https://docs.example.com/"),
        owned(&["https://docs.example.com/A"])
    );
}

#[test]
fn sorting_orders_by_code_point_and_removes_repetitions() {
    assert_eq!(
        sort_and_dedup(owned(&["b", "a", "B", "a", "ab", "", "b"])),
        owned(&["", "B", "a", "ab", "b"])
    );
    assert_eq!(sort_and_dedup(Vec::new()), Vec::<String>::new());
}

#[test]
fn dedup_removes_neighbouring_repetitions_only() {
    assert_eq!(dedup_strings(owned(&["a", "a", "b", "a", "a"])), owned(&["a", "b", "a"]));
    assert_eq!(dedup_strings(owned(&["x"])), owned(&["x"]));
}
