use anchoring::status::UrlStatus;

const ALL: [UrlStatus; 13] = [
    UrlStatus::PendingCrawl,
    UrlStatus::Crawling,
    UrlStatus::Crawled,
    UrlStatus::CrawlError,
    UrlStatus::PendingMarkdown,
    UrlStatus::ConvertingMarkdown,
    UrlStatus::MarkdownReady,
    UrlStatus::MarkdownError,
    UrlStatus::PendingProcessing,
    UrlStatus::Processing,
    UrlStatus::Processed,
    UrlStatus::ProcessingError,
    UrlStatus::Skipped,
];

#[test]
fn status_names_are_the_stored_ones() {
    let names = [
        "pending_crawl",
        "crawling",
        "crawled",
        "crawl_error",
        "pending_markdown",
        "converting_markdown",
        "markdown_ready",
        "markdown_error",
        "pending_processing",
        "processing",
        "processed",
        "processing_error",
        "skipped",
    ];
    for (status, name) in ALL.iter().zip(names.iter()) {
        assert_eq!(status.as_str(), *name);
        assert_eq!(status.to_text(), name.to_string());
    }
}

#[test]
fn status_names_read_back() {
    for status in ALL {
        assert_eq!(UrlStatus::parse(status.as_str()), status);
        assert_eq!(UrlStatus::from(status.to_text()), status);
    }
}

#[test]
fn unknown_status_name_reads_as_pending_crawl() {
    assert_eq!(UrlStatus::parse("snippets_generated"), UrlStatus::PendingCrawl);
    assert_eq!(UrlStatus::parse(""), UrlStatus::PendingCrawl);
    assert_eq!(UrlStatus::from("Crawled".to_string()), UrlStatus::PendingCrawl);
}

#[test]
fn crawl_stage_transitions() {
    assert!(UrlStatus::PendingCrawl.can_become(UrlStatus::Crawling));
    assert!(UrlStatus::Crawling.can_become(UrlStatus::Crawled));
    assert!(UrlStatus::Crawling.can_become(UrlStatus::CrawlError));
    assert!(!UrlStatus::PendingCrawl.can_become(UrlStatus::Crawled));
    assert!(!UrlStatus::Crawled.can_become(UrlStatus::Crawling));
}

#[test]
fn processing_stage_transitions() {
    assert!(UrlStatus::Crawled.can_become(UrlStatus::Processing));
    assert!(UrlStatus::PendingProcessing.can_become(UrlStatus::Processing));
    assert!(UrlStatus::Processing.can_become(UrlStatus::Processed));
    assert!(UrlStatus::Processing.can_become(UrlStatus::ProcessingError));
    assert!(!UrlStatus::Processing.can_become(UrlStatus::Crawled));
}

#[test]
fn processed_never_goes_straight_to_crawling() {
    assert!(!UrlStatus::Processed.can_become(UrlStatus::Crawling));
    assert!(UrlStatus::Processed.can_become(UrlStatus::PendingCrawl));
}

#[test]
fn resting_states_are_left_for_a_pending_state_only() {
    let resting = [
        UrlStatus::CrawlError,
        UrlStatus::MarkdownError,
        UrlStatus::ProcessingError,
        UrlStatus::Skipped,
        UrlStatus::Processed,
    ];
    let entries =
        [UrlStatus::PendingCrawl, UrlStatus::PendingMarkdown, UrlStatus::PendingProcessing];
    for from in ALL {
        assert_eq!(from.is_resting(), resting.contains(&from));
    }
    for from in resting {
        for to in ALL {
            assert_eq!(from.can_become(to), entries.contains(&to), "{:?} -> {:?}", from, to);
        }
    }
}

#[test]
fn any_state_that_is_not_resting_may_be_skipped() {
    for from in ALL {
        assert_eq!(from.can_become(UrlStatus::Skipped), !from.is_resting());
    }
}

#[test]
fn no_status_follows_itself() {
    for status in ALL {
        assert!(!status.can_become(status));
    }
}

#[test]
fn pending_states_are_those_that_override_the_cache() {
    let pending = [
        UrlStatus::PendingCrawl,
        UrlStatus::Crawling,
        UrlStatus::PendingMarkdown,
        UrlStatus::PendingProcessing,
        UrlStatus::CrawlError,
    ];
    for status in ALL {
        assert_eq!(status.is_pending(), pending.contains(&status));
    }
}
