use anchoring::crawler::{CrawlFailure, CrawlJob, CrawlStep, CrawlerService, FetchOutcome};
use anchoring::events::AppEvent;
use anchoring::retry::Backoff;
use anchoring::status::UrlStatus;
use anchoring::task::{Task, TaskPayload, TaskStatus};
use anchoring::worker::{page_source, PageSource, WorkerAction};

const PAGE: &str = "https://docs.example.com/v1/a";

fn crawled_engine() -> CrawlerService {
    let mut engine = CrawlerService::new();
    let job = CrawlJob {
        task_id: "crawl".to_string(),
        technology_id: 1,
        version_id: 2,
        url: PAGE.to_string(),
        prefix_path: String::new(),
        anti_paths: vec![],
        anti_keywords: vec![],
        skip_processed: false,
    };
    assert!(matches!(engine.begin_crawl(&job, 10, 1), CrawlStep::Fetch { .. }));
    engine
        .finish_fetch(&job, PAGE, 10, &FetchOutcome::Content {
            html: "<h1>A</h1><p>text</p>".to_string(),
            markdown: Some("A\n==========\n\ntext".to_string()),
        }, 2)
        .unwrap();
    engine.drain_events();
    engine
}

fn stages(events: &[AppEvent]) -> Vec<(i32, String)> {
    events
        .iter()
        .filter_map(|e| match e {
            AppEvent::TaskUpdated(u) => Some((u.progress, u.status.clone())),
            _ => None,
        })
        .collect()
}

fn statuses(events: &[AppEvent]) -> Vec<String> {
    events
        .iter()
        .filter_map(|e| match e {
            AppEvent::UrlStatusUpdated(s) => Some(s.status.clone()),
            _ => None,
        })
        .collect()
}

#[test]
fn refining_takes_the_markdown_of_the_page() {
    let mut engine = crawled_engine();
    let text = engine.begin_clean("clean", 10, 3).unwrap().unwrap();
    let stored = engine.url_service().get_url_by_id(10).unwrap().markdown.unwrap();
    assert!(matches!(text, PageSource::Markdown(m) if m == stored));
    assert_eq!(
        engine.url_service().get_url_by_id(10).unwrap().status,
        UrlStatus::ConvertingMarkdown
    );
    let events = engine.drain_events();
    assert_eq!(
        stages(&events),
        vec![(20, "loading_markdown".to_string()), (40, "cleaning_markdown".to_string())]
    );
    assert_eq!(statuses(&events), vec!["converting_markdown".to_string()]);
}

#[test]
fn refined_text_is_stored_and_the_page_is_ready() {
    let mut engine = crawled_engine();
    engine.begin_clean("clean", 10, 3).unwrap();
    engine.drain_events();
    engine.clean_succeeded("clean", 10, "# A\n\ntext", 4).unwrap();
    let page = engine.url_service().get_url_by_id(10).unwrap();
    assert_eq!(page.status, UrlStatus::MarkdownReady);
    assert_eq!(page.cleaned_markdown.as_deref(), Some("# A\n\ntext"));
    assert_eq!(page.updated_at, 4);
    let events = engine.drain_events();
    assert_eq!(stages(&events), vec![(80, "saving_cleaned_markdown".to_string())]);
    assert_eq!(statuses(&events), vec!["markdown_ready".to_string()]);
}

#[test]
fn refining_is_retried_on_rate_limits_and_then_fails_the_page() {
    let mut engine = crawled_engine();
    engine.begin_clean("clean", 10, 3).unwrap();
    engine.drain_events();
    let mut backoff = Backoff::new();
    let mut pauses = Vec::new();
    let failure = loop {
        backoff.begin_attempt();
        match engine.clean_failed("clean", 10, &mut backoff, "Too Many Requests", 5) {
            Ok(ms) => pauses.push(ms),
            Err(e) => break e,
        }
    };
    assert_eq!(pauses, vec![1000, 2000, 4000, 8000]);
    assert_eq!(failure.message(), "Failed to clean markdown: Too Many Requests");
    assert_eq!(engine.url_service().get_url_by_id(10).unwrap().status, UrlStatus::MarkdownError);
    let events = engine.drain_events();
    assert_eq!(
        stages(&events),
        vec![
            (40, "rate_limited_retry_1".to_string()),
            (40, "rate_limited_retry_2".to_string()),
            (40, "rate_limited_retry_3".to_string()),
            (40, "rate_limited_retry_4".to_string()),
        ]
    );
    assert_eq!(statuses(&events), vec!["markdown_error".to_string()]);
}

#[test]
fn failed_refining_spares_a_page_that_holds_a_refined_text() {
    let mut engine = crawled_engine();
    engine.begin_clean("clean", 10, 3).unwrap();
    engine.clean_succeeded("clean", 10, "clean text", 4).unwrap();
    let mut backoff = Backoff::new();
    backoff.begin_attempt();
    let failed = engine.clean_failed("again", 10, &mut backoff, "server error", 5);
    assert!(matches!(failed, Err(CrawlFailure::CleanFailed(_))));
    assert_eq!(engine.url_service().get_url_by_id(10).unwrap().status, UrlStatus::MarkdownReady);
}

#[test]
fn refining_needs_a_page_with_content() {
    let mut engine = CrawlerService::new();
    match engine.begin_clean("clean", 10, 3) {
        Err(e) => assert_eq!(
            e.message(),
            "URL with ID 00000000-0000-0000-0000-00000000000a not found"
        ),
        Ok(_) => panic!("expected a failure"),
    }
    engine.add_url_as(PAGE, 1, 2, 10, 0).unwrap();
    match engine.begin_clean("clean", 10, 3) {
        Err(e) => assert_eq!(e.message(), "No content available to clean"),
        Ok(_) => panic!("expected a failure"),
    }
}

#[test]
fn refining_a_page_that_is_ready_does_nothing() {
    let mut engine = crawled_engine();
    engine.begin_clean("clean", 10, 3).unwrap();
    engine.clean_succeeded("clean", 10, "clean text", 4).unwrap();
    assert!(engine.begin_clean("again", 10, 5).unwrap().is_none());
    assert_eq!(engine.url_service().get_url_by_id(10).unwrap().status, UrlStatus::MarkdownReady);
}

#[test]
fn snippets_are_made_of_a_crawled_page() {
    let mut engine = crawled_engine();
    let markdown = engine.begin_snippets("snip", 10, 3).unwrap().unwrap();
    assert!(matches!(markdown, PageSource::Markdown(m) if m.contains("text")));
    assert_eq!(engine.url_service().get_url_by_id(10).unwrap().status, UrlStatus::Processing);
    let events = engine.drain_events();
    assert_eq!(
        stages(&events),
        vec![
            (20, "loading_markdown".to_string()),
            (40, "processing_documentation".to_string()),
            (60, "retrieving_url_content".to_string()),
            (65, "generating_snippets".to_string()),
        ]
    );
    engine.snippet_stored("snip", 1, 3);
    engine.snippet_stored("snip", 2, 3);
    engine.snippet_stored("snip", 3, 3);
    engine.snippets_done("snip", 10, 4);
    assert_eq!(engine.url_service().get_url_by_id(10).unwrap().status, UrlStatus::Processed);
    let events = engine.drain_events();
    assert_eq!(
        stages(&events),
        vec![
            (86, "storing_snippets".to_string()),
            (93, "storing_snippets".to_string()),
            (100, "snippets_generated".to_string()),
        ]
    );
    assert_eq!(statuses(&events), vec!["processed".to_string()]);
}

#[test]
fn failed_snippets_leave_a_processing_error() {
    let mut engine = crawled_engine();
    engine.begin_snippets("snip", 10, 3).unwrap();
    let failure = engine.snippets_failed(10, "no valid snippets", 4);
    assert_eq!(failure.message(), "Failed to process snippets: no valid snippets");
    assert_eq!(engine.url_service().get_url_by_id(10).unwrap().status, UrlStatus::ProcessingError);
}

#[test]
fn snippets_need_a_page_that_was_crawled() {
    let mut engine = CrawlerService::new();
    engine.add_url_as(PAGE, 1, 2, 10, 0).unwrap();
    assert!(matches!(
        engine.begin_snippets("snip", 10, 3),
        Err(CrawlFailure::NoContentToProcess)
    ));
    assert!(matches!(engine.begin_snippets("snip", 11, 3), Err(CrawlFailure::UrlNotFound(11))));
}

#[test]
fn processed_page_is_processed_again_on_request() {
    let mut engine = crawled_engine();
    engine.begin_snippets("snip", 10, 3).unwrap();
    engine.snippets_done("snip", 10, 4);
    engine.drain_events();
    assert!(engine.begin_snippets("again", 10, 5).unwrap().is_some());
    assert_eq!(
        statuses(&engine.drain_events()),
        vec!["pending_processing".to_string(), "processing".to_string()]
    );
}

#[test]
fn page_source_prefers_markdown_over_html() {
    let mut engine = crawled_engine();
    let page = engine.url_service().get_url_by_id(10).unwrap();
    let markdown = page.markdown.clone().unwrap();
    assert!(matches!(page_source(&page), PageSource::Markdown(m) if m == markdown));
    let mut html_only = page.duplicate();
    html_only.markdown = None;
    assert!(matches!(
        page_source(&html_only),
        PageSource::Html(h) if h == "<h1>A</h1><p>text</p>"
    ));
    html_only.html = None;
    assert!(matches!(page_source(&html_only), PageSource::Markdown(m) if m.is_empty()));
    engine.drain_events();
}

#[test]
fn tasks_are_dispatched_by_kind() {
    let mut engine = crawled_engine();
    let clean = Task::with_id(1, "clean_markdown", Some(1), Some(2), TaskPayload::for_page(PAGE, 10), 0);
    engine.queue_task(clean).unwrap();
    match engine.next_action() {
        WorkerAction::Refine { url_id, text, .. } => {
            assert_eq!(url_id, 10);
            assert!(matches!(text, PageSource::Markdown(m) if m.contains("text")));
        }
        other => panic!("expected a text to refine, got {:?}", other),
    }
    let other = Task::with_id(2, "apply_url_filters", Some(2), None, TaskPayload::for_page("x", 0), 0);
    engine.queue_task(other).unwrap();
    engine.drain_events();
    assert!(matches!(engine.next_action(), WorkerAction::Finished(Some(TaskStatus::Completed))));
    let events = engine.drain_events();
    let channels: Vec<&str> = events.iter().map(|e| e.channel()).collect();
    assert_eq!(channels, vec!["task:updated", "task:completed"]);
}

#[test]
fn task_that_fails_at_once_is_closed_as_failed() {
    let mut engine = CrawlerService::new();
    let snip = Task::with_id(1, "generate_snippets", None, None, TaskPayload::for_page(PAGE, 77), 0);
    engine.queue_task(snip).unwrap();
    engine.drain_events();
    assert!(matches!(engine.next_action(), WorkerAction::Finished(Some(TaskStatus::Failed))));
    let events = engine.drain_events();
    match events.last() {
        Some(AppEvent::TaskFailed(e)) => {
            assert_eq!(e.error, "URL with ID 00000000-0000-0000-0000-00000000004d not found")
        }
        other => panic!("unexpected event {:?}", other),
    }
    assert!(engine.worker_pool().get_active_tasks().is_empty());
}

#[test]
fn crawl_task_without_technology_is_closed_at_once() {
    let mut engine = CrawlerService::new();
    let task = Task::with_id(1, "crawl_url", None, Some(2), TaskPayload::for_page(PAGE, 0), 0);
    engine.queue_task(task).unwrap();
    assert!(matches!(engine.next_action(), WorkerAction::Finished(Some(TaskStatus::Completed))));
    assert!(engine.url_service().get_urls_for_version(2, false).is_empty());
}

#[test]
fn idle_engine_has_no_work() {
    let mut engine = CrawlerService::new();
    assert!(matches!(engine.next_action(), WorkerAction::Idle));
}

#[test]
fn cancelled_task_is_not_retried() {
    let mut engine = crawled_engine();
    let clean = Task::with_id(1, "clean_markdown", Some(1), Some(2), TaskPayload::for_page(PAGE, 10), 0);
    let id = engine.queue_task(clean).unwrap();
    assert!(matches!(engine.next_action(), WorkerAction::Refine { .. }));
    engine.cancel_task(&id).unwrap();
    let mut backoff = Backoff::new();
    backoff.begin_attempt();
    let failed = engine.clean_failed(&id, 10, &mut backoff, "rate limit", 5);
    assert!(matches!(failed, Err(CrawlFailure::CleanFailed(_))));
    assert_eq!(backoff, Backoff { attempts: 1, delay_ms: 1000 });
    assert!(matches!(engine.begin_clean(&id, 10, 6), Err(CrawlFailure::Cancelled)));
    assert!(matches!(engine.begin_snippets(&id, 10, 6), Err(CrawlFailure::Cancelled)));
    let result = failed.map(|_| ());
    assert_eq!(engine.close_task(&id, 10, None, &result), Ok(TaskStatus::Cancelled));
}

#[test]
fn snippets_wait_for_a_page_that_is_being_refined() {
    let mut engine = crawled_engine();
    engine.begin_clean("clean", 10, 3).unwrap();
    match engine.begin_snippets("snip", 10, 4) {
        Err(e) => assert_eq!(e.message(), "URL is not ready for this step"),
        Ok(_) => panic!("expected a failure"),
    }
    assert_eq!(
        engine.url_service().get_url_by_id(10).unwrap().status,
        UrlStatus::ConvertingMarkdown
    );
}
