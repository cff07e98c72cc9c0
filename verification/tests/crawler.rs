use anchoring::crawler::{
    CrawlConfig, CrawlFailure, CrawlJob, CrawlStep, CrawlerService, FetchOutcome, LinkDecision,
    Submission,
};
use anchoring::events::AppEvent;
use anchoring::status::UrlStatus;
use anchoring::task::TaskKind;
use anchoring::worker::WorkerAction;

const TECH: u128 = 11;
const VER: u128 = 22;
const SEED: &str = "https://docs.example.com/v1/";

fn seed_config(skip: Option<bool>) -> CrawlConfig {
    CrawlConfig {
        technology_id: TECH,
        version_id: VER,
        start_url: SEED.to_string(),
        prefix_path: SEED.to_string(),
        anti_paths: None,
        anti_keywords: Some(vec!["changelog".to_string()]),
        skip_processed_urls: skip,
    }
}

fn page_with_links(targets: &[&str]) -> String {
    let mut html = String::from("<html><body><h1>Docs</h1>");
    for target in targets {
        html.push_str(&format!("<a class=\"l\" href=\"{}\">link</a>", target));
    }
    html.push_str("</body></html>");
    html
}

fn fetched(html: String) -> FetchOutcome {
    let markdown = format!("markdown of {} bytes", html.len());
    FetchOutcome::Content { html, markdown: Some(markdown) }
}

fn begin_seed(engine: &mut CrawlerService) -> (CrawlJob, String, u128) {
    match engine.next_action() {
        WorkerAction::Fetch { job, url, url_id } => (job, url, url_id),
        other => panic!("expected a fetch, got {:?}", other),
    }
}

fn queued_urls(engine: &CrawlerService) -> Vec<String> {
    engine.worker_pool().get_queued_tasks().iter().map(|t| t.payload.url.clone()).collect()
}

fn status_events(events: &[AppEvent]) -> Vec<String> {
    events
        .iter()
        .filter_map(|e| match e {
            AppEvent::UrlStatusUpdated(s) => Some(s.status.clone()),
            _ => None,
        })
        .collect()
}

#[test]
fn submitted_seed_is_stored_and_queued() {
    let mut engine = CrawlerService::new();
    let config = seed_config(None);
    let task_id = match engine.start_crawling_as(&config, 100, 200, 5).unwrap() {
        Submission::Queued(id) => id,
        other => panic!("expected a queued task, got {:?}", other),
    };
    assert_eq!(task_id, "00000000-0000-0000-0000-0000000000c8");
    let page = engine.url_service().get_url_by_url(TECH, VER, SEED).unwrap();
    assert_eq!(page.id, 100);
    assert_eq!(page.status, UrlStatus::PendingCrawl);
    let queued = engine.worker_pool().get_queued_tasks();
    assert_eq!(queued.len(), 1);
    assert_eq!(queued[0].id, task_id);
    assert_eq!(queued[0].kind(), TaskKind::CrawlUrl);
    assert_eq!(queued[0].technology_id, Some(TECH));
    assert_eq!(queued[0].version_id, Some(VER));
    assert_eq!(queued[0].payload.url, SEED);
    assert_eq!(queued[0].payload.url_id, 100);
    assert_eq!(queued[0].payload.prefix_path, SEED);
    assert_eq!(queued[0].payload.anti_keywords, vec!["changelog".to_string()]);
    assert!(queued[0].payload.anti_paths.is_empty());
    assert!(queued[0].payload.skip_processed);
    let events = engine.drain_events();
    let channels: Vec<&str> = events.iter().map(|e| e.channel()).collect();
    assert_eq!(channels, vec!["task:created", "url:status:updated", "app:notification"]);
    match &events[2] {
        AppEvent::Notification(n) => {
            assert_eq!(n.title, "Crawling Started");
            assert_eq!(n.message, format!("Started crawling from URL: {}", SEED));
            assert_eq!(n.notification_type.as_deref(), Some("info"));
        }
        other => panic!("unexpected event {:?}", other),
    }
}

#[test]
fn submitting_the_same_seed_twice_keeps_one_page() {
    let mut engine = CrawlerService::new();
    let config = seed_config(None);
    engine.start_crawling(&config).unwrap();
    engine.start_crawling(&config).unwrap();
    let with_fragment = CrawlConfig { start_url: format!("{}#top", SEED), ..seed_config(None) };
    engine.start_crawling(&with_fragment).unwrap();
    assert_eq!(engine.url_service().get_urls_for_version(VER, false).len(), 1);
}

#[test]
fn seed_that_is_no_url_is_refused_without_a_trace() {
    let mut engine = CrawlerService::new();
    let config = CrawlConfig { start_url: "not a url".to_string(), ..seed_config(None) };
    let refused = engine.start_crawling(&config);
    match refused {
        Err(CrawlFailure::InvalidUrl(reason)) => {
            assert_eq!(reason, "relative URL without a base");
        }
        other => panic!("expected an invalid URL, got {:?}", other),
    }
    assert!(engine.worker_pool().get_queued_tasks().is_empty());
    assert!(engine.url_service().get_urls_for_version(VER, false).is_empty());
    assert!(engine.drain_events().is_empty());
    assert!(engine.stop_all_crawling().is_err());
}

#[test]
fn seed_outside_its_own_filters_is_refused_without_a_trace() {
    let mut engine = CrawlerService::new();
    let wrong_prefix =
        CrawlConfig { prefix_path: "https://docs.example.com/v2/".to_string(), ..seed_config(None) };
    match engine.start_crawling(&wrong_prefix) {
        Err(e) => {
            assert!(matches!(&e, CrawlFailure::OutOfScope(u) if u == SEED));
            assert_eq!(
                e.message(),
                format!(
                    "Start URL '{}' doesn't match required filters. It may not start with the prefix path or may match anti-patterns. Please choose a different start URL.",
                    SEED
                )
            );
        }
        Ok(other) => panic!("expected a refusal, got {:?}", other),
    }
    let hit_by_keyword =
        CrawlConfig { anti_keywords: Some(vec!["docs".to_string()]), ..seed_config(None) };
    assert!(matches!(engine.start_crawling(&hit_by_keyword), Err(CrawlFailure::OutOfScope(_))));
    assert!(engine.worker_pool().get_queued_tasks().is_empty());
    assert!(engine.url_service().get_urls_for_version(VER, false).is_empty());
    assert!(engine.drain_events().is_empty());
}

#[test]
fn keywords_given_as_one_comma_separated_entry_are_split() {
    let mut engine = CrawlerService::new();
    let config =
        CrawlConfig { anti_keywords: Some(vec!["changelog, blog".to_string()]), ..seed_config(None) };
    engine.start_crawling(&config).unwrap();
    let queued = engine.worker_pool().get_queued_tasks();
    assert_eq!(queued[0].payload.anti_keywords, vec!["changelog".to_string(), "blog".to_string()]);
}

#[test]
fn seed_in_the_cache_is_not_queued_again() {
    let mut engine = CrawlerService::new();
    engine.mark_url_processed(SEED);
    let outcome = engine.start_crawling_as(&seed_config(Some(true)), 100, 200, 5).unwrap();
    match outcome {
        Submission::AlreadyProcessed(placeholder) => {
            assert_eq!(placeholder, "00000000-0000-0000-0000-0000000000c8");
            assert!(engine.worker_pool().get_task_status(&placeholder).is_none());
        }
        other => panic!("expected the cache to answer, got {:?}", other),
    }
    assert!(engine.worker_pool().get_queued_tasks().is_empty());
    let events = engine.drain_events();
    assert_eq!(events.len(), 1);
    match &events[0] {
        AppEvent::Notification(n) => {
            assert_eq!(n.title, "URL Already Processed");
            assert_eq!(
                n.message,
                format!("URL {} is already processed and won't be crawled again", SEED)
            );
        }
        other => panic!("unexpected event {:?}", other),
    }
}

#[test]
fn seed_in_the_cache_is_queued_when_the_cache_is_not_used() {
    let mut engine = CrawlerService::new();
    engine.mark_url_processed(SEED);
    let outcome = engine.start_crawling(&seed_config(Some(false))).unwrap();
    assert!(matches!(outcome, Submission::Queued(_)));
    assert_eq!(engine.worker_pool().get_queued_tasks().len(), 1);
    assert!(!engine.worker_pool().get_queued_tasks()[0].payload.skip_processed);
}

#[test]
fn only_the_link_in_scope_is_queued() {
    let mut engine = CrawlerService::new();
    engine.start_crawling(&seed_config(None)).unwrap();
    let (job, url, url_id) = begin_seed(&mut engine);
    assert_eq!(url, SEED);
    let html = page_with_links(&["/v1/guide", "/v1/changelog", "https://other.com/x"]);
    let done = engine.complete_crawl(&job, &url, url_id, &fetched(html));
    assert!(done.is_ok());
    assert_eq!(queued_urls(&engine), vec!["https://docs.example.com/v1/guide".to_string()]);
    let pages = engine.url_service().get_urls_for_version(VER, false);
    let mut urls: Vec<&str> = pages.iter().map(|p| p.url.as_str()).collect();
    urls.sort();
    assert_eq!(urls, vec![SEED, "https://docs.example.com/v1/guide"]);
    assert!(engine.is_url_processed("https://docs.example.com/v1/changelog"));
    assert!(engine.is_url_processed("https://other.com/x"));
}

#[test]
fn repeated_links_lead_to_one_task_each() {
    let mut engine = CrawlerService::new();
    engine.start_crawling(&seed_config(None)).unwrap();
    let (job, url, url_id) = begin_seed(&mut engine);
    let html = page_with_links(&["/v1/a", "/v1/a", "/v1/b#frag", "/v1/b"]);
    engine.complete_crawl(&job, &url, url_id, &fetched(html)).unwrap();
    assert_eq!(
        queued_urls(&engine),
        vec!["https://docs.example.com/v1/a".to_string(), "https://docs.example.com/v1/b".to_string()]
    );
    assert_eq!(engine.url_service().get_urls_for_version(VER, false).len(), 3);
}

#[test]
fn link_to_the_page_itself_is_passed_over() {
    let mut engine = CrawlerService::new();
    engine.start_crawling(&seed_config(None)).unwrap();
    let (job, url, url_id) = begin_seed(&mut engine);
    let html = page_with_links(&["/v1/", "#top", "https://docs.example.com/v1/#again"]);
    engine.complete_crawl(&job, &url, url_id, &fetched(html)).unwrap();
    assert!(queued_urls(&engine).is_empty());
}

#[test]
fn crawled_page_holds_its_content() {
    let mut engine = CrawlerService::new();
    engine.start_crawling(&seed_config(None)).unwrap();
    let (job, url, url_id) = begin_seed(&mut engine);
    assert_eq!(engine.url_service().get_url_by_id(url_id).unwrap().status, UrlStatus::Crawling);
    let html = page_with_links(&[]);
    engine.drain_events();
    engine.complete_crawl(&job, &url, url_id, &fetched(html.clone())).unwrap();
    let page = engine.url_service().get_url_by_id(url_id).unwrap();
    assert_eq!(page.status, UrlStatus::Crawled);
    assert_eq!(page.html.as_deref(), Some(html.as_str()));
    assert_eq!(page.markdown, Some(format!("markdown of {} bytes", html.len())));
    let events = engine.drain_events();
    assert_eq!(status_events(&events), vec!["crawled".to_string()]);
    let stages: Vec<(i32, String)> = events
        .iter()
        .filter_map(|e| match e {
            AppEvent::TaskUpdated(u) => Some((u.progress, u.status.clone())),
            _ => None,
        })
        .collect();
    assert_eq!(
        stages,
        vec![
            (60, "converting_to_markdown".to_string()),
            (80, "updating_content".to_string()),
            (60, "extracting_links".to_string()),
            (80, "queueing_links".to_string()),
            (100, "completed".to_string()),
        ]
    );
}

#[test]
fn timed_out_fetch_fails_the_task_and_follows_no_links() {
    let mut engine = CrawlerService::new();
    engine.start_crawling(&seed_config(None)).unwrap();
    let (job, url, url_id) = begin_seed(&mut engine);
    engine.drain_events();
    let failed = engine.complete_crawl(&job, &url, url_id, &FetchOutcome::TimedOut);
    assert!(matches!(&failed, Err(CrawlFailure::FetchTimedOut(u)) if u == SEED));
    assert_eq!(engine.url_service().get_url_by_id(url_id).unwrap().status, UrlStatus::CrawlError);
    assert!(engine.worker_pool().get_queued_tasks().is_empty());
    assert_eq!(engine.url_service().get_urls_for_version(VER, false).len(), 1);
    engine.close_task(&job.task_id, url_id, None, &failed).unwrap();
    let events = engine.drain_events();
    assert_eq!(status_events(&events), vec!["crawl_error".to_string()]);
    let closing: Vec<&AppEvent> = events
        .iter()
        .filter(|e| {
            matches!(
                e,
                AppEvent::TaskCompleted(_) | AppEvent::TaskFailed(_) | AppEvent::TaskCancelled(_)
            )
        })
        .collect();
    assert_eq!(closing.len(), 1);
    match closing[0] {
        AppEvent::TaskFailed(e) => {
            assert_eq!(e.task_id, job.task_id);
            assert_eq!(e.error, format!("Timeout while fetching URL: {}", SEED));
        }
        other => panic!("unexpected event {:?}", other),
    }
}

#[test]
fn failed_fetch_leaves_a_crawl_error() {
    let mut engine = CrawlerService::new();
    engine.start_crawling(&seed_config(None)).unwrap();
    let (job, url, url_id) = begin_seed(&mut engine);
    let failed =
        engine.complete_crawl(&job, &url, url_id, &FetchOutcome::Failed("dns".to_string()));
    match &failed {
        Err(e) => assert_eq!(e.message(), "Failed to fetch URL content: dns"),
        Ok(_) => panic!("expected a failure"),
    }
    assert_eq!(engine.url_service().get_url_by_id(url_id).unwrap().status, UrlStatus::CrawlError);
    assert!(engine.is_url_processed(SEED));
}

#[test]
fn empty_page_fails_the_task_after_it_was_stored() {
    let mut engine = CrawlerService::new();
    engine.start_crawling(&seed_config(None)).unwrap();
    let (job, url, url_id) = begin_seed(&mut engine);
    let failed = engine.complete_crawl(&job, &url, url_id, &fetched(String::new()));
    assert!(matches!(failed, Err(CrawlFailure::EmptyContent)));
    assert_eq!(engine.url_service().get_url_by_id(url_id).unwrap().status, UrlStatus::Crawled);
}

#[test]
fn page_stuck_at_crawl_error_is_fetched_again_despite_the_cache() {
    let mut engine = CrawlerService::new();
    engine.start_crawling(&seed_config(None)).unwrap();
    let (job, url, url_id) = begin_seed(&mut engine);
    let failed = engine.complete_crawl(&job, &url, url_id, &FetchOutcome::TimedOut);
    engine.close_task(&job.task_id, url_id, None, &failed).unwrap();
    assert!(engine.is_url_processed(SEED));
    assert_eq!(engine.url_service().get_url_by_id(url_id).unwrap().status, UrlStatus::CrawlError);
    assert!(!engine.is_url_processed_async(SEED, TECH, VER));

    let again = engine.start_crawling(&seed_config(None)).unwrap();
    assert!(matches!(again, Submission::Queued(_)));
    engine.drain_events();
    let (_, url_again, id_again) = begin_seed(&mut engine);
    assert_eq!(url_again, SEED);
    assert_eq!(id_again, url_id);
    assert_eq!(engine.url_service().get_url_by_id(url_id).unwrap().status, UrlStatus::Crawling);
    let events = engine.drain_events();
    assert_eq!(status_events(&events), vec!["pending_crawl".to_string(), "crawling".to_string()]);
}

#[test]
fn link_to_a_page_stuck_at_crawl_error_is_queued_despite_the_cache() {
    let mut engine = CrawlerService::new();
    let guide = "https://docs.example.com/v1/guide";
    engine.add_url_as(guide, TECH, VER, 5, 1).unwrap();
    let job = CrawlJob {
        task_id: "t".to_string(),
        technology_id: TECH,
        version_id: VER,
        url: guide.to_string(),
        prefix_path: SEED.to_string(),
        anti_paths: vec![],
        anti_keywords: vec![],
        skip_processed: true,
    };
    assert!(matches!(engine.begin_crawl(&job, 6, 2), CrawlStep::Fetch { .. }));
    let _ = engine.finish_fetch(&job, guide, 5, &FetchOutcome::TimedOut, 3);
    assert!(engine.is_url_processed(guide));
    let seed_job = CrawlJob { task_id: "s".to_string(), url: SEED.to_string(), ..job };
    let decision = engine.enqueue_link(&seed_job, SEED, guide, 7, 8, 4);
    assert_eq!(decision, LinkDecision::Enqueued);
    assert_eq!(queued_urls(&engine), vec![guide.to_string()]);
    assert_eq!(engine.worker_pool().get_queued_tasks()[0].payload.url_id, 5);
}

#[test]
fn links_are_decided_one_by_one() {
    let mut engine = CrawlerService::new();
    let job = CrawlJob {
        task_id: "t".to_string(),
        technology_id: TECH,
        version_id: VER,
        url: SEED.to_string(),
        prefix_path: SEED.to_string(),
        anti_paths: vec![],
        anti_keywords: vec!["changelog".to_string()],
        skip_processed: true,
    };
    let a = "https://docs.example.com/v1/a";
    assert_eq!(engine.enqueue_link(&job, SEED, SEED, 1, 2, 0), LinkDecision::SelfLink);
    assert_eq!(engine.enqueue_link(&job, SEED, a, 1, 2, 0), LinkDecision::Created);
    assert_eq!(engine.enqueue_link(&job, SEED, a, 3, 4, 0), LinkDecision::Enqueued);
    assert_eq!(
        engine.enqueue_link(&job, SEED, "https://docs.example.com/v1/changelog", 5, 6, 0),
        LinkDecision::OutOfScope
    );
    assert_eq!(
        engine.enqueue_link(&job, SEED, "https://docs.example.com/v1/changelog", 5, 6, 0),
        LinkDecision::AlreadyHandled
    );
    let b = "https://docs.example.com/v1/b";
    assert_eq!(engine.enqueue_link(&job, SEED, b, 1, 9, 0), LinkDecision::Refused);
    assert_eq!(queued_urls(&engine), vec![a.to_string(), a.to_string()]);
    assert_eq!(engine.enqueue_link(&job, SEED, b, 10, 2, 0), LinkDecision::Created);
    assert_eq!(queued_urls(&engine), vec![a.to_string(), a.to_string(), b.to_string()]);
    assert_eq!(engine.url_service().get_urls_for_version(VER, false).len(), 2);
}

#[test]
fn page_past_its_crawl_is_not_queued_by_a_link() {
    let mut engine = CrawlerService::new();
    let a = "https://docs.example.com/v1/a";
    engine.add_url_as(a, TECH, VER, 5, 1).unwrap();
    let job = CrawlJob {
        task_id: "t".to_string(),
        technology_id: TECH,
        version_id: VER,
        url: a.to_string(),
        prefix_path: String::new(),
        anti_paths: vec![],
        anti_keywords: vec![],
        skip_processed: false,
    };
    assert!(matches!(engine.begin_crawl(&job, 6, 2), CrawlStep::Fetch { .. }));
    engine.finish_fetch(&job, a, 5, &fetched("<p>x</p>".to_string()), 3).unwrap();
    let other = CrawlJob { task_id: "o".to_string(), url: SEED.to_string(), ..job };
    assert_eq!(engine.enqueue_link(&other, SEED, a, 7, 8, 4), LinkDecision::AlreadyKnown);
    assert!(queued_urls(&engine).is_empty());
    assert!(!engine.is_url_processed(a));
}

#[test]
fn stop_all_cancels_queued_and_running_crawl_tasks() {
    let mut engine = CrawlerService::new();
    engine.start_crawling(&seed_config(None)).unwrap();
    let (job, url, url_id) = begin_seed(&mut engine);
    let html = page_with_links(&["/v1/a", "/v1/b"]);
    engine.complete_crawl(&job, &url, url_id, &fetched(html)).unwrap();
    let (running, _, _) = begin_seed(&mut engine);
    engine.drain_events();
    assert!(engine.stop_all_crawling().is_ok());
    assert!(engine.worker_pool().is_cancelled(&job.task_id));
    assert!(engine.worker_pool().is_cancelled(&running.task_id));
    for task in engine.worker_pool().get_queued_tasks() {
        assert!(engine.worker_pool().is_cancelled(&task.id));
    }
    let events = engine.drain_events();
    assert_eq!(events.len(), 1);
    match &events[0] {
        AppEvent::Notification(n) => {
            assert_eq!(n.title, "Crawling Stopped");
            assert_eq!(n.message, "Stopped 1 active crawling processes (3 tasks cancelled)");
        }
        other => panic!("unexpected event {:?}", other),
    }
}

#[test]
fn cancelled_crawl_task_creates_no_task() {
    let mut engine = CrawlerService::new();
    engine.start_crawling(&seed_config(None)).unwrap();
    let (job, url, url_id) = begin_seed(&mut engine);
    engine.stop_all_crawling().unwrap();
    engine.drain_events();
    let html = page_with_links(&["/v1/a", "/v1/b"]);
    engine.complete_crawl(&job, &url, url_id, &fetched(html)).unwrap();
    assert!(engine.worker_pool().get_queued_tasks().is_empty());
    assert_eq!(engine.url_service().get_urls_for_version(VER, false).len(), 1);
    assert_eq!(
        engine.enqueue_link(&job, &url, "https://docs.example.com/v1/c", 1, 2, 3),
        LinkDecision::Cancelled
    );
    let closed = engine.close_task(&job.task_id, url_id, None, &Ok(()));
    assert_eq!(closed, Ok(anchoring::task::TaskStatus::Cancelled));
    let events = engine.drain_events();
    assert!(matches!(events.last(), Some(AppEvent::TaskCancelled(_))));
}

#[test]
fn crawl_task_queued_before_the_stop_never_runs() {
    let mut engine = CrawlerService::new();
    engine.start_crawling(&seed_config(None)).unwrap();
    engine.stop_all_crawling().unwrap();
    engine.drain_events();
    assert!(matches!(engine.next_action(), WorkerAction::Dropped));
    assert!(matches!(engine.next_action(), WorkerAction::Idle));
    assert!(engine.drain_events().is_empty());
    assert_eq!(
        engine.url_service().get_url_by_url(TECH, VER, SEED).unwrap().status,
        UrlStatus::PendingCrawl
    );
}

#[test]
fn stopping_with_nothing_to_stop_fails_but_says_so() {
    let mut engine = CrawlerService::new();
    match engine.stop_all_crawling() {
        Err(e) => assert_eq!(e.message(), "No active crawling processes"),
        Ok(_) => panic!("expected a failure"),
    }
    let events = engine.drain_events();
    assert_eq!(events.len(), 1);
    match &events[0] {
        AppEvent::Notification(n) => {
            assert_eq!(n.message, "Stopped 0 active crawling processes (0 tasks cancelled)")
        }
        other => panic!("unexpected event {:?}", other),
    }
}

#[test]
fn stopping_one_crawl_leaves_its_tasks_alone() {
    let mut engine = CrawlerService::new();
    engine.start_crawling(&seed_config(None)).unwrap();
    engine.drain_events();
    assert!(engine.stop_tech_version_crawling(TECH, VER).is_ok());
    let queued = engine.worker_pool().get_queued_tasks();
    assert_eq!(queued.len(), 1);
    assert!(!engine.worker_pool().is_cancelled(&queued[0].id));
    let events = engine.drain_events();
    assert_eq!(events.len(), 1);
    match &events[0] {
        AppEvent::Notification(n) => assert_eq!(
            n.message,
            "Stopped crawling for technology 00000000-0000-0000-0000-00000000000b version 00000000-0000-0000-0000-000000000016"
        ),
        other => panic!("unexpected event {:?}", other),
    }
    match engine.stop_tech_version_crawling(TECH, 99) {
        Err(e) => {
            assert!(matches!(e, CrawlFailure::NoActiveCrawlFor(TECH, 99)));
            assert_eq!(
                e.message(),
                "No active crawling for technology 00000000-0000-0000-0000-00000000000b version 00000000-0000-0000-0000-000000000063"
            );
        }
        Ok(_) => panic!("expected a failure"),
    }
    assert!(engine.drain_events().is_empty());
}

#[test]
fn url_excluded_by_changed_filters_is_skipped() {
    let mut engine = CrawlerService::new();
    engine.start_crawling(&seed_config(None)).unwrap();
    let (job, url, url_id) = begin_seed(&mut engine);
    let html = page_with_links(&["/v1/guide"]);
    engine.complete_crawl(&job, &url, url_id, &fetched(html)).unwrap();
    let guide = engine
        .url_service()
        .get_url_by_url(TECH, VER, "https://docs.example.com/v1/guide")
        .unwrap();
    let stricter = CrawlJob {
        task_id: "later".to_string(),
        technology_id: TECH,
        version_id: VER,
        url: guide.url.clone(),
        prefix_path: SEED.to_string(),
        anti_paths: vec![],
        anti_keywords: vec!["guide".to_string()],
        skip_processed: true,
    };
    engine.drain_events();
    match engine.begin_crawl(&stricter, 1, 2) {
        CrawlStep::Finished(result) => assert!(result.is_ok()),
        other => panic!("expected the task to end, got {:?}", other),
    }
    assert_eq!(engine.url_service().get_url_by_id(guide.id).unwrap().status, UrlStatus::Skipped);
    assert!(engine.is_url_processed(&guide.url));
    assert_eq!(status_events(&engine.drain_events()), vec!["skipped".to_string()]);
}

#[test]
fn page_in_flight_is_left_to_the_task_that_fetches_it() {
    let mut engine = CrawlerService::new();
    let job = CrawlJob {
        task_id: "one".to_string(),
        technology_id: TECH,
        version_id: VER,
        url: SEED.to_string(),
        prefix_path: String::new(),
        anti_paths: vec![],
        anti_keywords: vec![],
        skip_processed: false,
    };
    let first = engine.begin_crawl(&job, 5, 1);
    assert!(matches!(first, CrawlStep::Fetch { url_id: 5, .. }));
    let twin = CrawlJob { task_id: "two".to_string(), ..job.clone() };
    match engine.begin_crawl(&twin, 6, 2) {
        CrawlStep::Finished(result) => assert!(result.is_ok()),
        other => panic!("expected the twin to end, got {:?}", other),
    }
    engine.finish_fetch(&job, SEED, 5, &fetched("<p>x</p>".to_string()), 3).unwrap();
    match engine.begin_crawl(&twin, 6, 4) {
        CrawlStep::Finished(result) => assert!(result.is_ok()),
        other => panic!("expected the page to be past its crawl, got {:?}", other),
    }
    assert_eq!(engine.url_service().get_url_by_id(5).unwrap().status, UrlStatus::Crawled);
}

#[test]
fn crawl_of_a_text_that_is_no_url_fails() {
    let mut engine = CrawlerService::new();
    let step = engine.process_url_with_links("t", TECH, VER, "nonsense", "", &[], &[], true);
    match step {
        CrawlStep::Finished(Err(e)) => {
            assert_eq!(e.message(), "Invalid URL: relative URL without a base")
        }
        other => panic!("expected a failure, got {:?}", other),
    }
}

#[test]
fn pending_pages_leave_the_cache_when_a_crawl_starts() {
    let mut engine = CrawlerService::new();
    engine.add_url_as("https://docs.example.com/v1/a", TECH, VER, 1, 0).unwrap();
    engine.add_url_as("https://docs.example.com/v1/b", TECH, 99, 2, 0).unwrap();
    engine.mark_url_processed("https://docs.example.com/v1/a");
    engine.mark_url_processed("https://docs.example.com/v1/b");
    engine.mark_url_processed("https://docs.example.com/v1/c");
    assert_eq!(engine.check_and_unmark_pending_urls(TECH, VER), 1);
    assert!(!engine.is_url_processed("https://docs.example.com/v1/a"));
    assert!(engine.is_url_processed("https://docs.example.com/v1/b"));
    assert!(engine.is_url_processed("https://docs.example.com/v1/c"));
    engine.unmark_url_processed("https://docs.example.com/v1/c");
    assert!(!engine.is_url_processed("https://docs.example.com/v1/c"));
}

#[test]
fn engine_offers_the_filter_and_the_link_extraction() {
    let engine = CrawlerService::new();
    assert!(engine.should_crawl_url(SEED, SEED, &[], &[]));
    assert!(!engine.should_crawl_url("https://other.com/", SEED, &[], &[]));
    let links = engine.extract_links_from_html("<a href=\"b\">b</a><a href='a'>a</a>", SEED);
    assert_eq!(
        links,
        vec!["https://docs.example.com/v1/a".to_string(), "https://docs.example.com/v1/b".to_string()]
    );
    assert_eq!(engine.event_emitter().len(), 0);
}

#[test]
fn filters_stored_since_the_task_was_made_are_applied_too() {
    let mut engine = CrawlerService::new();
    engine.start_crawling(&seed_config(None)).unwrap();
    engine.save_crawling_settings(
        anchoring::models::CrawlingSettings {
            id: 0,
            version_id: VER,
            prefix_path: Some("https://docs.example.com/v2/".to_string()),
            anti_paths: None,
            anti_keywords: None,
            created_at: 0,
            updated_at: 0,
        },
        900,
    );
    assert!(matches!(engine.next_action(), WorkerAction::Finished(_)));
    assert_eq!(
        engine.url_service().get_url_by_url(TECH, VER, SEED).unwrap().status,
        UrlStatus::Skipped
    );
}

#[test]
fn task_cancelled_before_its_first_step_does_nothing() {
    let mut engine = CrawlerService::new();
    engine.start_crawling(&seed_config(None)).unwrap();
    let task = engine.worker_pool().get_queued_tasks().remove(0);
    let job = CrawlJob::of_task(&task).unwrap();
    assert!(matches!(engine.take_next(), anchoring::pool::Dispatch::Run(_)));
    engine.cancel_task(&task.id).unwrap();
    engine.drain_events();
    match engine.begin_crawl(&job, 1, 2) {
        CrawlStep::Finished(Err(e)) => assert_eq!(e.message(), "Task was cancelled"),
        other => panic!("expected the task to end, got {:?}", other),
    }
    assert!(engine.drain_events().is_empty());
    assert_eq!(
        engine.url_service().get_url_by_url(TECH, VER, SEED).unwrap().status,
        UrlStatus::PendingCrawl
    );
}

#[test]
fn page_id_that_is_taken_fails_the_submission() {
    let mut engine = CrawlerService::new();
    engine.add_url_as("https://docs.example.com/other", TECH, VER, 100, 0).unwrap();
    match engine.start_crawling_as(&seed_config(None), 100, 200, 5) {
        Err(e) => assert_eq!(
            e.message(),
            "Documentation URL with ID 00000000-0000-0000-0000-000000000064 already exists"
        ),
        Ok(_) => panic!("expected a failure"),
    }
    assert!(matches!(engine.start_crawling_as(&seed_config(None), 101, 200, 5), Ok(_)));
    let other = CrawlConfig {
        start_url: "https://docs.example.com/v1/b".to_string(),
        ..seed_config(None)
    };
    match engine.start_crawling_as(&other, 102, 200, 6) {
        Ok(Submission::Queued(id)) => assert_eq!(id, "00000000-0000-0000-0000-0000000000c8"),
        other => panic!("expected a queued task, got {:?}", other),
    }
    assert_eq!(
        queued_urls(&engine),
        vec![SEED.to_string(), "https://docs.example.com/v1/b".to_string()]
    );
}

#[test]
fn seed_is_handed_on_as_it_was_given() {
    let mut engine = CrawlerService::new();
    let given = format!("{}#top", SEED);
    let config = CrawlConfig { start_url: given.clone(), ..seed_config(None) };
    engine.start_crawling_as(&config, 100, 200, 5).unwrap();
    assert_eq!(queued_urls(&engine), vec![given.clone()]);
    assert_eq!(engine.url_service().get_url_by_id(100).unwrap().url, SEED);
    let events = engine.drain_events();
    let notes: Vec<String> = events
        .iter()
        .filter_map(|e| match e {
            AppEvent::Notification(n) => Some(n.message.clone()),
            _ => None,
        })
        .collect();
    assert_eq!(notes, vec![format!("Started crawling from URL: {}", given)]);
    match engine.next_action_at(101, 6) {
        WorkerAction::Fetch { url, url_id, .. } => {
            assert_eq!(url, SEED);
            assert_eq!(url_id, 100);
        }
        other => panic!("expected a fetch, got {:?}", other),
    }
    assert_eq!(engine.url_service().get_urls_for_version(VER, false).len(), 1);
}

#[test]
fn page_that_cannot_be_converted_is_a_crawl_error() {
    let mut engine = CrawlerService::new();
    engine.start_crawling_as(&seed_config(None), 100, 200, 5).unwrap();
    let (job, url, url_id) = begin_seed(&mut engine);
    engine.drain_events();
    let html = page_with_links(&["/v1/guide"]);
    let outcome = FetchOutcome::Content { html, markdown: None };
    let failed = engine.complete_crawl(&job, &url, url_id, &outcome);
    match &failed {
        Err(e) => {
            assert!(matches!(e, CrawlFailure::ConversionFailed));
            assert_eq!(e.message(), "Failed to convert HTML to markdown");
        }
        Ok(_) => panic!("expected a failure"),
    }
    let page = engine.url_service().get_url_by_id(url_id).unwrap();
    assert_eq!(page.status, UrlStatus::CrawlError);
    assert_eq!(page.html, None);
    assert_eq!(page.markdown, None);
    assert!(engine.worker_pool().get_queued_tasks().is_empty());
    assert!(engine.is_url_processed(&url));
    let events = engine.drain_events();
    assert_eq!(status_events(&events), vec!["crawl_error".to_string()]);
    let stages: Vec<(i32, String)> = events
        .iter()
        .filter_map(|e| match e {
            AppEvent::TaskUpdated(u) => Some((u.progress, u.status.clone())),
            _ => None,
        })
        .collect();
    assert_eq!(
        stages,
        vec![(60, "converting_to_markdown".to_string()), (100, "markdown_error".to_string())]
    );
}

#[test]
fn crawl_error_is_fetched_again_by_one_task() {
    let mut engine = CrawlerService::new();
    engine.start_crawling_as(&seed_config(None), 100, 200, 5).unwrap();
    let (job, url, url_id) = begin_seed(&mut engine);
    engine.url_service();
    let _ = engine.complete_crawl(&job, &url, url_id, &FetchOutcome::TimedOut);
    assert_eq!(engine.url_service().get_url_by_id(url_id).unwrap().status, UrlStatus::CrawlError);
    assert!(engine.is_url_processed(&url));
    let again = CrawlJob { task_id: "again".to_string(), ..job };
    match engine.begin_crawl(&again, 101, 9) {
        CrawlStep::Fetch { url: target, url_id: id } => {
            assert_eq!(target, url);
            assert_eq!(id, url_id);
        }
        other => panic!("expected a fetch, got {:?}", other),
    }
    assert_eq!(engine.url_service().get_url_by_id(url_id).unwrap().status, UrlStatus::Crawling);
    assert!(matches!(
        engine.begin_crawl(&CrawlJob { task_id: "third".to_string(), ..again }, 102, 10),
        CrawlStep::Finished(Ok(()))
    ));
}

#[test]
fn default_engine_is_empty() {
    let mut engine = CrawlerService::default();
    assert!(engine.worker_pool().get_queued_tasks().is_empty());
    assert!(engine.url_service().get_urls_for_version(VER, false).is_empty());
    assert!(engine.drain_events().is_empty());
    assert!(!engine.is_url_processed(SEED));
}

fn processed_seed(engine: &mut CrawlerService) -> (CrawlJob, String, u128) {
    engine.start_crawling_as(&seed_config(None), 100, 200, 5).unwrap();
    let (job, url, url_id) = begin_seed(engine);
    engine.complete_crawl(&job, &url, url_id, &fetched(page_with_links(&[]))).unwrap();
    assert!(engine.begin_snippets("snippets", url_id, 7).unwrap().is_some());
    engine.snippets_done("snippets", url_id, 8);
    assert_eq!(engine.url_service().get_url_by_id(url_id).unwrap().status, UrlStatus::Processed);
    engine.drain_events();
    (job, url, url_id)
}

#[test]
fn processed_page_is_left_alone_whatever_the_cache_holds() {
    let mut engine = CrawlerService::new();
    let (job, url, url_id) = processed_seed(&mut engine);
    assert!(job.skip_processed);
    assert!(!engine.is_url_processed(&url));
    let again = CrawlJob { task_id: "again".to_string(), ..job };
    assert!(matches!(engine.begin_crawl(&again, 101, 9), CrawlStep::Finished(Ok(()))));
    let page = engine.url_service().get_url_by_id(url_id).unwrap();
    assert_eq!(page.status, UrlStatus::Processed);
    assert!(page.html.is_some());
    let events = engine.drain_events();
    assert!(status_events(&events).is_empty());
    engine.mark_url_processed(&url);
    assert!(matches!(engine.begin_crawl(&again, 101, 10), CrawlStep::Finished(Ok(()))));
    assert_eq!(engine.url_service().get_url_by_id(url_id).unwrap().status, UrlStatus::Processed);
    assert!(status_events(&engine.drain_events()).is_empty());
    assert!(engine.worker_pool().get_queued_tasks().is_empty());
}

#[test]
fn processed_page_is_crawled_again_where_the_crawl_asks_for_it() {
    let mut engine = CrawlerService::new();
    let (job, url, url_id) = processed_seed(&mut engine);
    let again = CrawlJob { task_id: "again".to_string(), skip_processed: false, ..job };
    match engine.begin_crawl(&again, 101, 9) {
        CrawlStep::Fetch { url: target, url_id: id } => {
            assert_eq!(target, url);
            assert_eq!(id, url_id);
        }
        other => panic!("expected a fetch, got {:?}", other),
    }
    assert_eq!(
        status_events(&engine.drain_events()),
        vec!["pending_crawl".to_string(), "crawling".to_string()]
    );
}
