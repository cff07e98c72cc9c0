use anchoring::cache::ProcessedUrls;
use anchoring::commands::{CrawlEvent, MarkdownEvent, SnippetEvent};
use anchoring::events::{AppEvent, EventEmitter, TaskCompletedResult};
use anchoring::registry::CrawlRegistry;
use anchoring::search::{PineconeConfig, SearchQuery};
use anchoring::task::{TaskPayload, TechnicalInfo};

#[test]
fn emitter_collects_events_in_order_on_their_channels() {
    let mut emitter = EventEmitter::new();
    emitter.emit_task_created("t", "crawl_url", TaskPayload::for_page("u", 1));
    emitter.emit_task_updated("t", 40, "fetching_content");
    emitter.emit_task_completed("t", TaskCompletedResult { snippets_count: None, url_id: 1 });
    emitter.emit_task_failed("t", "f");
    emitter.emit_task_error("t", "e");
    emitter.emit_task_cancelled("t");
    emitter.emit_processing_started("t", Some("u"), Some(255));
    emitter.emit_processing_completed("t", 3);
    emitter.emit_url_status_updated(255, "crawled");
    emitter.emit_app_notification("Title", "Message", Some("info"));
    assert_eq!(emitter.len(), 10);
    let events = emitter.drain();
    assert_eq!(emitter.len(), 0);
    let channels: Vec<&str> = events.iter().map(|e| e.channel()).collect();
    assert_eq!(
        channels,
        vec![
            "task:created",
            "task:updated",
            "task:completed",
            "task:failed",
            "task:error",
            "task:cancelled",
            "processing:started",
            "processing:completed",
            "url:status:updated",
            "app:notification",
        ]
    );
    match &events[6] {
        AppEvent::ProcessingStarted(e) => {
            assert_eq!(e.url.as_deref(), Some("u"));
            assert_eq!(e.tech_id.as_deref(), Some("00000000-0000-0000-0000-0000000000ff"));
        }
        other => panic!("unexpected event {:?}", other),
    }
    match &events[8] {
        AppEvent::UrlStatusUpdated(e) => {
            assert_eq!(e.url_id, "00000000-0000-0000-0000-0000000000ff");
            assert_eq!(e.status, "crawled");
        }
        other => panic!("unexpected event {:?}", other),
    }
    match &events[9] {
        AppEvent::Notification(e) => {
            assert_eq!(e.title, "Title");
            assert_eq!(e.message, "Message");
            assert_eq!(e.notification_type.as_deref(), Some("info"));
        }
        other => panic!("unexpected event {:?}", other),
    }
}

#[test]
fn cache_is_a_set_of_urls() {
    let mut cache = ProcessedUrls::new();
    assert!(!cache.contains("a"));
    cache.insert("a");
    cache.insert("a");
    cache.insert("b");
    assert!(cache.contains("a"));
    assert!(cache.contains("b"));
    cache.remove("a");
    assert!(!cache.contains("a"));
    assert!(cache.contains("b"));
    cache.remove("never there");
    assert!(cache.contains("b"));
}

#[test]
fn registry_marks_crawls_as_running_and_stopped() {
    let mut registry = CrawlRegistry::new();
    assert!(!registry.is_active(1, 2));
    registry.start(1, 2);
    registry.start(1, 3);
    registry.start(1, 2);
    assert!(registry.is_active(1, 2));
    assert!(registry.stop(1, 2));
    assert!(!registry.is_active(1, 2));
    assert!(registry.is_active(1, 3));
    assert!(!registry.stop(9, 9));
    registry.start(1, 2);
    assert_eq!(registry.stop_all(), 2);
    assert!(!registry.is_active(1, 2));
    assert!(!registry.is_active(1, 3));
    assert_eq!(registry.stop_all(), 2);
}

#[test]
fn caller_events_and_requests_are_plain_records() {
    let started = CrawlEvent::Started { task_id: "t".to_string(), url: "u".to_string() };
    assert!(matches!(started, CrawlEvent::Started { .. }));
    let progress = MarkdownEvent::Progress { current: 1, total: 2, url: "u".to_string() };
    assert!(matches!(progress, MarkdownEvent::Progress { current: 1, total: 2, .. }));
    let finished = SnippetEvent::Finished { task_ids: vec!["t".to_string()] };
    assert!(matches!(finished, SnippetEvent::Finished { .. }));
    let query = SearchQuery {
        query: "q".to_string(),
        technology_id: None,
        version_id: None,
        limit: Some(10),
    };
    assert_eq!(query.limit, Some(10));
    let config = PineconeConfig { api_key: "k".to_string(), index_name: "i".to_string() };
    assert_eq!(config.index_name, "i");
    let info = TechnicalInfo { name: "n".to_string(), version: None, related_technologies: None };
    assert_eq!(info.name, "n");
}
