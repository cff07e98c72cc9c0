use anchoring::events::{AppEvent, TaskCompletedResult};
use anchoring::pool::{Dispatch, PoolError, TaskOutcome, WorkerPool};
use anchoring::task::{Task, TaskKind, TaskPayload, TaskStatus};

fn pool_task(id: u128, kind: &str) -> Task {
    Task::with_id(id, kind, Some(1), Some(2), TaskPayload::for_page("https://a.example/", 7), 50)
}

fn run_next(pool: &mut WorkerPool) -> Task {
    match pool.take_next() {
        Dispatch::Run(task) => task,
        other => panic!("expected a task to run, got {:?}", other),
    }
}

#[test]
fn queueing_reports_creation_before_any_worker_sees_the_task() {
    let mut pool = WorkerPool::new();
    let task = pool_task(1, "crawl_url");
    let id = pool.queue_task(task.duplicate()).unwrap();
    assert_eq!(id, task.id);
    let events = pool.drain_events();
    assert_eq!(events.len(), 1);
    match &events[0] {
        AppEvent::TaskCreated(e) => {
            assert_eq!(e.task_id, task.id);
            assert_eq!(e.task_type, "crawl_url");
            assert_eq!(e.metadata.url, "https://a.example/");
            assert_eq!(e.metadata.url_id, 7);
        }
        other => panic!("unexpected event {:?}", other),
    }
    assert_eq!(events[0].channel(), "task:created");
    assert_eq!(pool.get_queued_tasks().len(), 1);
    assert_eq!(pool.get_active_tasks().len(), 0);
}

#[test]
fn queued_task_is_queued_whatever_status_it_came_with() {
    let mut pool = WorkerPool::new();
    let mut task = pool_task(1, "crawl_url");
    task.status = TaskStatus::Completed;
    pool.queue_task(task).unwrap();
    assert_eq!(pool.get_queued_tasks()[0].status, TaskStatus::Queued);
}

#[test]
fn no_task_is_refused() {
    let mut pool = WorkerPool::new();
    let first = pool.queue_task(pool_task(1, "crawl_url")).unwrap();
    pool.drain_events();
    let second = pool.queue_task(pool_task(1, "clean_markdown")).unwrap();
    assert_eq!(second, first);
    assert_eq!(pool.get_queued_tasks().len(), 2);
    let events = pool.drain_events();
    assert_eq!(events.len(), 1);
    match &events[0] {
        AppEvent::TaskCreated(e) => {
            assert_eq!(e.task_id, first);
            assert_eq!(e.task_type, "clean_markdown");
        }
        other => panic!("unexpected event {:?}", other),
    }
    let _ = run_next(&mut pool);
    assert_eq!(pool.queue_task(pool_task(1, "crawl_url")), Ok(first));
    assert_eq!(pool.get_queued_tasks().len(), 2);
}

#[test]
fn tasks_are_taken_in_the_order_of_their_queueing() {
    let mut pool = WorkerPool::new();
    let first = pool.queue_task(pool_task(1, "crawl_url")).unwrap();
    let second = pool.queue_task(pool_task(2, "crawl_url")).unwrap();
    assert_eq!(run_next(&mut pool).id, first);
    assert_eq!(run_next(&mut pool).id, second);
    assert!(matches!(pool.take_next(), Dispatch::Idle));
}

#[test]
fn taken_task_runs_and_that_is_reported() {
    let mut pool = WorkerPool::new();
    let id = pool.queue_task(pool_task(1, "crawl_url")).unwrap();
    pool.drain_events();
    let task = run_next(&mut pool);
    assert_eq!(task.status, TaskStatus::Running);
    let active = pool.get_active_tasks();
    assert_eq!(active.len(), 1);
    assert_eq!(active[0].status, TaskStatus::Running);
    let events = pool.drain_events();
    assert_eq!(events.len(), 1);
    match &events[0] {
        AppEvent::TaskUpdated(e) => {
            assert_eq!(e.task_id, id);
            assert_eq!(e.progress, 0);
            assert_eq!(e.status, "running");
        }
        other => panic!("unexpected event {:?}", other),
    }
}

#[test]
fn task_cancelled_while_queued_is_dropped_without_a_trace() {
    let mut pool = WorkerPool::new();
    let id = pool.queue_task(pool_task(1, "crawl_url")).unwrap();
    assert_eq!(pool.cancel_task(&id), Ok(()));
    assert!(pool.is_cancelled(&id));
    pool.drain_events();
    match pool.take_next() {
        Dispatch::Dropped(task) => assert_eq!(task.id, id),
        other => panic!("expected the task to be dropped, got {:?}", other),
    }
    assert!(pool.drain_events().is_empty());
    assert!(pool.get_active_tasks().is_empty());
    assert!(pool.get_queued_tasks().is_empty());
    assert!(!pool.is_cancelled(&id));
}

#[test]
fn cancelling_a_running_task_only_sets_its_flag() {
    let mut pool = WorkerPool::new();
    let id = pool.queue_task(pool_task(1, "crawl_url")).unwrap();
    let _ = run_next(&mut pool);
    assert!(!pool.is_cancelled(&id));
    assert_eq!(pool.cancel_task(&id), Ok(()));
    assert!(pool.is_cancelled(&id));
    let active = pool.get_active_tasks();
    assert_eq!(active.len(), 1);
    assert_eq!(active[0].status, TaskStatus::Cancelled);
}

#[test]
fn cancelling_an_unknown_task_fails() {
    let mut pool = WorkerPool::new();
    assert_eq!(pool.cancel_task("nobody"), Err(PoolError::TaskNotFound));
    assert!(!pool.is_cancelled("nobody"));
}

#[test]
fn completed_task_is_closed_by_one_event() {
    let mut pool = WorkerPool::new();
    let id = pool.queue_task(pool_task(1, "crawl_url")).unwrap();
    let _ = run_next(&mut pool);
    pool.drain_events();
    let outcome = TaskOutcome::Completed(TaskCompletedResult { snippets_count: Some(3), url_id: 7 });
    assert_eq!(pool.finish_task(&id, outcome), Ok(TaskStatus::Completed));
    let events = pool.drain_events();
    assert_eq!(events.len(), 1);
    match &events[0] {
        AppEvent::TaskCompleted(e) => {
            assert_eq!(e.task_id, id);
            assert_eq!(e.result.snippets_count, Some(3));
            assert_eq!(e.result.url_id, 7);
        }
        other => panic!("unexpected event {:?}", other),
    }
    assert!(pool.get_active_tasks().is_empty());
}

#[test]
fn failed_task_is_closed_by_one_event() {
    let mut pool = WorkerPool::new();
    let id = pool.queue_task(pool_task(1, "crawl_url")).unwrap();
    let _ = run_next(&mut pool);
    pool.drain_events();
    let outcome = TaskOutcome::Failed("boom".to_string());
    assert_eq!(pool.finish_task(&id, outcome), Ok(TaskStatus::Failed));
    let events = pool.drain_events();
    assert_eq!(events.len(), 1);
    match &events[0] {
        AppEvent::TaskFailed(e) => {
            assert_eq!(e.task_id, id);
            assert_eq!(e.error, "boom");
        }
        other => panic!("unexpected event {:?}", other),
    }
    assert_eq!(events[0].channel(), "task:failed");
}

#[test]
fn cancelled_task_is_reported_as_cancelled_whatever_its_worker_says() {
    let mut pool = WorkerPool::new();
    let id = pool.queue_task(pool_task(1, "crawl_url")).unwrap();
    let _ = run_next(&mut pool);
    pool.cancel_task(&id).unwrap();
    pool.drain_events();
    let outcome = TaskOutcome::Completed(TaskCompletedResult { snippets_count: None, url_id: 7 });
    assert_eq!(pool.finish_task(&id, outcome), Ok(TaskStatus::Cancelled));
    let events = pool.drain_events();
    assert_eq!(events.len(), 1);
    assert!(matches!(&events[0], AppEvent::TaskCancelled(e) if e.task_id == id));
    assert_eq!(events[0].channel(), "task:cancelled");
}

#[test]
fn finishing_a_task_that_does_not_run_changes_nothing() {
    let mut pool = WorkerPool::new();
    let id = pool.queue_task(pool_task(1, "crawl_url")).unwrap();
    pool.drain_events();
    let outcome = TaskOutcome::Failed("x".to_string());
    assert_eq!(pool.finish_task(&id, outcome), Err(PoolError::TaskNotFound));
    assert!(pool.drain_events().is_empty());
    assert_eq!(pool.get_queued_tasks().len(), 1);
}

#[test]
fn cancel_all_touches_one_kind_only() {
    let mut pool = WorkerPool::new();
    let crawl_running = pool.queue_task(pool_task(1, "crawl_url")).unwrap();
    let _ = run_next(&mut pool);
    let crawl_queued = pool.queue_task(pool_task(2, "crawl_url")).unwrap();
    let clean_queued = pool.queue_task(pool_task(3, "clean_markdown")).unwrap();
    assert_eq!(pool.cancel_all(TaskKind::CrawlUrl), (1, 1));
    assert!(pool.is_cancelled(&crawl_running));
    assert!(pool.is_cancelled(&crawl_queued));
    assert!(!pool.is_cancelled(&clean_queued));
    assert_eq!(pool.cancel_all(TaskKind::GenerateSnippets), (0, 0));
}

#[test]
fn reported_progress_stays_within_bounds() {
    let mut pool = WorkerPool::new();
    let id = pool.queue_task(pool_task(1, "crawl_url")).unwrap();
    let _ = run_next(&mut pool);
    pool.drain_events();
    pool.report_progress(&id, 40, "fetching_content");
    pool.report_progress(&id, 250, "over");
    pool.report_progress(&id, -5, "under");
    let progress: Vec<i32> = pool
        .drain_events()
        .iter()
        .map(|e| match e {
            AppEvent::TaskUpdated(u) => u.progress,
            other => panic!("unexpected event {:?}", other),
        })
        .collect();
    assert_eq!(progress, vec![40, 100, 0]);
    assert_eq!(pool.get_active_tasks()[0].progress, 0);
}

#[test]
fn task_kinds_are_read_from_their_names() {
    assert_eq!(TaskKind::parse("crawl_url"), TaskKind::CrawlUrl);
    assert_eq!(TaskKind::parse("clean_markdown"), TaskKind::CleanMarkdown);
    assert_eq!(TaskKind::parse("generate_snippets"), TaskKind::GenerateSnippets);
    assert_eq!(TaskKind::parse("apply_url_filters"), TaskKind::Other);
    assert_eq!(TaskKind::parse(""), TaskKind::Other);
    for kind in [TaskKind::CrawlUrl, TaskKind::CleanMarkdown, TaskKind::GenerateSnippets, TaskKind::Other] {
        assert_eq!(TaskKind::parse(kind.as_str()), kind);
    }
}

#[test]
fn new_task_has_a_uuid_and_a_time() {
    let a = Task::new("crawl_url", Some(1), None, TaskPayload::for_page("https://a.example/", 7));
    let b = Task::new("crawl_url", Some(1), None, TaskPayload::for_page("https://a.example/", 7));
    assert_eq!(a.id.len(), 36);
    assert_eq!(a.id.matches('-').count(), 4);
    assert_ne!(a.id, b.id);
    assert_eq!(a.status, TaskStatus::Queued);
    assert_eq!(a.progress, 0);
    assert_eq!(a.task_type, "crawl_url");
    assert_eq!(a.technology_id, Some(1));
    assert_eq!(a.version_id, None);
    assert!(a.created_at > 1_600_000_000_000);
    assert_eq!(a.kind(), TaskKind::CrawlUrl);
}

#[test]
fn task_id_is_the_text_of_its_number() {
    let task = pool_task(0x0123456789abcdef0123456789abcdef, "crawl_url");
    assert_eq!(task.id, "01234567-89ab-cdef-0123-456789abcdef");
    assert_eq!(task.created_at, 50);
}

#[test]
fn status_of_a_task_follows_its_life() {
    let mut pool = WorkerPool::new();
    let id = pool.queue_task(pool_task(1, "crawl_url")).unwrap();
    assert_eq!(pool.get_task_status(&id), Some(TaskStatus::Queued));
    let _ = run_next(&mut pool);
    assert_eq!(pool.get_task_status(&id), Some(TaskStatus::Running));
    pool.cancel_task(&id).unwrap();
    assert_eq!(pool.get_task_status(&id), Some(TaskStatus::Cancelled));
    pool.finish_task(&id, TaskOutcome::Failed("x".to_string())).unwrap();
    assert_eq!(pool.get_task_status(&id), None);
}
