//! What a worker does with a task: the dispatch by kind, and the steps of
//! the tasks that refine a page's text and that make snippets of it.
//!
//! Refining and snippet making are done by a service outside. The engine
//! prepares the request and takes in the answer; between the two it waits
//! for nothing.

use vstd::prelude::*;
use crate::crawler::{crawl_result, outcome_of, CrawlFailure, CrawlJob, CrawlStep, CrawlerService, EngineView, FailureView, StepView, job_of};
use crate::events::EventView;
use crate::ids::uuid_text;
use crate::models::DocumentationUrlView;
use crate::pool::{Dispatch, PoolView};
use crate::retry::{after_failure, decide, Backoff, RetryDecision};
use crate::status::{at_rest, status_text, UrlStatus};
use crate::store::{after_change, change_outcome, lookup_id, FieldChange, FieldChangeView};
use crate::task::{kind_of, Task, TaskKind, TaskStatus, TaskView};
use crate::text::{concat2, decimal, number_text};

verus! {

/// What a page offers to be refined or made into snippets.
#[derive(Debug, Clone)]
pub enum PageSource {
    /// The page's Markdown.
    Markdown(String),
    /// The page's HTML, of which Markdown is yet to be made.
    Html(String),
}

/// The mathematical value of a [`PageSource`].
pub enum SourceView {
    Markdown(Seq<char>),
    Html(Seq<char>),
}

impl View for PageSource {
    type V = SourceView;

    open spec fn view(&self) -> SourceView {
        match *self {
            PageSource::Markdown(m) => SourceView::Markdown(m@),
            PageSource::Html(h) => SourceView::Html(h@),
        }
    }
}

/// What a page offers to be refined or made into snippets: its Markdown,
/// or else its HTML; an empty text where it holds neither.
pub open spec fn source_text(page: DocumentationUrlView) -> SourceView {
    match page.markdown {
        Some(m) => SourceView::Markdown(m),
        None => match page.html {
            Some(h) => SourceView::Html(h),
            None => SourceView::Markdown(Seq::empty()),
        },
    }
}

/// The change that stores a refined text, with the status
/// `MarkdownReady`.
pub open spec fn refined_change(clean: Seq<char>) -> FieldChangeView {
    FieldChangeView {
        status: Some(UrlStatus::MarkdownReady),
        html: None,
        markdown: None,
        cleaned_markdown: Some(Some(clean)),
        is_processed: None,
    }
}

/// The stage name that reports a retry.
pub open spec fn retry_stage(attempts: u32) -> Seq<char> {
    "rate_limited_retry_"@ + decimal(attempts as nat)
}

/// The progress to report when `processed` of `total` snippets are
/// stored: from 80 upwards, by the share that is stored.
pub open spec fn storing_progress(processed: usize, total: usize) -> int {
    if total == 0 {
        100
    } else {
        80 + (processed * 20) / (total as int)
    }
}

/// What follows a failed attempt of a task: a cancelled task is never
/// retried.
pub open spec fn retry_decision(
    v: EngineView,
    task_id: Seq<char>,
    backoff: Backoff,
    message: Seq<char>,
) -> RetryDecision {
    if v.pool.cancelled(task_id) {
        RetryDecision::GiveUp
    } else {
        decide(backoff, message)
    }
}

impl EngineView {
    /// The state after a page was brought into the working state of a
    /// stage: from a resting state by way of the stage's entry, from the
    /// entry or from a state that the stage takes over from directly;
    /// left alone where it is in the working state already.
    pub open spec fn enter(self, id: u128, from: UrlStatus, entry: UrlStatus, working: UrlStatus, now: int)
        -> EngineView {
        let reentered = if at_rest(from) {
            self.move_to(id, entry, now)
        } else {
            self
        };
        if from != working {
            reentered.move_to(id, working, now)
        } else {
            reentered
        }
    }

    /// The state after a worker began to refine a page's text, and the
    /// text to refine; no text where the page is past this stage.
    ///
    /// A task that was cancelled does nothing. The task fails where the
    /// page is unknown, holds no content or has not been crawled.
    /// Otherwise the page becomes `ConvertingMarkdown`.
    pub open spec fn begin_clean(self, task_id: Seq<char>, url_id: u128, now: int) -> (
        EngineView,
        Result<Option<SourceView>, FailureView>,
    ) {
        if self.pool.cancelled(task_id) {
            (self, Err(FailureView::Cancelled))
        } else {
            self.begin_clean_live(task_id, url_id, now)
        }
    }

    /// The state after a worker began to refine a page's text, for a task
    /// that is not cancelled.
    pub open spec fn begin_clean_live(self, task_id: Seq<char>, url_id: u128, now: int) -> (
        EngineView,
        Result<Option<SourceView>, FailureView>,
    ) {
        let loading = self.report(task_id, 20, "loading_markdown"@);
        match lookup_id(loading.pages, url_id) {
            None => (loading, Err(FailureView::UrlNotFound(url_id))),
            Some(page) => if !page.has_content() {
                (loading, Err(FailureView::NoContentToClean))
            } else if page.status == UrlStatus::PendingCrawl || page.status
                == UrlStatus::Crawling {
                (loading, Err(FailureView::NotReady))
            } else if at_rest(page.status) || page.status == UrlStatus::Crawled || page.status
                == UrlStatus::PendingMarkdown || page.status == UrlStatus::ConvertingMarkdown {
                (
                    loading.enter(
                        url_id,
                        page.status,
                        UrlStatus::PendingMarkdown,
                        UrlStatus::ConvertingMarkdown,
                        now,
                    ).report(task_id, 40, "cleaning_markdown"@),
                    Ok(Some(source_text(page))),
                )
            } else {
                (loading, Ok(None))
            },
        }
    }

    /// The state after the refined text of a page was handed in, and the
    /// result of the task: the text is stored and the page becomes
    /// `MarkdownReady`, unless the store refuses.
    pub open spec fn clean_succeeded(self, task_id: Seq<char>, url_id: u128, clean: Seq<char>, now: int)
        -> (EngineView, Result<(), FailureView>) {
        let saving = self.report(task_id, 80, "saving_cleaned_markdown"@);
        match change_outcome(saving.pages, url_id, refined_change(clean), now) {
            Err(e) => (saving, Err(FailureView::Store(e))),
            Ok(_) => {
                let stored = EngineView {
                    pages: after_change(saving.pages, url_id, refined_change(clean), now),
                    ..saving
                };
                (
                    if lookup_id(saving.pages, url_id).unwrap().status
                        != UrlStatus::MarkdownReady {
                        stored.emit(
                            EventView::UrlStatusUpdated {
                                url_id: uuid_text(url_id),
                                status: status_text(UrlStatus::MarkdownReady),
                            },
                        )
                    } else {
                        stored
                    },
                    Ok(()),
                )
            },
        }
    }

    /// The state after refining a page's text failed, and what follows: a
    /// pause in milliseconds before the next attempt, or the failure of
    /// the task.
    ///
    /// A failure on a rate limit is retried while attempts are left and
    /// the task is not cancelled; the retry is reported. Any other
    /// failure stands: the page then becomes `MarkdownError`, unless it
    /// holds a refined text from before.
    pub open spec fn clean_failed(
        self,
        task_id: Seq<char>,
        url_id: u128,
        backoff: Backoff,
        message: Seq<char>,
        now: int,
    ) -> (EngineView, Result<u64, FailureView>) {
        match retry_decision(self, task_id, backoff, message) {
            RetryDecision::RetryAfter(delay) => (
                self.report(task_id, 40, retry_stage(backoff.attempts)),
                Ok(delay),
            ),
            RetryDecision::GiveUp => (
                match lookup_id(self.pages, url_id) {
                    Some(page) => if page.cleaned_markdown is None {
                        self.move_to(url_id, UrlStatus::MarkdownError, now)
                    } else {
                        self
                    },
                    None => self,
                },
                Err(FailureView::CleanFailed(message)),
            ),
        }
    }

    /// The state after a worker began to make snippets of a page, and the
    /// text to make them of; no text where the page is past this stage.
    ///
    /// A task that was cancelled does nothing. The task fails where the
    /// page is unknown, holds no content or has not come far enough.
    /// Otherwise the page becomes `Processing`.
    pub open spec fn begin_snippets(self, task_id: Seq<char>, url_id: u128, now: int) -> (
        EngineView,
        Result<Option<SourceView>, FailureView>,
    ) {
        if self.pool.cancelled(task_id) {
            (self, Err(FailureView::Cancelled))
        } else {
            self.begin_snippets_live(task_id, url_id, now)
        }
    }

    /// The state after a worker began to make snippets of a page, for a
    /// task that is not cancelled.
    pub open spec fn begin_snippets_live(self, task_id: Seq<char>, url_id: u128, now: int) -> (
        EngineView,
        Result<Option<SourceView>, FailureView>,
    ) {
        let loading = self.report(task_id, 20, "loading_markdown"@);
        match lookup_id(loading.pages, url_id) {
            None => (loading, Err(FailureView::UrlNotFound(url_id))),
            Some(page) => {
                let retrieving = loading.report(task_id, 40, "processing_documentation"@).report(
                    task_id,
                    60,
                    "retrieving_url_content"@,
                );
                if !page.has_content() {
                    (retrieving, Err(FailureView::NoContentToProcess))
                } else if at_rest(page.status) || page.status == UrlStatus::Crawled || page.status
                    == UrlStatus::MarkdownReady || page.status == UrlStatus::PendingProcessing
                    || page.status == UrlStatus::Processing {
                    (
                        retrieving.enter(
                            url_id,
                            page.status,
                            UrlStatus::PendingProcessing,
                            UrlStatus::Processing,
                            now,
                        ).report(task_id, 65, "generating_snippets"@),
                        Ok(Some(source_text(page))),
                    )
                } else {
                    (retrieving, Err(FailureView::NotReady))
                }
            },
        }
    }

    /// The state after one more snippet was stored: the progress is
    /// reported while it is below 100.
    pub open spec fn snippet_stored(self, task_id: Seq<char>, processed: usize, total: usize)
        -> EngineView {
        if storing_progress(processed, total) < 100 {
            self.report(task_id, storing_progress(processed, total) as i32, "storing_snippets"@)
        } else {
            self
        }
    }

    /// The state after the snippets of a page were stored: the page
    /// becomes `Processed`, and the end is reported.
    pub open spec fn snippets_done(self, task_id: Seq<char>, url_id: u128, now: int) -> EngineView {
        self.move_to(url_id, UrlStatus::Processed, now).report(
            task_id,
            100,
            "snippets_generated"@,
        )
    }
}

/// What a worker is to do next.
#[derive(Debug)]
pub enum WorkerAction {
    /// There is no task to take.
    Idle,
    /// The next task had been cancelled: it is gone.
    Dropped,
    /// The task is over and closed, with this status; `None` where the
    /// scheduler did not know the task as running.
    Finished(Option<TaskStatus>),
    /// The page is to be fetched, and the outcome handed to
    /// [`CrawlerService::complete_crawl`].
    Fetch { job: CrawlJob, url: String, url_id: u128 },
    /// The text is to be refined, as Markdown, and the answer handed to
    /// [`CrawlerService::clean_succeeded`] or
    /// [`CrawlerService::clean_failed`].
    Refine { task_id: String, url_id: u128, text: PageSource },
    /// Snippets are to be made of the text, as Markdown, and stored; the
    /// end is to be handed to [`CrawlerService::snippets_done`] or
    /// [`CrawlerService::snippets_failed`].
    Extract { task_id: String, url_id: u128, markdown: PageSource },
}

/// The mathematical value of a [`WorkerAction`].
pub enum ActionView {
    Idle,
    Dropped,
    Finished(Option<TaskStatus>),
    Fetch { job: crate::crawler::JobView, url: Seq<char>, url_id: u128 },
    Refine { task_id: Seq<char>, url_id: u128, text: SourceView },
    Extract { task_id: Seq<char>, url_id: u128, markdown: SourceView },
}

impl View for WorkerAction {
    type V = ActionView;

    open spec fn view(&self) -> ActionView {
        match *self {
            WorkerAction::Idle => ActionView::Idle,
            WorkerAction::Dropped => ActionView::Dropped,
            WorkerAction::Finished(s) => ActionView::Finished(s),
            WorkerAction::Fetch { job, url, url_id } => ActionView::Fetch {
                job: job@,
                url: url@,
                url_id,
            },
            WorkerAction::Refine { task_id, url_id, text } => ActionView::Refine {
                task_id: task_id@,
                url_id,
                text: text@,
            },
            WorkerAction::Extract { task_id, url_id, markdown } => ActionView::Extract {
                task_id: task_id@,
                url_id,
                markdown: markdown@,
            },
        }
    }
}

impl EngineView {
    /// The state after a task was closed with the result of its work, and
    /// the action that says so.
    pub open spec fn close(self, task: TaskView, result: Result<(), FailureView>) -> (
        EngineView,
        ActionView,
    ) {
        (
            EngineView {
                pool: self.pool.finish(task.id, outcome_of(task.payload.url_id, None, result)),
                ..self
            },
            ActionView::Finished(
                match crate::pool::slot_index(self.pool.active, task.id) {
                    Some(i) => Some(
                        PoolView::closing_status(
                            self.pool.active[i],
                            outcome_of(task.payload.url_id, None, result),
                        ),
                    ),
                    None => None,
                },
            ),
        )
    }

    /// The state after a worker took up a task, and what the worker is to
    /// do: by the kind of the task, a crawl, the refining of a text or the
    /// making of snippets is begun. A task of another kind, and a crawl
    /// task that names no technology or version, is closed as completed
    /// at once. So is any task whose first step leaves nothing to do, and
    /// a task whose first step fails is closed as failed.
    pub open spec fn dispatch(self, task: TaskView, fresh_id: u128, now: int) -> (
        EngineView,
        ActionView,
    ) {
        match kind_of(task.task_type) {
            TaskKind::CrawlUrl => match job_of(task) {
                None => self.close(task, Ok(())),
                Some(job) => {
                    let begun = self.begin(job, fresh_id, now);
                    match begun.1 {
                        StepView::Fetch { url, url_id } => (
                            begun.0,
                            ActionView::Fetch { job, url, url_id },
                        ),
                        StepView::Finished(result) => begun.0.close(task, result),
                    }
                },
            },
            TaskKind::CleanMarkdown => {
                let begun = self.begin_clean(task.id, task.payload.url_id, now);
                match begun.1 {
                    Ok(Some(text)) => (
                        begun.0,
                        ActionView::Refine { task_id: task.id, url_id: task.payload.url_id, text },
                    ),
                    Ok(None) => begun.0.close(task, Ok(())),
                    Err(e) => begun.0.close(task, Err(e)),
                }
            },
            TaskKind::GenerateSnippets => {
                let begun = self.begin_snippets(task.id, task.payload.url_id, now);
                match begun.1 {
                    Ok(Some(markdown)) => (
                        begun.0,
                        ActionView::Extract {
                            task_id: task.id,
                            url_id: task.payload.url_id,
                            markdown,
                        },
                    ),
                    Ok(None) => begun.0.close(task, Ok(())),
                    Err(e) => begun.0.close(task, Err(e)),
                }
            },
            TaskKind::Other => self.close(task, Ok(())),
        }
    }

    /// The state after a worker asked for work, and what it is told: with
    /// an empty queue nothing, for a task that was cancelled while it
    /// waited that it is gone, and for any other what its dispatch says.
    pub open spec fn next_action(self, fresh_id: u128, now: int) -> (EngineView, ActionView) {
        if self.pool.queue.len() == 0 {
            (self, ActionView::Idle)
        } else if self.pool.queue[0].cancelled {
            (EngineView { pool: self.pool.take_next(), ..self }, ActionView::Dropped)
        } else {
            (EngineView { pool: self.pool.take_next(), ..self }).dispatch(
                TaskView { status: TaskStatus::Running, ..self.pool.queue[0].task },
                fresh_id,
                now,
            )
        }
    }
}

/// What the pages have shown. Each function gives the statuses that the
/// page of the id `k` has shown after a step of a worker, where `path` is
/// what it had shown before the step.
impl EngineView {
    /// After a page was brought into the working state of a stage: the
    /// stage's entry where the page rested, and the working state where
    /// the page was not in it, each where the status machine allows it.
    pub open spec fn enter_path(
        self,
        id: u128,
        from: UrlStatus,
        entry: UrlStatus,
        working: UrlStatus,
        now: int,
        k: u128,
        path: Seq<UrlStatus>,
    ) -> Seq<UrlStatus> {
        let reentered = if at_rest(from) {
            self.move_to(id, entry, now)
        } else {
            self
        };
        let entered = if at_rest(from) {
            self.moved_path(id, entry, now, k, path)
        } else {
            path
        };
        if from != working {
            reentered.moved_path(id, working, now, k, entered)
        } else {
            entered
        }
    }

    /// After a worker began to refine a page's text: the page has entered
    /// `ConvertingMarkdown` where the text is handed out, and has shown
    /// nothing more otherwise.
    pub open spec fn begin_clean_path(
        self,
        task_id: Seq<char>,
        url_id: u128,
        now: int,
        k: u128,
        path: Seq<UrlStatus>,
    ) -> Seq<UrlStatus> {
        match lookup_id(self.pages, url_id) {
            Some(page) => if self.begin_clean(task_id, url_id, now).1 matches Ok(Some(_)) {
                self.report(task_id, 20, "loading_markdown"@).enter_path(
                    url_id,
                    page.status,
                    UrlStatus::PendingMarkdown,
                    UrlStatus::ConvertingMarkdown,
                    now,
                    k,
                    path,
                )
            } else {
                path
            },
            None => path,
        }
    }

    /// After the refined text of a page was handed in: `MarkdownReady`
    /// where the store takes the text.
    pub open spec fn clean_succeeded_path(
        self,
        url_id: u128,
        clean: Seq<char>,
        now: int,
        k: u128,
        path: Seq<UrlStatus>,
    ) -> Seq<UrlStatus> {
        if k == url_id && change_outcome(self.pages, url_id, refined_change(clean), now) is Ok {
            crate::store::extended(
                path,
                lookup_id(self.pages, url_id).unwrap().status,
                UrlStatus::MarkdownReady,
            )
        } else {
            path
        }
    }

    /// After refining a page's text failed: `MarkdownError` where the
    /// failure stands and the page holds no refined text from before.
    pub open spec fn clean_failed_path(
        self,
        task_id: Seq<char>,
        url_id: u128,
        backoff: Backoff,
        message: Seq<char>,
        now: int,
        k: u128,
        path: Seq<UrlStatus>,
    ) -> Seq<UrlStatus> {
        match retry_decision(self, task_id, backoff, message) {
            RetryDecision::RetryAfter(_) => path,
            RetryDecision::GiveUp => match lookup_id(self.pages, url_id) {
                Some(page) => if page.cleaned_markdown is None {
                    self.moved_path(url_id, UrlStatus::MarkdownError, now, k, path)
                } else {
                    path
                },
                None => path,
            },
        }
    }

    /// After a worker began to make snippets of a page: the page has
    /// entered `Processing` where the text is handed out, and has shown
    /// nothing more otherwise.
    pub open spec fn begin_snippets_path(
        self,
        task_id: Seq<char>,
        url_id: u128,
        now: int,
        k: u128,
        path: Seq<UrlStatus>,
    ) -> Seq<UrlStatus> {
        match lookup_id(self.pages, url_id) {
            Some(page) => if self.begin_snippets(task_id, url_id, now).1 matches Ok(Some(_)) {
                self.report(task_id, 20, "loading_markdown"@).report(
                    task_id,
                    40,
                    "processing_documentation"@,
                ).report(task_id, 60, "retrieving_url_content"@).enter_path(
                    url_id,
                    page.status,
                    UrlStatus::PendingProcessing,
                    UrlStatus::Processing,
                    now,
                    k,
                    path,
                )
            } else {
                path
            },
            None => path,
        }
    }

    /// After a worker took up a task: what the first step of the task's
    /// kind adds.
    pub open spec fn dispatch_path(
        self,
        task: TaskView,
        fresh_id: u128,
        now: int,
        k: u128,
        path: Seq<UrlStatus>,
    ) -> Seq<UrlStatus> {
        match kind_of(task.task_type) {
            TaskKind::CrawlUrl => match job_of(task) {
                None => path,
                Some(job) => self.begin_path(job, fresh_id, now, k, path),
            },
            TaskKind::CleanMarkdown => self.begin_clean_path(
                task.id,
                task.payload.url_id,
                now,
                k,
                path,
            ),
            TaskKind::GenerateSnippets => self.begin_snippets_path(
                task.id,
                task.payload.url_id,
                now,
                k,
                path,
            ),
            TaskKind::Other => path,
        }
    }

    /// After a worker was given its next piece of work.
    pub open spec fn next_action_path(self, fresh_id: u128, now: int, k: u128, path: Seq<UrlStatus>)
        -> Seq<UrlStatus> {
        if self.pool.queue.len() == 0 || self.pool.queue[0].cancelled {
            path
        } else {
            (EngineView { pool: self.pool.take_next(), ..self }).dispatch_path(
                TaskView { status: TaskStatus::Running, ..self.pool.queue[0].task },
                fresh_id,
                now,
                k,
                path,
            )
        }
    }
}

impl CrawlerService {
    fn enter(&mut self, id: u128, from: UrlStatus, entry: UrlStatus, working: UrlStatus, now: i64)
        requires
            old(self).wf(),
        ensures
            final(self).wf(),
            final(self)@ == old(self)@.enter(id, from, entry, working, now as int),
            forall|k: u128|
                final(self).observed(k) == old(self)@.enter_path(
                    id, from, entry, working, now as int,
                    k,
                    old(self).observed(k),
                ),
    {
        if from.is_resting() {
            let _ = self.move_to(id, entry, now);
        }
        if from != working {
            let _ = self.move_to(id, working, now);
        }
    }

    /// Begins a task that refines a page's text. Returns what the page
    /// offers to be refined, its Markdown or else its HTML; none where
    /// the page is past this stage and nothing is to be done.
    pub fn begin_clean(&mut self, task_id: &str, url_id: u128, now: i64) -> (r: Result<
        Option<PageSource>,
        CrawlFailure,
    >)
        requires
            old(self).wf(),
        ensures
            final(self).wf(),
            final(self)@ == old(self)@.begin_clean(task_id@, url_id, now as int).0,
            match r {
                Ok(Some(text)) => old(self)@.begin_clean(task_id@, url_id, now as int).1 == Ok::<
                    Option<SourceView>,
                    FailureView,
                >(Some(text@)),
                Ok(None) => old(self)@.begin_clean(task_id@, url_id, now as int).1 == Ok::<
                    Option<SourceView>,
                    FailureView,
                >(None),
                Err(e) => old(self)@.begin_clean(task_id@, url_id, now as int).1 == Err::<
                    Option<SourceView>,
                    FailureView,
                >(e@),
            },
            forall|k: u128|
                final(self).observed(k) == old(self)@.begin_clean_path(
                    task_id@, url_id, now as int,
                    k,
                    old(self).observed(k),
                ),
    {
        if self.worker_pool().is_cancelled(task_id) {
            return Err(CrawlFailure::Cancelled);
        }
        self.report(task_id, 20, "loading_markdown");
        let page = match self.url_service().get_url_by_id(url_id) {
            Some(page) => page,
            None => {
                return Err(CrawlFailure::UrlNotFound(url_id));
            },
        };
        if !page.has_content() {
            return Err(CrawlFailure::NoContentToClean);
        }
        let status = page.status;
        if status == UrlStatus::PendingCrawl || status == UrlStatus::Crawling {
            return Err(CrawlFailure::NotReady);
        }
        if status.is_resting() || status == UrlStatus::Crawled || status
            == UrlStatus::PendingMarkdown || status == UrlStatus::ConvertingMarkdown {
            let text = page_source(&page);
            self.enter(
                url_id,
                status,
                UrlStatus::PendingMarkdown,
                UrlStatus::ConvertingMarkdown,
                now,
            );
            self.report(task_id, 40, "cleaning_markdown");
            Ok(Some(text))
        } else {
            Ok(None)
        }
    }

    /// Takes in the refined text of a page: it is stored, and the page
    /// becomes `MarkdownReady`.
    pub fn clean_succeeded(&mut self, task_id: &str, url_id: u128, clean: &str, now: i64) -> (r:
        Result<(), CrawlFailure>)
        requires
            old(self).wf(),
        ensures
            final(self).wf(),
            (final(self)@, crawl_result(r)) == old(self)@.clean_succeeded(
                task_id@,
                url_id,
                clean@,
                now as int,
            ),
            forall|k: u128|
                final(self).observed(k) == old(self)@.clean_succeeded_path(
                    url_id, clean@, now as int,
                    k,
                    old(self).observed(k),
                ),
    {
        self.report(task_id, 80, "saving_cleaned_markdown");
        let before = match self.url_service().get_url_by_id(url_id) {
            Some(page) => Some(page.status),
            None => None,
        };
        let change = FieldChange {
            status: Some(UrlStatus::MarkdownReady),
            html: None,
            markdown: None,
            cleaned_markdown: Some(Some(clean.to_owned())),
            is_processed: None,
        };
        match self.change_page(url_id, &change, now) {
            Err(e) => Err(CrawlFailure::Store(e)),
            Ok(_) => {
                match before {
                    Some(status) => {
                        if status != UrlStatus::MarkdownReady {
                            self.emit(
                                crate::events::AppEvent::UrlStatusUpdated(
                                    crate::events::UrlStatusUpdatedEvent {
                                        url_id: crate::ids::id_text(url_id),
                                        status: UrlStatus::MarkdownReady.to_text(),
                                    },
                                ),
                            );
                        }
                    },
                    None => {},
                }
                Ok(())
            },
        }
    }

    /// Takes in the failure of an attempt to refine a page's text.
    /// Returns the pause, in milliseconds, after which to try again, or
    /// the failure with which the task ends.
    pub fn clean_failed(
        &mut self,
        task_id: &str,
        url_id: u128,
        backoff: &mut Backoff,
        message: &str,
        now: i64,
    ) -> (r: Result<u64, CrawlFailure>)
        requires
            old(self).wf(),
        ensures
            final(self).wf(),
            final(self)@ == old(self)@.clean_failed(
                task_id@,
                url_id,
                *old(backoff),
                message@,
                now as int,
            ).0,
            match r {
                Ok(delay) => old(self)@.clean_failed(
                    task_id@,
                    url_id,
                    *old(backoff),
                    message@,
                    now as int,
                ).1 == Ok::<u64, FailureView>(delay),
                Err(e) => old(self)@.clean_failed(
                    task_id@,
                    url_id,
                    *old(backoff),
                    message@,
                    now as int,
                ).1 == Err::<u64, FailureView>(e@),
            },
            *final(backoff) == if old(self)@.pool.cancelled(task_id@) {
                *old(backoff)
            } else {
                after_failure(*old(backoff), message@)
            },
            forall|k: u128|
                final(self).observed(k) == old(self)@.clean_failed_path(
                    task_id@, url_id, *old(backoff), message@, now as int,
                    k,
                    old(self).observed(k),
                ),
    {
        let attempts = backoff.attempts;
        let decision = if self.worker_pool().is_cancelled(task_id) {
            RetryDecision::GiveUp
        } else {
            backoff.on_failure(message)
        };
        match decision {
            RetryDecision::RetryAfter(delay) => {
                let stage = concat2("rate_limited_retry_", number_text(attempts as u128).as_str());
                self.report(task_id, 40, stage.as_str());
                Ok(delay)
            },
            RetryDecision::GiveUp => {
                match self.url_service().get_url_by_id(url_id) {
                    Some(page) => {
                        if page.cleaned_markdown.is_none() {
                            let _ = self.move_to(url_id, UrlStatus::MarkdownError, now);
                        }
                    },
                    None => {},
                }
                Err(CrawlFailure::CleanFailed(message.to_owned()))
            },
        }
    }

    /// Begins a task that makes snippets of a page. Returns what the page
    /// offers to make them of, its Markdown or else its HTML.
    pub fn begin_snippets(&mut self, task_id: &str, url_id: u128, now: i64) -> (r: Result<
        Option<PageSource>,
        CrawlFailure,
    >)
        requires
            old(self).wf(),
        ensures
            final(self).wf(),
            final(self)@ == old(self)@.begin_snippets(task_id@, url_id, now as int).0,
            match r {
                Ok(Some(text)) => old(self)@.begin_snippets(task_id@, url_id, now as int).1
                    == Ok::<Option<SourceView>, FailureView>(Some(text@)),
                Ok(None) => old(self)@.begin_snippets(task_id@, url_id, now as int).1 == Ok::<
                    Option<SourceView>,
                    FailureView,
                >(None),
                Err(e) => old(self)@.begin_snippets(task_id@, url_id, now as int).1 == Err::<
                    Option<SourceView>,
                    FailureView,
                >(e@),
            },
            forall|k: u128|
                final(self).observed(k) == old(self)@.begin_snippets_path(
                    task_id@, url_id, now as int,
                    k,
                    old(self).observed(k),
                ),
    {
        if self.worker_pool().is_cancelled(task_id) {
            return Err(CrawlFailure::Cancelled);
        }
        self.report(task_id, 20, "loading_markdown");
        let page = match self.url_service().get_url_by_id(url_id) {
            Some(page) => page,
            None => {
                return Err(CrawlFailure::UrlNotFound(url_id));
            },
        };
        self.report(task_id, 40, "processing_documentation");
        self.report(task_id, 60, "retrieving_url_content");
        if !page.has_content() {
            return Err(CrawlFailure::NoContentToProcess);
        }
        let status = page.status;
        if status.is_resting() || status == UrlStatus::Crawled || status
            == UrlStatus::MarkdownReady || status == UrlStatus::PendingProcessing || status
            == UrlStatus::Processing {
            let text = page_source(&page);
            self.enter(url_id, status, UrlStatus::PendingProcessing, UrlStatus::Processing, now);
            self.report(task_id, 65, "generating_snippets");
            Ok(Some(text))
        } else {
            Err(CrawlFailure::NotReady)
        }
    }

    /// Takes in the failure to make snippets of a page: the page becomes
    /// `ProcessingError`. Returns the failure with which the task ends.
    pub fn snippets_failed(&mut self, url_id: u128, message: &str, now: i64) -> (r: CrawlFailure)
        requires
            old(self).wf(),
        ensures
            final(self).wf(),
            final(self)@ == old(self)@.move_to(url_id, UrlStatus::ProcessingError, now as int),
            r@ == FailureView::SnippetsFailed(message@),
            forall|k: u128|
                final(self).observed(k) == old(self)@.moved_path(
                    url_id, UrlStatus::ProcessingError, now as int,
                    k,
                    old(self).observed(k),
                ),
    {
        let _ = self.move_to(url_id, UrlStatus::ProcessingError, now);
        CrawlFailure::SnippetsFailed(message.to_owned())
    }

    /// Reports that `processed` of the `total` snippets of a page are
    /// stored.
    pub fn snippet_stored(&mut self, task_id: &str, processed: usize, total: usize)
        requires
            old(self).wf(),
        ensures
            final(self).wf(),
            final(self)@ == old(self)@.snippet_stored(task_id@, processed, total),
            forall|k: u128| final(self).observed(k) == old(self).observed(k),
    {
        if total == 0 {
            return;
        }
        let share: u128 = (processed as u128 * 20) / (total as u128);
        if share < 20 {
            let percent: i32 = 80 + share as i32;
            self.report(task_id, percent, "storing_snippets");
        }
    }

    /// Takes in the end of the storing of a page's snippets: the page
    /// becomes `Processed`.
    pub fn snippets_done(&mut self, task_id: &str, url_id: u128, now: i64)
        requires
            old(self).wf(),
        ensures
            final(self).wf(),
            final(self)@ == old(self)@.snippets_done(task_id@, url_id, now as int),
            forall|k: u128|
                final(self).observed(k) == old(self)@.moved_path(
                    url_id, UrlStatus::Processed, now as int,
                    k,
                    old(self).observed(k),
                ),
    {
        let _ = self.move_to(url_id, UrlStatus::Processed, now);
        self.report(task_id, 100, "snippets_generated");
    }

    fn close(&mut self, task: &Task, result: &Result<(), CrawlFailure>) -> (r: WorkerAction)
        requires
            old(self).wf(),
        ensures
            final(self).wf(),
            (final(self)@, r@) == old(self)@.close(task@, crawl_result(*result)),
            forall|k: u128| final(self).observed(k) == old(self).observed(k),
    {
        match self.close_task(task.id.as_str(), task.payload.url_id, None, result) {
            Ok(status) => WorkerAction::Finished(Some(status)),
            Err(_) => WorkerAction::Finished(None),
        }
    }

    /// Takes up a task for a worker, with the id to use should a page be
    /// new, and the present time: the first step of the work is done, by
    /// the kind of the task, and the result says what the worker is to do
    /// next.
    pub fn dispatch(&mut self, task: &Task, fresh_id: u128, now: i64) -> (r: WorkerAction)
        requires
            old(self).wf(),
        ensures
            final(self).wf(),
            (final(self)@, r@) == old(self)@.dispatch(task@, fresh_id, now as int),
            forall|k: u128|
                final(self).observed(k) == old(self)@.dispatch_path(
                    task@, fresh_id, now as int,
                    k,
                    old(self).observed(k),
                ),
    {
        match task.kind() {
            TaskKind::CrawlUrl => {
                match CrawlJob::of_task(task) {
                    None => self.close(task, &Ok(())),
                    Some(job) => {
                        match self.begin_crawl(&job, fresh_id, now) {
                            CrawlStep::Fetch { url, url_id } => WorkerAction::Fetch {
                                job,
                                url,
                                url_id,
                            },
                            CrawlStep::Finished(result) => self.close(task, &result),
                        }
                    },
                }
            },
            TaskKind::CleanMarkdown => {
                match self.begin_clean(task.id.as_str(), task.payload.url_id, now) {
                    Ok(Some(text)) => WorkerAction::Refine {
                        task_id: task.id.clone(),
                        url_id: task.payload.url_id,
                        text,
                    },
                    Ok(None) => self.close(task, &Ok(())),
                    Err(e) => self.close(task, &Err(e)),
                }
            },
            TaskKind::GenerateSnippets => {
                match self.begin_snippets(task.id.as_str(), task.payload.url_id, now) {
                    Ok(Some(markdown)) => WorkerAction::Extract {
                        task_id: task.id.clone(),
                        url_id: task.payload.url_id,
                        markdown,
                    },
                    Ok(None) => self.close(task, &Ok(())),
                    Err(e) => self.close(task, &Err(e)),
                }
            },
            TaskKind::Other => self.close(task, &Ok(())),
        }
    }

    /// Gives a worker its next piece of work, with the id to use should a
    /// page be new, and the present time: the next task is taken from the
    /// queue and dispatched. A task that was cancelled while it waited is
    /// dropped without a trace.
    pub fn next_action_at(&mut self, fresh_id: u128, now: i64) -> (r: WorkerAction)
        requires
            old(self).wf(),
        ensures
            final(self).wf(),
            (final(self)@, r@) == old(self)@.next_action(fresh_id, now as int),
            forall|k: u128|
                final(self).observed(k) == old(self)@.next_action_path(
                    fresh_id, now as int,
                    k,
                    old(self).observed(k),
                ),
    {
        match self.take_next() {
            Dispatch::Idle => WorkerAction::Idle,
            Dispatch::Dropped(_) => WorkerAction::Dropped,
            Dispatch::Run(task) => self.dispatch(&task, fresh_id, now),
        }
    }

    /// Gives a worker its next piece of work. A page that is new gets a
    /// random id, and the present time is taken from the clock: the
    /// outcome is that of [`Self::next_action_at`] for some id and some
    /// time.
    pub fn next_action(&mut self) -> (r: WorkerAction)
        requires
            old(self).wf(),
        ensures
            final(self).wf(),
            exists|fresh_id: u128, now: i64|
                {
                    &&& (final(self)@, r@) == #[trigger] old(self)@.next_action(
                        fresh_id,
                        now as int,
                    )
                    &&& forall|k: u128|
                        final(self).observed(k) == old(self)@.next_action_path(
                            fresh_id,
                            now as int,
                            k,
                            old(self).observed(k),
                        )
                },
    {
        let fresh_id = crate::ids::random_id();
        let now = crate::ids::now_millis();
        self.next_action_at(fresh_id, now)
    }
}

/// What a page offers to be refined or made into snippets.
pub fn page_source(page: &crate::models::DocumentationUrl) -> (r: PageSource)
    ensures
        r@ == source_text(page@),
{
    match &page.markdown {
        Some(m) => PageSource::Markdown(m.clone()),
        None => match &page.html {
            Some(h) => PageSource::Html(h.clone()),
            None => PageSource::Markdown(String::new()),
        },
    }
}

} // verus!
