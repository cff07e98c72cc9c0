//! The crawl engine: the store of pages, the processed-URL cache, the
//! crawl registry and the scheduler, and the steps that a crawl takes
//! through them.
//!
//! The engine decides and records; fetching a page and making Markdown
//! of it are left to whoever runs it. A crawl task is begun, which may
//! ask for a fetch; the fetch's outcome is handed back, and the engine
//! stores the content and expands the page's links into new tasks.

use vstd::prelude::*;
use crate::cache::ProcessedUrls;
use crate::catalog::{first_where, settings_of, CrawlingSettingsRepository};
use crate::content::{is_link_set, resolved_links, anchor_targets};
use crate::events::{AppEvent, EventEmitter, EventView};
use crate::filter::{effective_keywords, filters_of, in_scope, normalize_anti_keywords, opt_views, should_crawl, stored_filters, FiltersView};
use crate::models::{CrawlingSettings, DocumentationUrl, DocumentationUrlView};
use crate::pool::{count_kind, pool_wf, slot_index, PoolError, PoolView, WorkerPool};
use crate::registry::CrawlRegistry;
use crate::status::{at_rest, awaits_crawl, status_text, UrlStatus, valid_path};
use crate::store::{after_add, after_change, change_outcome, distinct_pages, lookup_id, lookup_url, status_change, DocumentationUrlService, StoreError};
use crate::task::{kind_of, new_task, Task, TaskKind, TaskPayload, TaskPayloadView, TaskView};
use crate::text::{concat2, concat3, decimal, number_text, views};
use crate::ids::uuid_text;
use crate::urls::{opt_view, url_parse};

verus! {

/// What a crawl is started with.
#[derive(Debug, Clone)]
pub struct CrawlConfig {
    pub technology_id: u128,
    pub version_id: u128,
    pub start_url: String,
    pub prefix_path: String,
    pub anti_paths: Option<Vec<String>>,
    pub anti_keywords: Option<Vec<String>>,
    pub skip_processed_urls: Option<bool>,
}

/// Why the engine did not do what it was asked.
#[derive(Debug, Clone)]
pub enum CrawlFailure {
    /// The text is no URL, for the reason that the parser gives.
    InvalidUrl(String),
    /// This seed URL is excluded by the crawl's own filters.
    OutOfScope(String),
    /// The store refused.
    Store(StoreError),
    /// There is no crawl to stop.
    NoActiveCrawl,
    /// No crawl of this technology and version is registered.
    NoActiveCrawlFor(u128, u128),
    /// The fetch failed, with this message.
    FetchFailed(String),
    /// The fetch of this URL ran out of time.
    FetchTimedOut(String),
    /// The fetched page could not be converted to Markdown.
    ConversionFailed,
    /// The page has no content.
    EmptyContent,
    /// No page has this id.
    UrlNotFound(u128),
    /// The page holds nothing that could be refined.
    NoContentToClean,
    /// The page holds nothing that could be processed.
    NoContentToProcess,
    /// The page has not come to the stage that the task is for.
    NotReady,
    /// Refining the page's text failed, with this message.
    CleanFailed(String),
    /// Making snippets of the page failed, with this message.
    SnippetsFailed(String),
    /// The version has no crawling settings.
    NoSettings,
    /// The filters of the version exclude this URL.
    Excluded(String),
    /// The task was cancelled before the step was taken.
    Cancelled,
}

/// The mathematical value of a [`CrawlFailure`].
pub enum FailureView {
    InvalidUrl(Seq<char>),
    OutOfScope(Seq<char>),
    Store(StoreError),
    NoActiveCrawl,
    NoActiveCrawlFor(u128, u128),
    FetchFailed(Seq<char>),
    FetchTimedOut(Seq<char>),
    ConversionFailed,
    EmptyContent,
    UrlNotFound(u128),
    NoContentToClean,
    NoContentToProcess,
    NotReady,
    CleanFailed(Seq<char>),
    SnippetsFailed(Seq<char>),
    NoSettings,
    Excluded(Seq<char>),
    Cancelled,
}

impl View for CrawlFailure {
    type V = FailureView;

    open spec fn view(&self) -> FailureView {
        match *self {
            CrawlFailure::InvalidUrl(m) => FailureView::InvalidUrl(m@),
            CrawlFailure::OutOfScope(u) => FailureView::OutOfScope(u@),
            CrawlFailure::Store(e) => FailureView::Store(e),
            CrawlFailure::NoActiveCrawl => FailureView::NoActiveCrawl,
            CrawlFailure::NoActiveCrawlFor(t, v) => FailureView::NoActiveCrawlFor(t, v),
            CrawlFailure::FetchFailed(m) => FailureView::FetchFailed(m@),
            CrawlFailure::FetchTimedOut(u) => FailureView::FetchTimedOut(u@),
            CrawlFailure::ConversionFailed => FailureView::ConversionFailed,
            CrawlFailure::EmptyContent => FailureView::EmptyContent,
            CrawlFailure::UrlNotFound(id) => FailureView::UrlNotFound(id),
            CrawlFailure::NoContentToClean => FailureView::NoContentToClean,
            CrawlFailure::NoContentToProcess => FailureView::NoContentToProcess,
            CrawlFailure::NotReady => FailureView::NotReady,
            CrawlFailure::CleanFailed(m) => FailureView::CleanFailed(m@),
            CrawlFailure::SnippetsFailed(m) => FailureView::SnippetsFailed(m@),
            CrawlFailure::NoSettings => FailureView::NoSettings,
            CrawlFailure::Excluded(u) => FailureView::Excluded(u@),
            CrawlFailure::Cancelled => FailureView::Cancelled,
        }
    }
}

/// The message that reports a failure.
pub open spec fn failure_text(f: FailureView) -> Seq<char> {
    match f {
        FailureView::InvalidUrl(m) => "Invalid URL: "@ + m,
        FailureView::OutOfScope(u) => "Start URL '"@ + u
            + "' doesn't match required filters. It may not start with the prefix path or may match anti-patterns. Please choose a different start URL."@,
        FailureView::Store(e) => match e {
            StoreError::NotFound(id) => "Documentation URL with ID "@ + uuid_text(id)
                + " does not exist"@,
            StoreError::DuplicateId(id) => "Documentation URL with ID "@ + uuid_text(id)
                + " already exists"@,
            StoreError::InvalidTransition(id, from, to) => "Documentation URL with ID "@
                + uuid_text(id) + " cannot change status"@,
        },
        FailureView::NoActiveCrawl => "No active crawling processes"@,
        FailureView::NoActiveCrawlFor(t, v) => "No active crawling for technology "@ + uuid_text(t)
            + " version "@ + uuid_text(v),
        FailureView::FetchFailed(m) => "Failed to fetch URL content: "@ + m,
        FailureView::FetchTimedOut(u) => "Timeout while fetching URL: "@ + u,
        FailureView::ConversionFailed => "Failed to convert HTML to markdown"@,
        FailureView::EmptyContent => "HTML content is empty"@,
        FailureView::UrlNotFound(id) => "URL with ID "@ + uuid_text(id) + " not found"@,
        FailureView::NoContentToClean => "No content available to clean"@,
        FailureView::NoContentToProcess => "No content available to process"@,
        FailureView::NotReady => "URL is not ready for this step"@,
        FailureView::CleanFailed(m) => "Failed to clean markdown: "@ + m,
        FailureView::SnippetsFailed(m) => "Failed to process snippets: "@ + m,
        FailureView::NoSettings => "No crawling settings found for this version"@,
        FailureView::Excluded(u) => "URL '"@ + u + "' matches exclusion filters and cannot be added"@,
        FailureView::Cancelled => "Task was cancelled"@,
    }
}

impl CrawlFailure {
    /// The message that reports the failure.
    pub fn message(&self) -> (r: String)
        ensures
            r@ == failure_text(self@),
    {
        match self {
            CrawlFailure::InvalidUrl(m) => concat2("Invalid URL: ", m.as_str()),
            CrawlFailure::OutOfScope(u) => concat3(
                "Start URL '",
                u.as_str(),
                "' doesn't match required filters. It may not start with the prefix path or may match anti-patterns. Please choose a different start URL.",
            ),
            CrawlFailure::Store(e) => match e {
                StoreError::NotFound(id) => concat3(
                    "Documentation URL with ID ",
                    crate::ids::id_text(*id).as_str(),
                    " does not exist",
                ),
                StoreError::DuplicateId(id) => concat3(
                    "Documentation URL with ID ",
                    crate::ids::id_text(*id).as_str(),
                    " already exists",
                ),
                StoreError::InvalidTransition(id, _, _) => concat3(
                    "Documentation URL with ID ",
                    crate::ids::id_text(*id).as_str(),
                    " cannot change status",
                ),
            },
            CrawlFailure::NoActiveCrawl => "No active crawling processes".to_owned(),
            CrawlFailure::NoActiveCrawlFor(t, v) => {
                let head = concat3(
                    "No active crawling for technology ",
                    crate::ids::id_text(*t).as_str(),
                    " version ",
                );
                concat2(head.as_str(), crate::ids::id_text(*v).as_str())
            },
            CrawlFailure::FetchFailed(m) => concat2("Failed to fetch URL content: ", m.as_str()),
            CrawlFailure::FetchTimedOut(u) => concat2("Timeout while fetching URL: ", u.as_str()),
            CrawlFailure::ConversionFailed => "Failed to convert HTML to markdown".to_owned(),
            CrawlFailure::EmptyContent => "HTML content is empty".to_owned(),
            CrawlFailure::UrlNotFound(id) => concat3(
                "URL with ID ",
                crate::ids::id_text(*id).as_str(),
                " not found",
            ),
            CrawlFailure::NoContentToClean => "No content available to clean".to_owned(),
            CrawlFailure::NoContentToProcess => "No content available to process".to_owned(),
            CrawlFailure::NotReady => "URL is not ready for this step".to_owned(),
            CrawlFailure::CleanFailed(m) => concat2("Failed to clean markdown: ", m.as_str()),
            CrawlFailure::SnippetsFailed(m) => concat2("Failed to process snippets: ", m.as_str()),
            CrawlFailure::NoSettings => "No crawling settings found for this version".to_owned(),
            CrawlFailure::Excluded(u) => concat3(
                "URL '",
                u.as_str(),
                "' matches exclusion filters and cannot be added",
            ),
            CrawlFailure::Cancelled => "Task was cancelled".to_owned(),
        }
    }
}

/// The state of the engine.
pub struct EngineView {
    /// The pages of the store.
    pub pages: Seq<DocumentationUrlView>,
    /// The processed-URL cache.
    pub processed: Set<Seq<char>>,
    /// The crawl registry.
    pub crawls: Map<(u128, u128), bool>,
    /// The scheduler.
    pub pool: PoolView,
    /// The pages whose fetch is under way.
    pub in_flight: Set<u128>,
    /// The crawl settings that are stored for versions.
    pub settings: Seq<CrawlingSettings>,
}

impl EngineView {
    /// The state after progress of a task was reported.
    pub open spec fn report(self, task_id: Seq<char>, percent: i32, stage: Seq<char>) -> EngineView {
        EngineView { pool: self.pool.progress(task_id, percent, stage), ..self }
    }

    /// The state after an event was put into the outbox.
    pub open spec fn emit(self, e: EventView) -> EngineView {
        EngineView { pool: PoolView { events: self.pool.events.push(e), ..self.pool }, ..self }
    }

    /// The state after a notification for the user.
    pub open spec fn notify(self, title: Seq<char>, message: Seq<char>) -> EngineView {
        self.emit(
            EventView::Notification { title, message, notification_type: Some("info"@) },
        )
    }

    /// The state after the page of this id was moved to `status`, where
    /// the status machine allows that: the store holds the new status,
    /// and a change is reported. A move that is not allowed changes
    /// nothing.
    pub open spec fn move_to(self, id: u128, status: UrlStatus, now: int) -> EngineView {
        match change_outcome(self.pages, id, status_change(status), now) {
            Ok(page) => {
                let moved = EngineView {
                    pages: after_change(self.pages, id, status_change(status), now),
                    ..self
                };
                if lookup_id(self.pages, id).unwrap().status != status {
                    moved.emit(
                        EventView::UrlStatusUpdated {
                            url_id: uuid_text(id),
                            status: status_text(status),
                        },
                    )
                } else {
                    moved
                }
            },
            Err(_) => self,
        }
    }

    /// The state after a URL was put into the cache, if the crawl uses the
    /// cache.
    pub open spec fn mark_if(self, wanted: bool, url: Seq<char>) -> EngineView {
        if wanted {
            EngineView { processed: self.processed.insert(url), ..self }
        } else {
            self
        }
    }

    /// The filters that are stored for a version at present; none where
    /// the version has no settings.
    pub open spec fn current_filters(self, version_id: u128) -> Option<FiltersView> {
        match first_where(self.settings, settings_of(version_id), 0) {
            Some(i) => Some(
                stored_filters(
                    opt_view(self.settings[i].prefix_path),
                    opt_view(self.settings[i].anti_paths),
                    opt_view(self.settings[i].anti_keywords),
                ),
            ),
            None => None,
        }
    }

    /// Whether a crawl task may crawl a URL: the filters that the task
    /// carries must let it pass, and so must the filters that are stored
    /// for the version at present, should they have changed since the
    /// task was made.
    pub open spec fn admits(self, job: JobView, url: Seq<char>) -> bool {
        in_scope(url, job.prefix_path, job.anti_paths, job.anti_keywords) && match self.current_filters(
            job.version_id,
        ) {
            Some(f) => f.admits(url),
            None => true,
        }
    }

    /// The cache hides the page: the URL is in it, and no stored status
    /// says that the page still awaits its crawl.
    pub open spec fn handled(self, technology_id: u128, version_id: u128, url: Seq<char>) -> bool {
        self.processed.contains(url) && !(lookup_url(self.pages, technology_id, version_id, url)
            matches Some(page) && awaits_crawl(page.status))
    }
}

/// The cache without the URLs of those pages of a version that still
/// await their crawl.
pub open spec fn without_pending(
    processed: Set<Seq<char>>,
    pages: Seq<DocumentationUrlView>,
    version_id: u128,
) -> Set<Seq<char>>
    decreases pages.len(),
{
    if pages.len() == 0 {
        processed
    } else {
        let init = without_pending(processed, pages.drop_last(), version_id);
        if pages.last().version_id == version_id && awaits_crawl(pages.last().status) {
            init.remove(pages.last().url)
        } else {
            init
        }
    }
}

/// How many pages of a version still await their crawl.
pub open spec fn count_pending(pages: Seq<DocumentationUrlView>, version_id: u128) -> nat
    decreases pages.len(),
{
    if pages.len() == 0 {
        0
    } else {
        count_pending(pages.drop_last(), version_id) + if pages.last().version_id == version_id
            && awaits_crawl(pages.last().status) {
            1nat
        } else {
            0nat
        }
    }
}

/// The message that reports a stop of all crawls.
pub open spec fn stop_message(crawls: nat, tasks: nat) -> Seq<char> {
    "Stopped "@ + decimal(crawls) + " active crawling processes ("@ + decimal(tasks)
        + " tasks cancelled)"@
}

/// The mathematical value of a [`CrawlConfig`].
pub struct ConfigView {
    pub technology_id: u128,
    pub version_id: u128,
    pub start_url: Seq<char>,
    pub prefix_path: Seq<char>,
    pub anti_paths: Option<Seq<Seq<char>>>,
    pub anti_keywords: Option<Seq<Seq<char>>>,
    pub skip_processed_urls: Option<bool>,
}

impl View for CrawlConfig {
    type V = ConfigView;

    open spec fn view(&self) -> ConfigView {
        ConfigView {
            technology_id: self.technology_id,
            version_id: self.version_id,
            start_url: self.start_url@,
            prefix_path: self.prefix_path@,
            anti_paths: opt_views(self.anti_paths),
            anti_keywords: opt_views(self.anti_keywords),
            skip_processed_urls: self.skip_processed_urls,
        }
    }
}

impl ConfigView {
    /// The anti-path patterns of the crawl: none where none are given.
    pub open spec fn paths(self) -> Seq<Seq<char>> {
        match self.anti_paths {
            Some(list) => list,
            None => Seq::empty(),
        }
    }

    /// The anti-keywords of the crawl.
    pub open spec fn keywords(self) -> Seq<Seq<char>> {
        effective_keywords(self.anti_keywords)
    }

    /// Whether the crawl uses the processed-URL cache: it does unless told
    /// otherwise.
    pub open spec fn skips(self) -> bool {
        match self.skip_processed_urls {
            Some(b) => b,
            None => true,
        }
    }
}

/// What became of a submitted crawl.
#[derive(Debug, Clone)]
pub enum Submission {
    /// A crawl task for the seed was queued under this id.
    Queued(String),
    /// The seed counts as handled: no task was made, and this id stands
    /// in for one.
    AlreadyProcessed(String),
}

/// The mathematical value of a [`Submission`].
pub enum SubmissionView {
    Queued(Seq<char>),
    AlreadyProcessed(Seq<char>),
}

impl View for Submission {
    type V = SubmissionView;

    open spec fn view(&self) -> SubmissionView {
        match *self {
            Submission::Queued(id) => SubmissionView::Queued(id@),
            Submission::AlreadyProcessed(id) => SubmissionView::AlreadyProcessed(id@),
        }
    }
}

/// The view of what a submission returns.
pub open spec fn submitted_view(r: Result<Submission, CrawlFailure>) -> Result<
    SubmissionView,
    FailureView,
> {
    match r {
        Ok(s) => Ok(s@),
        Err(e) => Err(e@),
    }
}

/// The crawl task for the page `url_id` at `url`, under the filters of a
/// crawl.
pub open spec fn crawl_task(
    task_id: u128,
    technology_id: u128,
    version_id: u128,
    url: Seq<char>,
    prefix_path: Seq<char>,
    anti_paths: Seq<Seq<char>>,
    anti_keywords: Seq<Seq<char>>,
    skip_processed: bool,
    url_id: u128,
    now: int,
) -> TaskView {
    new_task(
        uuid_text(task_id),
        "crawl_url"@,
        Some(technology_id),
        Some(version_id),
        TaskPayloadView { url, prefix_path, anti_paths, anti_keywords, skip_processed, url_id },
        now,
    )
}

impl EngineView {
    /// The state after the seed page `url_id` of a crawl was handed to the
    /// scheduler, and what the submitter is told. `url` is the seed in its
    /// normal form, by which the cache knows it; the task and the
    /// notifications carry the seed as it was given. `created` says that
    /// the page is new, which is then reported.
    pub open spec fn seed(
        self,
        c: ConfigView,
        url: Seq<char>,
        url_id: u128,
        created: bool,
        task_id: u128,
        now: int,
    ) -> (EngineView, Result<SubmissionView, FailureView>) {
        if c.skips() && self.processed.contains(url) {
            (
                self.notify(
                    "URL Already Processed"@,
                    "URL "@ + c.start_url + " is already processed and won't be crawled again"@,
                ),
                Ok(SubmissionView::AlreadyProcessed(uuid_text(task_id))),
            )
        } else {
            let queued = EngineView {
                pool: self.pool.enqueue(
                    crawl_task(
                        task_id,
                        c.technology_id,
                        c.version_id,
                        c.start_url,
                        c.prefix_path,
                        c.paths(),
                        c.keywords(),
                        c.skips(),
                        url_id,
                        now,
                    ),
                ),
                ..self
            };
            let told = if created {
                queued.emit(
                    EventView::UrlStatusUpdated {
                        url_id: uuid_text(url_id),
                        status: status_text(UrlStatus::PendingCrawl),
                    },
                )
            } else {
                queued
            };
            (
                told.notify("Crawling Started"@, "Started crawling from URL: "@ + c.start_url),
                Ok(SubmissionView::Queued(uuid_text(task_id))),
            )
        }
    }

    /// The state after a crawl was submitted, and what the submitter is
    /// told. A seed that is no URL, or that the crawl's own filters
    /// exclude, is refused and changes nothing. Otherwise the crawl is
    /// registered, the pages of the version that await their crawl leave
    /// the cache, the seed's page is found or made, and a crawl task for
    /// it is queued unless the cache holds the seed.
    pub open spec fn submit(self, c: ConfigView, page_id: u128, task_id: u128, now: int) -> (
        EngineView,
        Result<SubmissionView, FailureView>,
    ) {
        match crate::urls::normalized(c.start_url) {
            None => (self, Err(FailureView::InvalidUrl(crate::urls::url_parse_error(c.start_url)))),
            Some(url) => if !in_scope(url, c.prefix_path, c.paths(), c.keywords()) {
                (self, Err(FailureView::OutOfScope(c.start_url)))
            } else {
                let registered = EngineView {
                    crawls: self.crawls.insert((c.technology_id, c.version_id), true),
                    processed: without_pending(self.processed, self.pages, c.version_id),
                    ..self
                };
                match lookup_url(self.pages, c.technology_id, c.version_id, url) {
                    Some(page) => registered.seed(c, url, page.id, false, task_id, now),
                    None => if lookup_id(self.pages, page_id) is Some {
                        (registered, Err(FailureView::Store(StoreError::DuplicateId(page_id))))
                    } else {
                        (EngineView {
                            pages: after_add(
                                self.pages,
                                c.technology_id,
                                c.version_id,
                                url,
                                page_id,
                                now,
                            ),
                            ..registered
                        }).seed(c, url, page_id, true, task_id, now)
                    },
                }
            },
        }
    }
}

/// The particulars of a crawl task.
#[derive(Debug, Clone)]
pub struct CrawlJob {
    pub task_id: String,
    pub technology_id: u128,
    pub version_id: u128,
    pub url: String,
    pub prefix_path: String,
    pub anti_paths: Vec<String>,
    pub anti_keywords: Vec<String>,
    pub skip_processed: bool,
}

/// The mathematical value of a [`CrawlJob`].
pub struct JobView {
    pub task_id: Seq<char>,
    pub technology_id: u128,
    pub version_id: u128,
    pub url: Seq<char>,
    pub prefix_path: Seq<char>,
    pub anti_paths: Seq<Seq<char>>,
    pub anti_keywords: Seq<Seq<char>>,
    pub skip_processed: bool,
}

impl View for CrawlJob {
    type V = JobView;

    open spec fn view(&self) -> JobView {
        JobView {
            task_id: self.task_id@,
            technology_id: self.technology_id,
            version_id: self.version_id,
            url: self.url@,
            prefix_path: self.prefix_path@,
            anti_paths: views(self.anti_paths@),
            anti_keywords: views(self.anti_keywords@),
            skip_processed: self.skip_processed,
        }
    }
}

/// The job that a crawl task describes; none where the task names no
/// technology or no version.
pub open spec fn job_of(task: TaskView) -> Option<JobView> {
    match (task.technology_id, task.version_id) {
        (Some(technology_id), Some(version_id)) => Some(
            JobView {
                task_id: task.id,
                technology_id,
                version_id,
                url: task.payload.url,
                prefix_path: task.payload.prefix_path,
                anti_paths: task.payload.anti_paths,
                anti_keywords: task.payload.anti_keywords,
                skip_processed: task.payload.skip_processed,
            },
        ),
        _ => None,
    }
}

impl CrawlJob {
    /// The job that a crawl task describes.
    pub fn of_task(task: &Task) -> (r: Option<CrawlJob>)
        ensures
            match r {
                Some(job) => job_of(task@) == Some(job@),
                None => job_of(task@) is None,
            },
    {
        match (task.technology_id, task.version_id) {
            (Some(technology_id), Some(version_id)) => Some(
                CrawlJob {
                    task_id: task.id.clone(),
                    technology_id,
                    version_id,
                    url: task.payload.url.clone(),
                    prefix_path: task.payload.prefix_path.clone(),
                    anti_paths: crate::filter::clone_strings(task.payload.anti_paths.as_slice()),
                    anti_keywords: crate::filter::clone_strings(
                        task.payload.anti_keywords.as_slice(),
                    ),
                    skip_processed: task.payload.skip_processed,
                },
            ),
            _ => None,
        }
    }
}

/// What a step of a crawl task asks for.
#[derive(Debug)]
pub enum CrawlStep {
    /// The page is to be fetched; its outcome is to be handed back.
    Fetch { url: String, url_id: u128 },
    /// The task is over, with this result.
    Finished(Result<(), CrawlFailure>),
}

/// The mathematical value of a [`CrawlStep`].
pub enum StepView {
    Fetch { url: Seq<char>, url_id: u128 },
    Finished(Result<(), FailureView>),
}

impl View for CrawlStep {
    type V = StepView;

    open spec fn view(&self) -> StepView {
        match *self {
            CrawlStep::Fetch { url, url_id } => StepView::Fetch { url: url@, url_id },
            CrawlStep::Finished(r) => StepView::Finished(
                match r {
                    Ok(_) => Ok(()),
                    Err(e) => Err(e@),
                },
            ),
        }
    }
}

impl EngineView {
    /// The state after a crawl task laid claim to a page, and what the
    /// task is to do.
    ///
    /// A page whose fetch is under way, which is in flight and at
    /// `Crawling`, is left to the task that fetches it. A page that is
    /// stored as `Processed` is left as it is where the crawl passes over
    /// what was handled before, whatever the cache holds: the stored
    /// status decides. Any other page that rests after an earlier outcome
    /// is put back to `PendingCrawl`; from there, or from a `Crawling`
    /// that nobody is at work on, the page becomes `Crawling`, is noted as
    /// in flight, and is to be fetched. A page that is past its crawl
    /// needs nothing.
    pub open spec fn claim(self, job: JobView, url: Seq<char>, page: DocumentationUrlView, now: int)
        -> (EngineView, StepView) {
        if self.in_flight.contains(page.id) && page.status == UrlStatus::Crawling {
            (self.report(job.task_id, 100, "already_processed"@), StepView::Finished(Ok(())))
        } else if job.skip_processed && page.status == UrlStatus::Processed {
            (self.report(job.task_id, 100, "already_processed"@), StepView::Finished(Ok(())))
        } else if at_rest(page.status) || page.status == UrlStatus::PendingCrawl || page.status
            == UrlStatus::Crawling {
            let reentered = if at_rest(page.status) {
                self.move_to(page.id, UrlStatus::PendingCrawl, now)
            } else {
                self
            };
            let crawling = if page.status != UrlStatus::Crawling {
                reentered.move_to(page.id, UrlStatus::Crawling, now)
            } else {
                reentered
            };
            (
                (EngineView { in_flight: crawling.in_flight.insert(page.id), ..crawling }).report(
                    job.task_id,
                    40,
                    "fetching_content"@,
                ),
                StepView::Fetch { url, url_id: page.id },
            )
        } else {
            (self.report(job.task_id, 100, "already_processed"@), StepView::Finished(Ok(())))
        }
    }

    /// The state after a crawl task turned to the page at `url`, and what
    /// the task is to do: the page is found in the store or added to it
    /// under `fresh_id`, and then claimed.
    pub open spec fn crawl_url(self, job: JobView, url: Seq<char>, fresh_id: u128, now: int) -> (
        EngineView,
        StepView,
    ) {
        match lookup_url(self.pages, job.technology_id, job.version_id, url) {
            Some(page) => self.claim(job, url, page, now),
            None => if lookup_id(self.pages, fresh_id) is Some {
                (
                    self,
                    StepView::Finished(
                        Err(FailureView::Store(StoreError::DuplicateId(fresh_id))),
                    ),
                )
            } else {
                (EngineView {
                    pages: after_add(
                        self.pages,
                        job.technology_id,
                        job.version_id,
                        url,
                        fresh_id,
                        now,
                    ),
                    ..self
                }).emit(
                    EventView::UrlStatusUpdated {
                        url_id: uuid_text(fresh_id),
                        status: status_text(UrlStatus::PendingCrawl),
                    },
                ).claim(
                    job,
                    url,
                    crate::store::fresh_page(
                        fresh_id,
                        job.technology_id,
                        job.version_id,
                        url,
                        now,
                    ),
                    now,
                )
            },
        }
    }

    /// The state after a page was found to be out of scope: this is
    /// reported, the page, if the store has it, becomes `Skipped` where
    /// the status machine allows, and the URL goes into the cache if the
    /// crawl uses it.
    pub open spec fn skip(self, job: JobView, url: Seq<char>, now: int) -> EngineView {
        let reported = self.report(job.task_id, 100, "skipped"@);
        let skipped = match lookup_url(self.pages, job.technology_id, job.version_id, url) {
            Some(page) => reported.move_to(page.id, UrlStatus::Skipped, now),
            None => reported,
        };
        skipped.mark_if(job.skip_processed, url)
    }

    /// The state after a worker began a crawl task, and what the task is
    /// to do.
    ///
    /// A task that was cancelled does nothing. Else the URL is
    /// normalized; a text that is no URL fails the task. A page that the
    /// store says still awaits its crawl leaves the cache. A URL that the
    /// filters exclude, those of the task or those stored for the version
    /// at present, is skipped, which ends the task well. So does a URL
    /// that the cache hides. Any other is claimed.
    pub open spec fn begin(self, job: JobView, fresh_id: u128, now: int) -> (EngineView, StepView) {
        if self.pool.cancelled(job.task_id) {
            (self, StepView::Finished(Err(FailureView::Cancelled)))
        } else {
            self.begin_live(job, fresh_id, now)
        }
    }

    /// The state after a worker began a crawl task that is not cancelled.
    pub open spec fn begin_live(self, job: JobView, fresh_id: u128, now: int) -> (
        EngineView,
        StepView,
    ) {
        let started = self.report(job.task_id, 20, "filtering"@);
        match crate::urls::normalized(job.url) {
            None => (
                started,
                StepView::Finished(
                    Err(FailureView::InvalidUrl(crate::urls::url_parse_error(job.url))),
                ),
            ),
            Some(url) => {
                let fresh = match lookup_url(started.pages, job.technology_id, job.version_id, url) {
                    Some(page) => if awaits_crawl(page.status) {
                        EngineView { processed: started.processed.remove(url), ..started }
                    } else {
                        started
                    },
                    None => started,
                };
                if !fresh.admits(job, url) {
                    (fresh.skip(job, url, now), StepView::Finished(Ok(())))
                } else if job.skip_processed && fresh.handled(
                    job.technology_id,
                    job.version_id,
                    url,
                ) {
                    (
                        fresh.report(job.task_id, 100, "already_processed"@),
                        StepView::Finished(Ok(())),
                    )
                } else {
                    fresh.report(job.task_id, 30, "crawling"@).crawl_url(job, url, fresh_id, now)
                }
            },
        }
    }
}

/// How the fetch of a page ended.
#[derive(Debug, Clone)]
pub enum FetchOutcome {
    /// The rendered page, and the Markdown that was made of it; no
    /// Markdown where the page could not be converted.
    Content { html: String, markdown: Option<String> },
    /// The fetch failed, with this message.
    Failed(String),
    /// The fetch did not end in its time.
    TimedOut,
}

/// The mathematical value of a [`FetchOutcome`].
pub enum FetchView {
    Content { html: Seq<char>, markdown: Option<Seq<char>> },
    Failed(Seq<char>),
    TimedOut,
}

impl View for FetchOutcome {
    type V = FetchView;

    open spec fn view(&self) -> FetchView {
        match *self {
            FetchOutcome::Content { html, markdown } => FetchView::Content {
                html: html@,
                markdown: opt_view(markdown),
            },
            FetchOutcome::Failed(m) => FetchView::Failed(m@),
            FetchOutcome::TimedOut => FetchView::TimedOut,
        }
    }
}

/// What the engine made of a link on a crawled page.
#[derive(Debug, Clone, Copy, PartialEq, Eq, Structural)]
pub enum LinkDecision {
    /// The task was cancelled: nothing was looked at.
    Cancelled,
    /// The link leads to the page itself.
    SelfLink,
    /// The cache hides the link.
    AlreadyHandled,
    /// The filters exclude the link.
    OutOfScope,
    /// The store has the page, and it does not await a crawl.
    AlreadyKnown,
    /// A task was queued for a page that the store had.
    Enqueued,
    /// The page was added to the store and a task was queued for it.
    Created,
    /// The store refused the id that the new page was given.
    Refused,
}

/// The normal forms of those of a list of links that are URLs, in order.
pub open spec fn normalized_all(links: Seq<Seq<char>>) -> Seq<Seq<char>>
    decreases links.len(),
{
    if links.len() == 0 {
        Seq::empty()
    } else {
        let init = normalized_all(links.drop_last());
        match crate::urls::normalized(links.last()) {
            Some(n) => init.push(n),
            None => init,
        }
    }
}

/// `n` is the normal form of a link that the page at `url` with content
/// `html` holds.
pub open spec fn links_to(html: Seq<char>, url: Seq<char>, n: Seq<char>) -> bool {
    url_parse(url) is Some && exists|l: Seq<char>|
        resolved_links(url, anchor_targets(html)).contains(l) && #[trigger] crate::urls::normalized(
            l,
        ) == Some(n)
}

/// `links` lists the pages that the page at `url` with content `html`
/// links to: each once, in normal form, in order.
pub open spec fn is_candidates(links: Seq<Seq<char>>, html: Seq<char>, url: Seq<char>) -> bool {
    &&& crate::content::strictly_sorted(links)
    &&& forall|n: Seq<char>| links.contains(n) <==> links_to(html, url, n)
}

/// The change that stores a fetched page: its HTML, the Markdown made of
/// it, and the status `Crawled`.
pub open spec fn content_change(html: Seq<char>, markdown: Seq<char>) -> crate::store::FieldChangeView {
    crate::store::FieldChangeView {
        status: Some(UrlStatus::Crawled),
        html: Some(Some(html)),
        markdown: Some(Some(markdown)),
        cleaned_markdown: None,
        is_processed: None,
    }
}

impl EngineView {
    /// The state in which the page of this id is no longer in flight.
    pub open spec fn release(self, url_id: u128) -> EngineView {
        EngineView { in_flight: self.in_flight.remove(url_id), ..self }
    }

    /// The state after the fetch of a page failed: the page becomes
    /// `CrawlError`, the failure is reported as the given stage, and the
    /// URL goes into the cache if the crawl uses it.
    pub open spec fn fetch_failed(self, job: JobView, url: Seq<char>, url_id: u128, stage: Seq<char>, now: int)
        -> EngineView {
        self.release(url_id).move_to(url_id, UrlStatus::CrawlError, now).report(
            job.task_id,
            100,
            stage,
        ).mark_if(job.skip_processed, url)
    }

    /// The state after the outcome of a fetch was handed in, and whether
    /// the page's links are now to be followed.
    ///
    /// The page is no longer in flight. A fetch that failed or timed out
    /// leaves the page at `CrawlError` and fails the task, and so does
    /// content of which no Markdown could be made. Other content is
    /// stored with its Markdown, and the page becomes `Crawled`; should
    /// the store refuse, or the content be empty, the task fails.
    pub open spec fn finish_fetch(self, job: JobView, url: Seq<char>, url_id: u128, outcome: FetchView, now: int)
        -> (EngineView, Result<(), FailureView>) {
        match outcome {
            FetchView::Failed(m) => (
                self.fetch_failed(job, url, url_id, "error"@, now),
                Err(FailureView::FetchFailed(m)),
            ),
            FetchView::TimedOut => (
                self.fetch_failed(job, url, url_id, "timeout"@, now),
                Err(FailureView::FetchTimedOut(url)),
            ),
            FetchView::Content { html, markdown: None } => (
                self.report(job.task_id, 60, "converting_to_markdown"@).fetch_failed(
                    job,
                    url,
                    url_id,
                    "markdown_error"@,
                    now,
                ),
                Err(FailureView::ConversionFailed),
            ),
            FetchView::Content { html, markdown: Some(text) } => {
                let converted = self.release(url_id).report(
                    job.task_id,
                    60,
                    "converting_to_markdown"@,
                ).report(job.task_id, 80, "updating_content"@);
                match change_outcome(converted.pages, url_id, content_change(html, text), now) {
                    Err(e) => (converted, Err(FailureView::Store(e))),
                    Ok(_) => {
                        let stored = EngineView {
                            pages: after_change(
                                converted.pages,
                                url_id,
                                content_change(html, text),
                                now,
                            ),
                            ..converted
                        };
                        let told = if lookup_id(converted.pages, url_id).unwrap().status
                            != UrlStatus::Crawled {
                            stored.emit(
                                EventView::UrlStatusUpdated {
                                    url_id: uuid_text(url_id),
                                    status: status_text(UrlStatus::Crawled),
                                },
                            )
                        } else {
                            stored
                        };
                        if html.len() == 0 {
                            (told, Err(FailureView::EmptyContent))
                        } else {
                            (told.report(job.task_id, 60, "extracting_links"@), Ok(()))
                        }
                    },
                }
            },
        }
    }

    /// The state after a crawl task for the page `url_id` at `link` was
    /// handed to the scheduler under `task_id`, and the decision that
    /// this amounts to.
    pub open spec fn hand_over(
        self,
        job: JobView,
        link: Seq<char>,
        url_id: u128,
        task_id: u128,
        now: int,
        decision: LinkDecision,
    ) -> (EngineView, LinkDecision) {
        (
            (EngineView {
                pool: self.pool.enqueue(
                    crawl_task(
                        task_id,
                        job.technology_id,
                        job.version_id,
                        link,
                        job.prefix_path,
                        job.anti_paths,
                        job.anti_keywords,
                        job.skip_processed,
                        url_id,
                        now,
                    ),
                ),
                ..self
            }).mark_if(job.skip_processed, link),
            decision,
        )
    }

    /// The state after one link of the page at `base` was dealt with, and
    /// what was decided.
    ///
    /// Nothing happens once the task is cancelled. A link to the page
    /// itself and a link that the cache hides are passed over. A link
    /// that the filters exclude goes into the cache. So does a link whose
    /// page the store has, past its crawl. For a page that awaits its
    /// crawl a task is queued; a page that the store lacks is added
    /// first, as `PendingCrawl`.
    pub open spec fn link_step(
        self,
        job: JobView,
        base: Seq<char>,
        link: Seq<char>,
        page_id: u128,
        task_id: u128,
        now: int,
    ) -> (EngineView, LinkDecision) {
        if self.pool.cancelled(job.task_id) {
            (self, LinkDecision::Cancelled)
        } else if link == base {
            (self, LinkDecision::SelfLink)
        } else if job.skip_processed && self.handled(job.technology_id, job.version_id, link) {
            (self, LinkDecision::AlreadyHandled)
        } else if !in_scope(link, job.prefix_path, job.anti_paths, job.anti_keywords) {
            (self.mark_if(job.skip_processed, link), LinkDecision::OutOfScope)
        } else {
            match lookup_url(self.pages, job.technology_id, job.version_id, link) {
                Some(page) => if !awaits_crawl(page.status) {
                    (self.mark_if(job.skip_processed, link), LinkDecision::AlreadyKnown)
                } else {
                    self.hand_over(job, link, page.id, task_id, now, LinkDecision::Enqueued)
                },
                None => if lookup_id(self.pages, page_id) is Some {
                    (self, LinkDecision::Refused)
                } else {
                    (EngineView {
                        pages: after_add(
                            self.pages,
                            job.technology_id,
                            job.version_id,
                            link,
                            page_id,
                            now,
                        ),
                        ..self
                    }).emit(
                        EventView::UrlStatusUpdated {
                            url_id: uuid_text(page_id),
                            status: status_text(UrlStatus::PendingCrawl),
                        },
                    ).hand_over(job, link, page_id, task_id, now, LinkDecision::Created)
                },
            }
        }
    }

    /// The state after the links of the page at `base` were dealt with one
    /// after the other, the `i`-th with the ids `ids[i]`.
    pub open spec fn expand(
        self,
        job: JobView,
        base: Seq<char>,
        links: Seq<Seq<char>>,
        ids: Seq<(u128, u128)>,
        now: int,
    ) -> EngineView
        decreases links.len(),
    {
        if links.len() == 0 {
            self
        } else {
            self.expand(job, base, links.drop_last(), ids.drop_last(), now).link_step(
                job,
                base,
                links.last(),
                ids.last().0,
                ids.last().1,
                now,
            ).0
        }
    }
}

/// What the pages have shown. Each function gives the statuses that the
/// page of the id `k` has shown after a step of the engine, where `path`
/// is what it had shown before the step.
impl EngineView {
    /// After the page `id` was moved to `status`: the status is added
    /// where the move is allowed and changes the status.
    pub open spec fn moved_path(
        self,
        id: u128,
        status: UrlStatus,
        now: int,
        k: u128,
        path: Seq<UrlStatus>,
    ) -> Seq<UrlStatus> {
        if k == id && change_outcome(self.pages, id, status_change(status), now) is Ok {
            crate::store::extended(path, lookup_id(self.pages, id).unwrap().status, status)
        } else {
            path
        }
    }

    /// After a crawl task laid claim to a page of the store: a page that
    /// rested has shown `PendingCrawl` and then `Crawling`, a page at
    /// `PendingCrawl` has shown `Crawling`, and nothing is added where
    /// the claim is given up.
    pub open spec fn claim_path(
        self,
        job: JobView,
        page: DocumentationUrlView,
        k: u128,
        path: Seq<UrlStatus>,
    ) -> Seq<UrlStatus> {
        if k != page.id {
            path
        } else if self.in_flight.contains(page.id) && page.status == UrlStatus::Crawling {
            path
        } else if job.skip_processed && page.status == UrlStatus::Processed {
            path
        } else if at_rest(page.status) {
            path.push(UrlStatus::PendingCrawl).push(UrlStatus::Crawling)
        } else if page.status == UrlStatus::PendingCrawl {
            path.push(UrlStatus::Crawling)
        } else {
            path
        }
    }

    /// After a crawl task turned to the page at `url`: a page that is new
    /// has shown `PendingCrawl` and `Crawling`; a page of the store, what
    /// the claim adds.
    pub open spec fn crawl_url_path(
        self,
        job: JobView,
        url: Seq<char>,
        fresh_id: u128,
        k: u128,
        path: Seq<UrlStatus>,
    ) -> Seq<UrlStatus> {
        match lookup_url(self.pages, job.technology_id, job.version_id, url) {
            Some(page) => self.claim_path(job, page, k, path),
            None => if k == fresh_id && lookup_id(self.pages, fresh_id) is None {
                seq![UrlStatus::PendingCrawl, UrlStatus::Crawling]
            } else {
                path
            },
        }
    }

    /// After a page was found to be out of scope.
    pub open spec fn skip_path(
        self,
        job: JobView,
        url: Seq<char>,
        now: int,
        k: u128,
        path: Seq<UrlStatus>,
    ) -> Seq<UrlStatus> {
        match lookup_url(self.pages, job.technology_id, job.version_id, url) {
            Some(page) => self.moved_path(page.id, UrlStatus::Skipped, now, k, path),
            None => path,
        }
    }

    /// After a worker began a crawl task: nothing is added where the task
    /// is cancelled, the text is no URL or the cache hides the page.
    pub open spec fn begin_path(
        self,
        job: JobView,
        fresh_id: u128,
        now: int,
        k: u128,
        path: Seq<UrlStatus>,
    ) -> Seq<UrlStatus> {
        if self.pool.cancelled(job.task_id) {
            path
        } else {
            match crate::urls::normalized(job.url) {
                None => path,
                Some(url) => if !self.admits(job, url) {
                    self.skip_path(job, url, now, k, path)
                } else if job.skip_processed && self.handled(
                    job.technology_id,
                    job.version_id,
                    url,
                ) {
                    path
                } else {
                    self.crawl_url_path(job, url, fresh_id, k, path)
                },
            }
        }
    }

    /// After the outcome of a fetch was handed in: `Crawled` where
    /// content with its Markdown was stored, else `CrawlError`, each
    /// where the status machine allows it.
    pub open spec fn finish_fetch_path(
        self,
        url_id: u128,
        outcome: FetchView,
        now: int,
        k: u128,
        path: Seq<UrlStatus>,
    ) -> Seq<UrlStatus> {
        match outcome {
            FetchView::Content { html, markdown: Some(text) } => if k == url_id && change_outcome(
                self.pages,
                url_id,
                content_change(html, text),
                now,
            ) is Ok {
                crate::store::extended(
                    path,
                    lookup_id(self.pages, url_id).unwrap().status,
                    UrlStatus::Crawled,
                )
            } else {
                path
            },
            _ => self.moved_path(url_id, UrlStatus::CrawlError, now, k, path),
        }
    }

    /// After one link was dealt with: a page that was added has shown
    /// `PendingCrawl`.
    pub open spec fn link_step_path(
        self,
        job: JobView,
        base: Seq<char>,
        link: Seq<char>,
        page_id: u128,
        task_id: u128,
        now: int,
        k: u128,
        path: Seq<UrlStatus>,
    ) -> Seq<UrlStatus> {
        if k == page_id && self.link_step(job, base, link, page_id, task_id, now).0.pages.len()
            > self.pages.len() {
            seq![UrlStatus::PendingCrawl]
        } else {
            path
        }
    }

    /// After the links of a page were dealt with one after the other.
    pub open spec fn expand_path(
        self,
        job: JobView,
        base: Seq<char>,
        links: Seq<Seq<char>>,
        ids: Seq<(u128, u128)>,
        now: int,
        k: u128,
        path: Seq<UrlStatus>,
    ) -> Seq<UrlStatus>
        decreases links.len(),
    {
        if links.len() == 0 {
            path
        } else {
            self.expand(job, base, links.drop_last(), ids.drop_last(), now).link_step_path(
                job,
                base,
                links.last(),
                ids.last().0,
                ids.last().1,
                now,
                k,
                self.expand_path(job, base, links.drop_last(), ids.drop_last(), now, k, path),
            )
        }
    }

    /// After the completion of a crawl task, with the fetch's outcome
    /// taken in at `now` and the links dealt with at `later`.
    pub open spec fn completion_path(
        self,
        job: JobView,
        url: Seq<char>,
        url_id: u128,
        outcome: FetchView,
        now: int,
        links: Seq<Seq<char>>,
        ids: Seq<(u128, u128)>,
        later: int,
        k: u128,
        path: Seq<UrlStatus>,
    ) -> Seq<UrlStatus> {
        let fetched = self.finish_fetch(job, url, url_id, outcome, now);
        let stored = self.finish_fetch_path(url_id, outcome, now, k, path);
        if fetched.1 is Ok {
            fetched.0.report(job.task_id, 80, "queueing_links"@).expand_path(
                job,
                url,
                links,
                ids,
                later,
                k,
                stored,
            )
        } else {
            stored
        }
    }
}

/// The view of a crawl task's result.
pub open spec fn crawl_result(r: Result<(), CrawlFailure>) -> Result<(), FailureView> {
    match r {
        Ok(_) => Ok(()),
        Err(e) => Err(e@),
    }
}

/// `after` and `result` are what the completion of a crawl task makes of
/// the state `before`, with the fetch's outcome taken in at time `now` and
/// the links dealt with at time `later`, under the ids `ids`.
///
/// On a failure the state is that after the fetch was taken in. On
/// success the page's links were then reported as being queued, dealt
/// with one after the other, and the task was reported as completed.
pub open spec fn is_completion(
    before: EngineView,
    after: EngineView,
    job: JobView,
    url: Seq<char>,
    url_id: u128,
    outcome: FetchView,
    result: Result<(), FailureView>,
    now: int,
    links: Seq<Seq<char>>,
    ids: Seq<(u128, u128)>,
    later: int,
) -> bool {
    let fetched = before.finish_fetch(job, url, url_id, outcome, now);
    match result {
        Err(e) => fetched.1 == Err::<(), FailureView>(e) && after == fetched.0,
        Ok(_) => {
            &&& fetched.1 is Ok
            &&& outcome matches FetchView::Content { html, markdown } && is_candidates(
                links,
                html,
                url,
            )
            &&& ids.len() == links.len()
            &&& after == fetched.0.report(job.task_id, 80, "queueing_links"@).expand(
                job,
                url,
                links,
                ids,
                later,
            ).report(job.task_id, 100, "completed"@)
        },
    }
}

/// What the worker of a task reports to the scheduler, given the result
/// of the work.
pub open spec fn outcome_of(
    url_id: u128,
    snippets_count: Option<usize>,
    result: Result<(), FailureView>,
) -> crate::pool::OutcomeView {
    match result {
        Ok(_) => crate::pool::OutcomeView::Completed { snippets_count, url_id },
        Err(e) => crate::pool::OutcomeView::Failed { error: failure_text(e) },
    }
}

/// The crawl engine.
pub struct CrawlerService {
    url_service: DocumentationUrlService,
    processed_urls: ProcessedUrls,
    active_crawls: CrawlRegistry,
    worker_pool: WorkerPool,
    in_flight: Vec<u128>,
    settings: CrawlingSettingsRepository,
}

impl View for CrawlerService {
    type V = EngineView;

    closed spec fn view(&self) -> EngineView {
        EngineView {
            pages: self.url_service@,
            processed: self.processed_urls@,
            crawls: self.active_crawls@,
            pool: self.worker_pool@,
            in_flight: self.in_flight@.to_set(),
            settings: self.settings@,
        }
    }
}

impl Default for CrawlerService {
    /// An engine without pages, tasks or crawls, as
    /// [`CrawlerService::new`] gives.
    fn default() -> (r: CrawlerService)
        ensures
            r.wf(),
            r@ == (EngineView {
                pages: Seq::empty(),
                processed: Set::empty(),
                crawls: Map::empty(),
                pool: PoolView { queue: Seq::empty(), active: Seq::empty(), events: Seq::empty() },
                in_flight: Set::empty(),
                settings: Seq::empty(),
            }),
            r.registered() == 0,
    {
        CrawlerService::new()
    }
}

impl CrawlerService {
    /// The engine's invariant: those of its parts.
    pub closed spec fn wf(&self) -> bool {
        &&& self.url_service.wf()
        &&& self.active_crawls.wf()
        &&& self.worker_pool.wf()
    }

    /// The statuses that the page of this id has shown, in order.
    pub closed spec fn observed(&self, id: u128) -> Seq<UrlStatus> {
        self.url_service.observed(id)
    }

    /// The number of pairs of technology and version in the registry.
    pub closed spec fn registered(&self) -> nat {
        self.active_crawls.count()
    }

    /// An engine without pages, tasks or crawls.
    pub fn new() -> (r: CrawlerService)
        ensures
            r.wf(),
            r@ == (EngineView {
                pages: Seq::empty(),
                processed: Set::empty(),
                crawls: Map::empty(),
                pool: PoolView { queue: Seq::empty(), active: Seq::empty(), events: Seq::empty() },
                in_flight: Set::empty(),
                settings: Seq::empty(),
            }),
            r.registered() == 0,
    {
        assert(Seq::<u128>::empty().to_set() =~= Set::<u128>::empty());
        CrawlerService {
            url_service: DocumentationUrlService::new(),
            processed_urls: ProcessedUrls::new(),
            active_crawls: CrawlRegistry::new(),
            worker_pool: WorkerPool::new(),
            in_flight: Vec::new(),
            settings: CrawlingSettingsRepository::new(),
        }
    }

    /// The store of pages.
    pub fn url_service(&self) -> (r: &DocumentationUrlService)
        ensures
            r@ == self@.pages,
            self.wf() ==> r.wf(),
            forall|id: u128| r.observed(id) == self.observed(id),
    {
        &self.url_service
    }

    /// The scheduler.
    pub fn worker_pool(&self) -> (r: &WorkerPool)
        ensures
            r@ == self@.pool,
            self.wf() ==> r.wf(),
    {
        &self.worker_pool
    }

    /// The event outbox.
    pub fn event_emitter(&self) -> (r: &EventEmitter)
        ensures
            r@ == self@.pool.events,
    {
        self.worker_pool.event_emitter()
    }

    /// Hands out the events collected so far, oldest first, and empties
    /// the outbox.
    pub fn drain_events(&mut self) -> (r: Vec<AppEvent>)
        requires
            old(self).wf(),
        ensures
            final(self).wf(),
            crate::events::event_views(r@) == old(self)@.pool.events,
            final(self)@ == (EngineView {
                pool: PoolView { events: Seq::empty(), ..old(self)@.pool },
                ..old(self)@
            }),
            forall|id: u128| final(self).observed(id) == old(self).observed(id),
            final(self).registered() == old(self).registered(),
    {
        self.worker_pool.drain_events()
    }

    /// Puts a URL into the processed-URL cache.
    pub fn mark_url_processed(&mut self, url: &str)
        requires
            old(self).wf(),
        ensures
            final(self).wf(),
            final(self)@ == old(self)@.mark_if(true, url@),
            forall|id: u128| final(self).observed(id) == old(self).observed(id),
            final(self).registered() == old(self).registered(),
    {
        self.processed_urls.insert(url);
    }

    /// Takes a URL out of the processed-URL cache, so that it can be
    /// crawled again.
    pub fn unmark_url_processed(&mut self, url: &str)
        requires
            old(self).wf(),
        ensures
            final(self).wf(),
            final(self)@ == (EngineView {
                processed: old(self)@.processed.remove(url@),
                ..old(self)@
            }),
            forall|id: u128| final(self).observed(id) == old(self).observed(id),
            final(self).registered() == old(self).registered(),
    {
        self.processed_urls.remove(url);
    }

    /// Whether the URL is in the processed-URL cache.
    pub fn is_url_processed(&self, url: &str) -> (r: bool)
        ensures
            r == self@.processed.contains(url@),
    {
        self.processed_urls.contains(url)
    }

    /// Whether the cache hides the page: the URL is in the cache, and the
    /// store does not say that the page still awaits its crawl. A stored
    /// status of `PendingCrawl`, `Crawling`, `PendingMarkdown`,
    /// `PendingProcessing` or `CrawlError` overrides the cache.
    pub fn is_url_processed_async(&self, url: &str, technology_id: u128, version_id: u128) -> (r:
        bool)
        ensures
            r == self@.handled(technology_id, version_id, url@),
    {
        if self.processed_urls.contains(url) {
            match self.url_service.get_url_by_url(technology_id, version_id, url) {
                Some(page) => !page.status.is_pending(),
                None => true,
            }
        } else {
            false
        }
    }

    /// Extracts the links of a page: the targets of its anchors, made
    /// absolute against the page's URL, without fragments, `http` and
    /// `https` only; sorted, each once.
    pub fn extract_links_from_html(&self, html: &str, base_url: &str) -> (r: Vec<String>)
        ensures
            is_link_set(
                views(r@),
                if url_parse(base_url@) is Some {
                    resolved_links(base_url@, anchor_targets(html@))
                } else {
                    Seq::empty()
                },
            ),
    {
        crate::content::extract_links_from_html(html, base_url)
    }

    /// Decides whether a URL is to be crawled under the given prefix and
    /// exclusions.
    pub fn should_crawl_url(
        &self,
        url: &str,
        prefix_path: &str,
        anti_paths: &[String],
        anti_keywords: &[String],
    ) -> (r: bool)
        ensures
            r == in_scope(url@, prefix_path@, views(anti_paths@), views(anti_keywords@)),
    {
        should_crawl(url, prefix_path, anti_paths, anti_keywords)
    }

    /// Reports progress of a task: the percentage, brought into the range
    /// from 0 to 100, and the stage that the work has reached.
    pub fn report(&mut self, task_id: &str, percent: i32, stage: &str)
        requires
            old(self).wf(),
        ensures
            final(self).wf(),
            final(self)@ == old(self)@.report(task_id@, percent, stage@),
            forall|id: u128| final(self).observed(id) == old(self).observed(id),
            final(self).registered() == old(self).registered(),
    {
        self.worker_pool.report_progress(task_id, percent, stage);
    }

    pub(crate) fn notify(&mut self, title: &str, message: &str)
        requires
            old(self).wf(),
        ensures
            final(self).wf(),
            final(self)@ == old(self)@.notify(title@, message@),
            forall|id: u128| final(self).observed(id) == old(self).observed(id),
            final(self).registered() == old(self).registered(),
    {
        self.worker_pool.emit(
            AppEvent::Notification(
                crate::events::AppNotificationEvent {
                    title: title.to_owned(),
                    message: message.to_owned(),
                    notification_type: Some("info".to_owned()),
                },
            ),
        );
    }

    pub(crate) fn move_to(&mut self, id: u128, status: UrlStatus, now: i64) -> (r: bool)
        requires
            old(self).wf(),
        ensures
            final(self).wf(),
            final(self)@ == old(self)@.move_to(id, status, now as int),
            r == (change_outcome(old(self)@.pages, id, status_change(status), now as int) is Ok),
            final(self).registered() == old(self).registered(),
            forall|k: u128|
                final(self).observed(k) == if k == id && r {
                    crate::store::extended(
                        old(self).observed(k),
                        lookup_id(old(self)@.pages, id).unwrap().status,
                        status,
                    )
                } else {
                    old(self).observed(k)
                },
    {
        let before = match self.url_service.get_url_by_id(id) {
            Some(page) => page.status,
            None => {
                return false;
            },
        };
        match self.url_service.update_url_status(id, status, now) {
            Ok(_) => {
                if before != status {
                    self.worker_pool.emit(
                        AppEvent::UrlStatusUpdated(
                            crate::events::UrlStatusUpdatedEvent {
                                url_id: crate::ids::id_text(id),
                                status: status.to_text(),
                            },
                        ),
                    );
                }
                true
            },
            Err(_) => false,
        }
    }

    /// Takes out of the cache every page of the version that still awaits
    /// its crawl, and returns how many such pages there are.
    pub fn check_and_unmark_pending_urls(&mut self, technology_id: u128, version_id: u128) -> (r:
        usize)
        requires
            old(self).wf(),
        ensures
            final(self).wf(),
            final(self)@ == (EngineView {
                processed: without_pending(old(self)@.processed, old(self)@.pages, version_id),
                ..old(self)@
            }),
            r == count_pending(old(self)@.pages, version_id),
            forall|id: u128| final(self).observed(id) == old(self).observed(id),
            final(self).registered() == old(self).registered(),
    {
        let pages = self.url_service.get_urls_for_version(version_id, false);
        let ghost listed = crate::store::page_views(pages@);
        let mut count: usize = 0;
        let mut i: usize = 0;
        proof {
            lemma_pending_by_version(old(self)@.pages, version_id, old(self)@.processed);
            assert(listed.take(0) =~= Seq::empty());
        }
        while i < pages.len()
            invariant
                i <= pages@.len(),
                self.wf(),
                listed == crate::store::page_views(pages@),
                self@ == (EngineView {
                    processed: without_pending(
                        old(self)@.processed,
                        listed.take(i as int),
                        version_id,
                    ),
                    ..old(self)@
                }),
                count == count_pending(listed.take(i as int), version_id),
                count <= i,
                forall|id: u128| self.observed(id) == old(self).observed(id),
                self.registered() == old(self).registered(),
            decreases pages@.len() - i,
        {
            proof {
                let next = listed.take(i as int + 1);
                assert(next.drop_last() =~= listed.take(i as int));
                assert(next.last() == pages@[i as int]@);
            }
            if pages[i].version_id == version_id && pages[i].status.is_pending() {
                self.processed_urls.remove(pages[i].url.as_str());
                count += 1;
            }
            i += 1;
        }
        assert(listed.take(pages@.len() as int) =~= listed);
        count
    }

    fn seed(
        &mut self,
        config: &CrawlConfig,
        anti_paths: &Vec<String>,
        anti_keywords: &Vec<String>,
        url: &str,
        url_id: u128,
        created: bool,
        task_id: u128,
        now: i64,
    ) -> (r: Result<Submission, CrawlFailure>)
        requires
            old(self).wf(),
            views(anti_paths@) == config@.paths(),
            views(anti_keywords@) == config@.keywords(),
        ensures
            final(self).wf(),
            (final(self)@, submitted_view(r)) == old(self)@.seed(
                config@,
                url@,
                url_id,
                created,
                task_id,
                now as int,
            ),
            final(self)@.pages == old(self)@.pages,
            forall|id: u128| final(self).observed(id) == old(self).observed(id),
    {
        let skip = match config.skip_processed_urls {
            Some(b) => b,
            None => true,
        };
        if skip && self.processed_urls.contains(url) {
            let message = concat3(
                "URL ",
                config.start_url.as_str(),
                " is already processed and won't be crawled again",
            );
            self.notify("URL Already Processed", message.as_str());
            return Ok(Submission::AlreadyProcessed(crate::ids::id_text(task_id)));
        }
        let payload = TaskPayload::for_crawl(
            config.start_url.as_str(),
            config.prefix_path.as_str(),
            anti_paths.as_slice(),
            anti_keywords.as_slice(),
            skip,
            url_id,
        );
        let task = Task::with_id(
            task_id,
            "crawl_url",
            Some(config.technology_id),
            Some(config.version_id),
            payload,
            now,
        );
        let id = self.worker_pool.push_task(task);
        if created {
            self.worker_pool.emit(
                AppEvent::UrlStatusUpdated(
                    crate::events::UrlStatusUpdatedEvent {
                        url_id: crate::ids::id_text(url_id),
                        status: UrlStatus::PendingCrawl.to_text(),
                    },
                ),
            );
        }
        let message = concat2("Started crawling from URL: ", config.start_url.as_str());
        self.notify("Crawling Started", message.as_str());
        Ok(Submission::Queued(id))
    }

    /// Submits a crawl, with the ids to use for a new page and for the
    /// task, and the present time.
    ///
    /// A seed that is no URL, or that the crawl's own filters exclude, is
    /// refused: nothing changes and no task is made. Otherwise the crawl
    /// is registered as running, the seed's page is found in the store or
    /// added to it, and a crawl task for it is queued, unless the crawl
    /// uses the cache and the cache holds the seed.
    pub fn start_crawling_as(&mut self, config: &CrawlConfig, page_id: u128, task_id: u128, now: i64)
        -> (r: Result<Submission, CrawlFailure>)
        requires
            old(self).wf(),
        ensures
            final(self).wf(),
            (final(self)@, submitted_view(r)) == old(self)@.submit(
                config@,
                page_id,
                task_id,
                now as int,
            ),
            forall|id: u128|
                final(self).observed(id) == if final(self)@.pages.len() > old(self)@.pages.len()
                    && id == page_id {
                    seq![UrlStatus::PendingCrawl]
                } else {
                    old(self).observed(id)
                },
    {
        let url = match crate::urls::try_normalize_url(config.start_url.as_str()) {
            Ok(url) => url,
            Err(reason) => {
                return Err(CrawlFailure::InvalidUrl(reason));
            },
        };
        let anti_paths: Vec<String> = match &config.anti_paths {
            Some(list) => crate::filter::clone_strings(list.as_slice()),
            None => {
                let none: Vec<String> = Vec::new();
                assert(views(none@) =~= Seq::<Seq<char>>::empty());
                none
            },
        };
        let anti_keywords = normalize_anti_keywords(&config.anti_keywords);
        if !should_crawl(
            url.as_str(),
            config.prefix_path.as_str(),
            anti_paths.as_slice(),
            anti_keywords.as_slice(),
        ) {
            return Err(CrawlFailure::OutOfScope(config.start_url.clone()));
        }
        self.active_crawls.start(config.technology_id, config.version_id);
        let _ = self.check_and_unmark_pending_urls(config.technology_id, config.version_id);
        assert(forall|id: u128| self.observed(id) == old(self).observed(id));
        assert(self@.pages == old(self)@.pages);
        match self.url_service.get_url_by_url(
            config.technology_id,
            config.version_id,
            url.as_str(),
        ) {
            Some(page) => self.seed(
                config,
                &anti_paths,
                &anti_keywords,
                url.as_str(),
                page.id,
                false,
                task_id,
                now,
            ),
            None => {
                match self.url_service.add_url_as(
                    url.as_str(),
                    config.technology_id,
                    config.version_id,
                    page_id,
                    now,
                ) {
                    Ok(page) => {
                        assert(self@.pages.len() > old(self)@.pages.len());
                        assert(forall|id: u128|
                            self.observed(id) == if id == page_id {
                                seq![UrlStatus::PendingCrawl]
                            } else {
                                old(self).observed(id)
                            });
                        self.seed(
                            config,
                            &anti_paths,
                            &anti_keywords,
                            url.as_str(),
                            page_id,
                            true,
                            task_id,
                            now,
                        )
                    },
                    Err(e) => {
                        assert(self@.pages == old(self)@.pages);
                        assert(forall|id: u128| self.observed(id) == old(self).observed(id));
                        Err(CrawlFailure::Store(e))
                    },
                }
            },
        }
    }

    /// Submits a crawl. A new page and the task get random ids, and the
    /// present time is taken from the clock: the outcome is that of
    /// [`Self::start_crawling_as`] for some ids and some time.
    pub fn start_crawling(&mut self, config: &CrawlConfig) -> (r: Result<Submission, CrawlFailure>)
        requires
            old(self).wf(),
        ensures
            final(self).wf(),
            exists|page_id: u128, task_id: u128, now: i64|
                {
                    &&& (final(self)@, submitted_view(r)) == #[trigger] old(self)@.submit(
                        config@,
                        page_id,
                        task_id,
                        now as int,
                    )
                    &&& forall|k: u128|
                        final(self).observed(k) == if k == page_id
                            && final(self)@.pages.len() > old(self)@.pages.len() {
                            seq![UrlStatus::PendingCrawl]
                        } else {
                            old(self).observed(k)
                        }
                },
    {
        let page_id = crate::ids::random_id();
        let task_id = crate::ids::random_id();
        let now = crate::ids::now_millis();
        self.start_crawling_as(config, page_id, task_id, now)
    }

    fn claim(&mut self, job: &CrawlJob, url: &str, page: &DocumentationUrl, now: i64) -> (r:
        CrawlStep)
        requires
            old(self).wf(),
            lookup_id(old(self)@.pages, page.id) == Some(page@),
        ensures
            final(self).wf(),
            (final(self)@, r@) == old(self)@.claim(job@, url@, page@, now as int),
            forall|k: u128|
                final(self).observed(k) == old(self)@.claim_path(
                    job@,
                    page@,
                    k,
                    old(self).observed(k),
                ),
    {
        let status = page.status;
        if status == UrlStatus::Crawling && has_id(&self.in_flight, page.id) {
            self.report(job.task_id.as_str(), 100, "already_processed");
            return CrawlStep::Finished(Ok(()));
        }
        if job.skip_processed && status == UrlStatus::Processed {
            self.report(job.task_id.as_str(), 100, "already_processed");
            return CrawlStep::Finished(Ok(()));
        }
        if status.is_resting() || status == UrlStatus::PendingCrawl || status
            == UrlStatus::Crawling {
            if status.is_resting() {
                proof {
                    crate::store::lemma_change_is_seen(
                        self@.pages,
                        page.id,
                        status_change(UrlStatus::PendingCrawl),
                        now as int,
                        page.id,
                    );
                }
                let _ = self.move_to(page.id, UrlStatus::PendingCrawl, now);
            }
            if status != UrlStatus::Crawling {
                proof {
                    crate::store::lemma_change_is_seen(
                        self@.pages,
                        page.id,
                        status_change(UrlStatus::Crawling),
                        now as int,
                        page.id,
                    );
                }
                let _ = self.move_to(page.id, UrlStatus::Crawling, now);
            }
            let ghost flying = self.in_flight@;
            let ghost moved = *self;
            self.in_flight.push(page.id);
            proof {
                lemma_push_set(flying, page.id);
                assert forall|k: u128|
                    self.observed(k) == old(self)@.claim_path(
                        job@,
                        page@,
                        k,
                        old(self).observed(k),
                    ) by {
                    assert(self.observed(k) == moved.observed(k));
                }
            }
            self.report(job.task_id.as_str(), 40, "fetching_content");
            CrawlStep::Fetch { url: url.to_owned(), url_id: page.id }
        } else {
            self.report(job.task_id.as_str(), 100, "already_processed");
            CrawlStep::Finished(Ok(()))
        }
    }

    /// Turns a crawl task to the page at `url`: the page is found in the
    /// store or added to it under `fresh_id`, and then claimed for the
    /// task. The result says whether the page is to be fetched.
    pub fn crawl_url(&mut self, job: &CrawlJob, url: &str, fresh_id: u128, now: i64) -> (r:
        CrawlStep)
        requires
            old(self).wf(),
        ensures
            final(self).wf(),
            (final(self)@, r@) == old(self)@.crawl_url(job@, url@, fresh_id, now as int),
            forall|k: u128|
                final(self).observed(k) == old(self)@.crawl_url_path(
                    job@,
                    url@,
                    fresh_id,
                    k,
                    old(self).observed(k),
                ),
    {
        match self.url_service.get_url_by_url(job.technology_id, job.version_id, url) {
            Some(page) => {
                proof {
                    crate::store::lemma_index_of_url(
                        self@.pages,
                        job.technology_id,
                        job.version_id,
                        url@,
                    );
                    let i = crate::store::index_of_url(
                        self@.pages,
                        job.technology_id,
                        job.version_id,
                        url@,
                    ).unwrap();
                    crate::store::lemma_index_of_id_unique(self@.pages, i);
                }
                self.claim(job, url, &page, now)
            },
            None => {
                match self.url_service.add_url_as(
                    url,
                    job.technology_id,
                    job.version_id,
                    fresh_id,
                    now,
                ) {
                    Ok(page) => {
                        self.worker_pool.emit(
                            AppEvent::UrlStatusUpdated(
                                crate::events::UrlStatusUpdatedEvent {
                                    url_id: crate::ids::id_text(fresh_id),
                                    status: UrlStatus::PendingCrawl.to_text(),
                                },
                            ),
                        );
                        proof {
                            let n = self@.pages.len() - 1;
                            assert(self@.pages[n] == page@);
                            crate::store::lemma_index_of_id_unique(self@.pages, n);
                            assert(seq![UrlStatus::PendingCrawl].push(UrlStatus::Crawling)
                                =~= seq![UrlStatus::PendingCrawl, UrlStatus::Crawling]);
                        }
                        self.claim(job, url, &page, now)
                    },
                    Err(e) => CrawlStep::Finished(Err(CrawlFailure::Store(e))),
                }
            },
        }
    }

    fn skip(&mut self, job: &CrawlJob, url: &str, now: i64)
        requires
            old(self).wf(),
        ensures
            final(self).wf(),
            final(self)@ == old(self)@.skip(job@, url@, now as int),
            forall|k: u128|
                final(self).observed(k) == old(self)@.skip_path(
                    job@,
                    url@,
                    now as int,
                    k,
                    old(self).observed(k),
                ),
    {
        self.report(job.task_id.as_str(), 100, "skipped");
        match self.url_service.get_url_by_url(job.technology_id, job.version_id, url) {
            Some(page) => {
                let _ = self.move_to(page.id, UrlStatus::Skipped, now);
            },
            None => {},
        }
        let ghost moved = *self;
        if job.skip_processed {
            self.mark_url_processed(url);
        }
        assert forall|k: u128|
            self.observed(k) == old(self)@.skip_path(
                job@,
                url@,
                now as int,
                k,
                old(self).observed(k),
            ) by {
            assert(self.observed(k) == moved.observed(k));
        }
    }

    /// Begins a crawl task, with the id to use should the page be new,
    /// and the present time. The result says whether the page is to be
    /// fetched or the task is over.
    ///
    /// The task is over at once, and well, where its filters exclude the
    /// URL (the page is then `Skipped`), where the cache hides the URL,
    /// where the page is stored as `Processed` and the crawl passes over
    /// what was handled before, and where the page is past its crawl or
    /// being fetched by another task. It is over with a failure where the
    /// text is no URL.
    pub fn begin_crawl(&mut self, job: &CrawlJob, fresh_id: u128, now: i64) -> (r: CrawlStep)
        requires
            old(self).wf(),
        ensures
            final(self).wf(),
            (final(self)@, r@) == old(self)@.begin(job@, fresh_id, now as int),
            forall|k: u128|
                final(self).observed(k) == old(self)@.begin_path(
                    job@,
                    fresh_id,
                    now as int,
                    k,
                    old(self).observed(k),
                ),
    {
        if self.worker_pool.is_cancelled(job.task_id.as_str()) {
            return CrawlStep::Finished(Err(CrawlFailure::Cancelled));
        }
        self.report(job.task_id.as_str(), 20, "filtering");
        let url = match crate::urls::try_normalize_url(job.url.as_str()) {
            Ok(url) => url,
            Err(reason) => {
                return CrawlStep::Finished(Err(CrawlFailure::InvalidUrl(reason)));
            },
        };
        let ghost started = *self;
        match self.url_service.get_url_by_url(job.technology_id, job.version_id, url.as_str()) {
            Some(page) => {
                if page.status.is_pending() {
                    self.unmark_url_processed(url.as_str());
                }
            },
            None => {},
        }
        assert forall|k: u128| self.observed(k) == old(self).observed(k) by {
            assert(self.observed(k) == started.observed(k));
        }
        if !self.admits(job, url.as_str()) {
            self.skip(job, url.as_str(), now);
            return CrawlStep::Finished(Ok(()));
        }
        if job.skip_processed && self.is_url_processed_async(
            url.as_str(),
            job.technology_id,
            job.version_id,
        ) {
            self.report(job.task_id.as_str(), 100, "already_processed");
            return CrawlStep::Finished(Ok(()));
        }
        self.report(job.task_id.as_str(), 30, "crawling");
        self.crawl_url(job, url.as_str(), fresh_id, now)
    }

    /// Begins a crawl task. A page that is new gets a random id, and the
    /// present time is taken from the clock: the outcome is that of
    /// [`Self::begin_crawl`] for some id and some time.
    pub fn process_url_with_links(
        &mut self,
        task_id: &str,
        technology_id: u128,
        version_id: u128,
        url: &str,
        prefix_path: &str,
        anti_paths: &[String],
        anti_keywords: &[String],
        skip_processed: bool,
    ) -> (r: CrawlStep)
        requires
            old(self).wf(),
        ensures
            final(self).wf(),
            exists|fresh_id: u128, now: i64|
                {
                    &&& (final(self)@, r@) == #[trigger] old(self)@.begin(
                        (JobView {
                            task_id: task_id@,
                            technology_id,
                            version_id,
                            url: url@,
                            prefix_path: prefix_path@,
                            anti_paths: views(anti_paths@),
                            anti_keywords: views(anti_keywords@),
                            skip_processed,
                        }),
                        fresh_id,
                        now as int,
                    )
                    &&& forall|k: u128|
                        final(self).observed(k) == old(self)@.begin_path(
                            (JobView {
                                task_id: task_id@,
                                technology_id,
                                version_id,
                                url: url@,
                                prefix_path: prefix_path@,
                                anti_paths: views(anti_paths@),
                                anti_keywords: views(anti_keywords@),
                                skip_processed,
                            }),
                            fresh_id,
                            now as int,
                            k,
                            old(self).observed(k),
                        )
                },
    {
        let job = CrawlJob {
            task_id: task_id.to_owned(),
            technology_id,
            version_id,
            url: url.to_owned(),
            prefix_path: prefix_path.to_owned(),
            anti_paths: crate::filter::clone_strings(anti_paths),
            anti_keywords: crate::filter::clone_strings(anti_keywords),
            skip_processed,
        };
        let fresh_id = crate::ids::random_id();
        let now = crate::ids::now_millis();
        self.begin_crawl(&job, fresh_id, now)
    }

    fn release(&mut self, url_id: u128)
        requires
            old(self).wf(),
        ensures
            final(self).wf(),
            final(self)@ == old(self)@.release(url_id),
            forall|id: u128| final(self).observed(id) == old(self).observed(id),
    {
        let mut kept: Vec<u128> = Vec::new();
        let mut i: usize = 0;
        assert(self.in_flight@.take(0) =~= Seq::<u128>::empty());
        assert(kept@.to_set() =~= self.in_flight@.take(0).to_set().remove(url_id));
        while i < self.in_flight.len()
            invariant
                i <= self.in_flight@.len(),
                kept@.to_set() == self.in_flight@.take(i as int).to_set().remove(url_id),
            decreases self.in_flight@.len() - i,
        {
            let ghost seen = self.in_flight@.take(i as int);
            let ghost item = self.in_flight@[i as int];
            let ghost kept_before = kept@;
            proof {
                assert(self.in_flight@.take(i as int + 1) =~= seen.push(item));
                lemma_push_set(seen, item);
                lemma_push_set(kept_before, item);
            }
            if self.in_flight[i] != url_id {
                kept.push(self.in_flight[i]);
                assert(kept@.to_set() =~= seen.push(item).to_set().remove(url_id));
            } else {
                assert(kept@.to_set() =~= seen.push(item).to_set().remove(url_id));
            }
            i += 1;
        }
        assert(self.in_flight@.take(self.in_flight@.len() as int) =~= self.in_flight@);
        self.in_flight = kept;
    }

    /// Takes in the outcome of the fetch that [`Self::begin_crawl`] asked
    /// for. On content with its Markdown, the page is stored as `Crawled`
    /// and the pages that it links to are returned: each once, in normal
    /// form, in order. A fetch that failed or timed out, and content of
    /// which no Markdown could be made, leave the page at `CrawlError`,
    /// and no links are looked for.
    pub fn finish_fetch(
        &mut self,
        job: &CrawlJob,
        url: &str,
        url_id: u128,
        outcome: &FetchOutcome,
        now: i64,
    ) -> (r: Result<Vec<String>, CrawlFailure>)
        requires
            old(self).wf(),
        ensures
            final(self).wf(),
            final(self)@ == old(self)@.finish_fetch(job@, url@, url_id, outcome@, now as int).0,
            match r {
                Ok(links) => old(self)@.finish_fetch(job@, url@, url_id, outcome@, now as int).1
                    is Ok && (outcome@ matches FetchView::Content { html, markdown }
                    && is_candidates(views(links@), html, url@)),
                Err(e) => old(self)@.finish_fetch(job@, url@, url_id, outcome@, now as int).1
                    == Err::<(), FailureView>(e@),
            },
            forall|k: u128|
                final(self).observed(k) == old(self)@.finish_fetch_path(
                    url_id,
                    outcome@,
                    now as int,
                    k,
                    old(self).observed(k),
                ),
    {
        self.release(url_id);
        match outcome {
            FetchOutcome::Failed(m) => {
                let _ = self.move_to(url_id, UrlStatus::CrawlError, now);
                self.report(job.task_id.as_str(), 100, "error");
                if job.skip_processed {
                    self.mark_url_processed(url);
                }
                Err(CrawlFailure::FetchFailed(m.clone()))
            },
            FetchOutcome::TimedOut => {
                let _ = self.move_to(url_id, UrlStatus::CrawlError, now);
                self.report(job.task_id.as_str(), 100, "timeout");
                if job.skip_processed {
                    self.mark_url_processed(url);
                }
                Err(CrawlFailure::FetchTimedOut(url.to_owned()))
            },
            FetchOutcome::Content { html, markdown: None } => {
                self.report(job.task_id.as_str(), 60, "converting_to_markdown");
                let _ = self.move_to(url_id, UrlStatus::CrawlError, now);
                self.report(job.task_id.as_str(), 100, "markdown_error");
                if job.skip_processed {
                    self.mark_url_processed(url);
                }
                assert(self@ == old(self)@.report(
                    job.task_id@,
                    60,
                    "converting_to_markdown"@,
                ).fetch_failed(job@, url@, url_id, "markdown_error"@, now as int));
                Err(CrawlFailure::ConversionFailed)
            },
            FetchOutcome::Content { html, markdown: Some(text) } => {
                self.report(job.task_id.as_str(), 60, "converting_to_markdown");
                let markdown = text.clone();
                self.report(job.task_id.as_str(), 80, "updating_content");
                let before = match self.url_service.get_url_by_id(url_id) {
                    Some(page) => Some(page.status),
                    None => None,
                };
                let change = crate::store::FieldChange {
                    status: Some(UrlStatus::Crawled),
                    html: Some(Some(html.clone())),
                    markdown: Some(Some(markdown)),
                    cleaned_markdown: None,
                    is_processed: None,
                };
                match self.url_service.apply_change(url_id, &change, now) {
                    Err(e) => {
                        return Err(CrawlFailure::Store(e));
                    },
                    Ok(_) => {},
                }
                match before {
                    Some(status) => {
                        if status != UrlStatus::Crawled {
                            self.worker_pool.emit(
                                AppEvent::UrlStatusUpdated(
                                    crate::events::UrlStatusUpdatedEvent {
                                        url_id: crate::ids::id_text(url_id),
                                        status: UrlStatus::Crawled.to_text(),
                                    },
                                ),
                            );
                        }
                    },
                    None => {},
                }
                if html.as_str().is_empty() {
                    return Err(CrawlFailure::EmptyContent);
                }
                self.report(job.task_id.as_str(), 60, "extracting_links");
                Ok(candidate_links(html.as_str(), url))
            },
        }
    }

    fn hand_over(
        &mut self,
        job: &CrawlJob,
        link: &str,
        url_id: u128,
        task_id: u128,
        now: i64,
        decision: LinkDecision,
    ) -> (r: LinkDecision)
        requires
            old(self).wf(),
        ensures
            final(self).wf(),
            (final(self)@, r) == old(self)@.hand_over(
                job@,
                link@,
                url_id,
                task_id,
                now as int,
                decision,
            ),
            forall|k: u128| final(self).observed(k) == old(self).observed(k),
    {
        let payload = TaskPayload::for_crawl(
            link,
            job.prefix_path.as_str(),
            job.anti_paths.as_slice(),
            job.anti_keywords.as_slice(),
            job.skip_processed,
            url_id,
        );
        let task = Task::with_id(
            task_id,
            "crawl_url",
            Some(job.technology_id),
            Some(job.version_id),
            payload,
            now,
        );
        let _ = self.push_task(task);
        if job.skip_processed {
            self.mark_url_processed(link);
        }
        decision
    }

    /// Deals with one link of the page at `base`, with the ids to use for
    /// a new page and for the task. Before anything else the task's
    /// cancellation flag is read: once it is set, no link leads to a new
    /// task.
    pub fn enqueue_link(
        &mut self,
        job: &CrawlJob,
        base: &str,
        link: &str,
        page_id: u128,
        task_id: u128,
        now: i64,
    ) -> (r: LinkDecision)
        requires
            old(self).wf(),
        ensures
            final(self).wf(),
            (final(self)@, r) == old(self)@.link_step(
                job@,
                base@,
                link@,
                page_id,
                task_id,
                now as int,
            ),
            forall|k: u128|
                final(self).observed(k) == old(self)@.link_step_path(
                    job@,
                    base@,
                    link@,
                    page_id,
                    task_id,
                    now as int,
                    k,
                    old(self).observed(k),
                ),
    {
        if self.worker_pool.is_cancelled(job.task_id.as_str()) {
            return LinkDecision::Cancelled;
        }
        if crate::text::str_eq(link, base) {
            return LinkDecision::SelfLink;
        }
        if job.skip_processed && self.is_url_processed_async(
            link,
            job.technology_id,
            job.version_id,
        ) {
            return LinkDecision::AlreadyHandled;
        }
        if !should_crawl(
            link,
            job.prefix_path.as_str(),
            job.anti_paths.as_slice(),
            job.anti_keywords.as_slice(),
        ) {
            if job.skip_processed {
                self.mark_url_processed(link);
            }
            return LinkDecision::OutOfScope;
        }
        match self.url_service.get_url_by_url(job.technology_id, job.version_id, link) {
            Some(page) => {
                if !page.status.is_pending() {
                    if job.skip_processed {
                        self.mark_url_processed(link);
                    }
                    LinkDecision::AlreadyKnown
                } else {
                    self.hand_over(job, link, page.id, task_id, now, LinkDecision::Enqueued)
                }
            },
            None => {
                match self.url_service.add_url_as(
                    link,
                    job.technology_id,
                    job.version_id,
                    page_id,
                    now,
                ) {
                    Ok(_) => {
                        self.worker_pool.emit(
                            AppEvent::UrlStatusUpdated(
                                crate::events::UrlStatusUpdatedEvent {
                                    url_id: crate::ids::id_text(page_id),
                                    status: UrlStatus::PendingCrawl.to_text(),
                                },
                            ),
                        );
                        self.hand_over(job, link, page_id, task_id, now, LinkDecision::Created)
                    },
                    Err(_) => LinkDecision::Refused,
                }
            },
        }
    }

    /// Deals with the links of the page at `base`, one after the other.
    /// Pages that are new and the tasks get random ids, and the present
    /// time is taken from the clock: the outcome is that of
    /// [`Self::enqueue_link`] on each link in turn, for some ids and some
    /// time. Returns how many tasks were queued.
    pub fn enqueue_links(&mut self, job: &CrawlJob, base: &str, links: &Vec<String>) -> (r: usize)
        requires
            old(self).wf(),
        ensures
            final(self).wf(),
            exists|ids: Seq<(u128, u128)>, now: i64|
                {
                    &&& ids.len() == links@.len()
                    &&& final(self)@ == #[trigger] old(self)@.expand(
                        job@,
                        base@,
                        views(links@),
                        ids,
                        now as int,
                    )
                    &&& forall|k: u128|
                        final(self).observed(k) == old(self)@.expand_path(
                            job@,
                            base@,
                            views(links@),
                            ids,
                            now as int,
                            k,
                            old(self).observed(k),
                        )
                },
            r == final(self)@.pool.queue.len() - old(self)@.pool.queue.len(),
    {
        let now = crate::ids::now_millis();
        let ghost all = views(links@);
        let ghost mut ids: Seq<(u128, u128)> = Seq::empty();
        let mut added: usize = 0;
        let mut i: usize = 0;
        assert(all.take(0) =~= Seq::<Seq<char>>::empty());
        while i < links.len()
            invariant
                i <= links@.len(),
                all == views(links@),
                self.wf(),
                ids.len() == i,
                added <= i,
                added == self@.pool.queue.len() - old(self)@.pool.queue.len(),
                self@ == old(self)@.expand(job@, base@, all.take(i as int), ids, now as int),
                forall|k: u128|
                    self.observed(k) == old(self)@.expand_path(
                        job@,
                        base@,
                        all.take(i as int),
                        ids,
                        now as int,
                        k,
                        old(self).observed(k),
                    ),
            decreases links@.len() - i,
        {
            let page_id = crate::ids::random_id();
            let task_id = crate::ids::random_id();
            proof {
                let next = all.take(i as int + 1);
                assert(next.drop_last() =~= all.take(i as int));
                assert(next.last() == links@[i as int]@);
                let more = ids.push((page_id, task_id));
                assert(more.drop_last() =~= ids);
                ids = more;
                lemma_link_step_adds(self@, job@, base@, links@[i as int]@, page_id, task_id, now as int);
            }
            let decision = self.enqueue_link(
                job,
                base,
                links[i].as_str(),
                page_id,
                task_id,
                now,
            );
            if decision == LinkDecision::Enqueued || decision == LinkDecision::Created {
                added += 1;
            }
            i += 1;
        }
        assert(all.take(links@.len() as int) =~= all);
        added
    }

    /// Takes in the outcome of a crawl task's fetch and brings the task to
    /// its end: the content is stored, the links of the page are dealt
    /// with, and completion is reported. A fetch that failed or timed out
    /// fails the task: the page is then at `CrawlError`, and its links
    /// are not looked for.
    pub fn complete_crawl(
        &mut self,
        job: &CrawlJob,
        url: &str,
        url_id: u128,
        outcome: &FetchOutcome,
    ) -> (r: Result<(), CrawlFailure>)
        requires
            old(self).wf(),
        ensures
            final(self).wf(),
            exists|now: i64, links: Seq<Seq<char>>, ids: Seq<(u128, u128)>, later: i64|
                {
                    &&& #[trigger] is_completion(
                        old(self)@,
                        final(self)@,
                        job@,
                        url@,
                        url_id,
                        outcome@,
                        crawl_result(r),
                        now as int,
                        links,
                        ids,
                        later as int,
                    )
                    &&& forall|k: u128|
                        final(self).observed(k) == old(self)@.completion_path(
                            job@,
                            url@,
                            url_id,
                            outcome@,
                            now as int,
                            links,
                            ids,
                            later as int,
                            k,
                            old(self).observed(k),
                        )
                },
    {
        let now = crate::ids::now_millis();
        let links = match self.finish_fetch(job, url, url_id, outcome, now) {
            Ok(links) => links,
            Err(e) => {
                assert(is_completion(
                    old(self)@,
                    self@,
                    job@,
                    url@,
                    url_id,
                    outcome@,
                    Err(e@),
                    now as int,
                    Seq::empty(),
                    Seq::empty(),
                    now as int,
                ));
                return Err(e);
            },
        };
        self.report(job.task_id.as_str(), 80, "queueing_links");
        let ghost pre = *self;
        let _ = self.enqueue_links(job, url, &links);
        let ghost post = *self;
        self.report(job.task_id.as_str(), 100, "completed");
        proof {
            let (ids, later) = choose|ids: Seq<(u128, u128)>, later: i64|
                {
                    &&& ids.len() == links@.len()
                    &&& post@ == #[trigger] pre@.expand(job@, url@, views(links@), ids, later as int)
                    &&& forall|k: u128|
                        post.observed(k) == pre@.expand_path(
                            job@,
                            url@,
                            views(links@),
                            ids,
                            later as int,
                            k,
                            pre.observed(k),
                        )
                };
            assert forall|k: u128|
                self.observed(k) == old(self)@.completion_path(
                    job@,
                    url@,
                    url_id,
                    outcome@,
                    now as int,
                    views(links@),
                    ids,
                    later as int,
                    k,
                    old(self).observed(k),
                ) by {
                assert(self.observed(k) == post.observed(k));
            }
            assert(is_completion(
                old(self)@,
                self@,
                job@,
                url@,
                url_id,
                outcome@,
                Ok(()),
                now as int,
                views(links@),
                ids,
                later as int,
            ));
        }
        Ok(())
    }

    pub(crate) fn change_page(&mut self, id: u128, change: &crate::store::FieldChange, now: i64)
        -> (r: Result<DocumentationUrl, StoreError>)
        requires
            old(self).wf(),
        ensures
            final(self).wf(),
            final(self)@ == (EngineView {
                pages: after_change(old(self)@.pages, id, change@, now as int),
                ..old(self)@
            }),
            match r {
                Ok(page) => change_outcome(old(self)@.pages, id, change@, now as int) == Ok::<
                    DocumentationUrlView,
                    StoreError,
                >(page@),
                Err(e) => change_outcome(old(self)@.pages, id, change@, now as int) == Err::<
                    DocumentationUrlView,
                    StoreError,
                >(e),
            },
            forall|k: u128|
                final(self).observed(k) == if k == id && r is Ok {
                    crate::store::extended(
                        old(self).observed(k),
                        lookup_id(old(self)@.pages, id).unwrap().status,
                        r.unwrap().status,
                    )
                } else {
                    old(self).observed(k)
                },
    {
        self.url_service.apply_change(id, change, now)
    }

    pub(crate) fn emit(&mut self, event: AppEvent)
        requires
            old(self).wf(),
        ensures
            final(self).wf(),
            final(self)@ == old(self)@.emit(event@),
            forall|k: u128| final(self).observed(k) == old(self).observed(k),
    {
        self.worker_pool.emit(event);
    }

    pub(crate) fn remove_page(&mut self, id: u128) -> (r: bool)
        requires
            old(self).wf(),
        ensures
            final(self).wf(),
            r == (crate::store::index_of_id(old(self)@.pages, id) is Some),
            final(self)@ == (EngineView {
                pages: match crate::store::index_of_id(old(self)@.pages, id) {
                    Some(i) => old(self)@.pages.remove(i),
                    None => old(self)@.pages,
                },
                ..old(self)@
            }),
            forall|k: u128| final(self).observed(k) == old(self).observed(k),
    {
        self.url_service.delete_url(id).is_ok()
    }

    /// Adds a page to the store, unless the store has it. See
    /// [`DocumentationUrlService::add_url_as`].
    pub fn add_url_as(
        &mut self,
        url: &str,
        technology_id: u128,
        version_id: u128,
        id: u128,
        now: i64,
    ) -> (r: Result<DocumentationUrl, StoreError>)
        requires
            old(self).wf(),
        ensures
            final(self).wf(),
            final(self)@ == (EngineView {
                pages: after_add(
                    old(self)@.pages,
                    technology_id,
                    version_id,
                    url@,
                    id,
                    now as int,
                ),
                ..old(self)@
            }),
            match lookup_url(old(self)@.pages, technology_id, version_id, url@) {
                Some(existing) => r matches Ok(page) && page@ == existing,
                None => if lookup_id(old(self)@.pages, id) is Some {
                    r == Err::<DocumentationUrl, StoreError>(StoreError::DuplicateId(id))
                } else {
                    r matches Ok(page) && page@ == crate::store::fresh_page(
                        id,
                        technology_id,
                        version_id,
                        url@,
                        now as int,
                    )
                },
            },
            forall|k: u128|
                final(self).observed(k) == if final(self)@.pages.len() > old(self)@.pages.len()
                    && k == id {
                    seq![UrlStatus::PendingCrawl]
                } else {
                    old(self).observed(k)
                },
    {
        self.url_service.add_url_as(url, technology_id, version_id, id, now)
    }

    /// Queues a task. See [`WorkerPool::queue_task`].
    pub fn queue_task(&mut self, task: Task) -> (r: Result<String, PoolError>)
        requires
            old(self).wf(),
        ensures
            final(self).wf(),
            final(self)@ == (EngineView { pool: old(self)@.pool.enqueue(task@), ..old(self)@ }),
            r matches Ok(id) && id@ == task.id@,
            forall|k: u128| final(self).observed(k) == old(self).observed(k),
    {
        self.worker_pool.queue_task(task)
    }

    pub(crate) fn push_task(&mut self, task: Task) -> (id: String)
        requires
            old(self).wf(),
        ensures
            final(self).wf(),
            final(self)@ == (EngineView { pool: old(self)@.pool.enqueue(task@), ..old(self)@ }),
            id@ == task.id@,
            forall|k: u128| final(self).observed(k) == old(self).observed(k),
            final(self).registered() == old(self).registered(),
    {
        self.worker_pool.push_task(task)
    }

    /// Cancels a task. See [`WorkerPool::cancel_task`].
    pub fn cancel_task(&mut self, task_id: &str) -> (r: Result<(), PoolError>)
        requires
            old(self).wf(),
        ensures
            final(self).wf(),
            final(self)@ == (EngineView { pool: old(self)@.pool.cancel(task_id@), ..old(self)@ }),
            match r {
                Ok(_) => old(self)@.pool.knows(task_id@) && final(self)@.pool.cancelled(task_id@),
                Err(e) => !old(self)@.pool.knows(task_id@) && e == PoolError::TaskNotFound,
            },
            forall|k: u128| final(self).observed(k) == old(self).observed(k),
    {
        self.worker_pool.cancel_task(task_id)
    }

    /// Hands the next task to a worker. See [`WorkerPool::take_next`].
    pub fn take_next(&mut self) -> (r: crate::pool::Dispatch)
        requires
            old(self).wf(),
        ensures
            final(self).wf(),
            final(self)@ == (EngineView { pool: old(self)@.pool.take_next(), ..old(self)@ }),
            match r {
                crate::pool::Dispatch::Idle => old(self)@.pool.queue.len() == 0,
                crate::pool::Dispatch::Dropped(t) => old(self)@.pool.queue.len() > 0 && old(self)@.pool.queue[0].cancelled && t@ == old(self)@.pool.queue[0].task,
                crate::pool::Dispatch::Run(t) => old(self)@.pool.queue.len() > 0 && !old(self)@.pool.queue[0].cancelled && t@ == (TaskView {
                    status: crate::task::TaskStatus::Running,
                    ..old(self)@.pool.queue[0].task
                }),
            },
            forall|k: u128| final(self).observed(k) == old(self).observed(k),
    {
        self.worker_pool.take_next()
    }

    /// Closes a running task with the result of its work: the task leaves
    /// the scheduler, and exactly one event reports how it ended. Returns
    /// the status with which the task ended.
    pub fn close_task(
        &mut self,
        task_id: &str,
        url_id: u128,
        snippets_count: Option<usize>,
        result: &Result<(), CrawlFailure>,
    ) -> (r: Result<crate::task::TaskStatus, PoolError>)
        requires
            old(self).wf(),
        ensures
            final(self).wf(),
            final(self)@ == (EngineView {
                pool: old(self)@.pool.finish(
                    task_id@,
                    outcome_of(url_id, snippets_count, crawl_result(*result)),
                ),
                ..old(self)@
            }),
            match slot_index(old(self)@.pool.active, task_id@) {
                Some(i) => r == Ok::<crate::task::TaskStatus, PoolError>(
                    PoolView::closing_status(
                        old(self)@.pool.active[i],
                        outcome_of(url_id, snippets_count, crawl_result(*result)),
                    ),
                ),
                None => r == Err::<crate::task::TaskStatus, PoolError>(PoolError::TaskNotFound),
            },
            forall|k: u128| final(self).observed(k) == old(self).observed(k),
    {
        let outcome = match result {
            Ok(_) => crate::pool::TaskOutcome::Completed(
                crate::events::TaskCompletedResult { snippets_count, url_id },
            ),
            Err(e) => crate::pool::TaskOutcome::Failed(e.message()),
        };
        self.worker_pool.finish_task(task_id, outcome)
    }

    /// Whether a crawl task may crawl a URL: both the filters that the
    /// task carries and those stored for its version at present must let
    /// the URL pass.
    pub fn admits(&self, job: &CrawlJob, url: &str) -> (r: bool)
        ensures
            r == self@.admits(job@, url@),
    {
        if !should_crawl(
            url,
            job.prefix_path.as_str(),
            job.anti_paths.as_slice(),
            job.anti_keywords.as_slice(),
        ) {
            return false;
        }
        match self.settings.get_for_version(job.version_id) {
            Some(stored) => {
                let f = filters_of(&stored);
                should_crawl(
                    url,
                    f.prefix_path.as_str(),
                    f.anti_paths.as_slice(),
                    f.anti_keywords.as_slice(),
                )
            },
            None => true,
        }
    }

    /// The crawl settings that are stored for a version.
    pub fn get_crawling_settings_for_version(&self, version_id: u128) -> (r: Option<
        CrawlingSettings,
    >)
        ensures
            match r {
                Some(s) => first_where(self@.settings, settings_of(version_id), 0) matches Some(i)
                    && s == self@.settings[i],
                None => first_where(self@.settings, settings_of(version_id), 0) is None,
            },
    {
        self.settings.get_for_version(version_id)
    }

    /// The crawl settings of a version; where it has none, empty settings
    /// are stored for it under the id `fresh_id`, made at `now`.
    pub fn get_or_create_default_settings(&mut self, version_id: u128, fresh_id: u128, now: i64)
        -> (r: CrawlingSettings)
        requires
            old(self).wf(),
        ensures
            final(self).wf(),
            match first_where(old(self)@.settings, settings_of(version_id), 0) {
                Some(i) => r == old(self)@.settings[i] && final(self)@ == old(self)@,
                None => r == (CrawlingSettings {
                    id: fresh_id,
                    version_id,
                    prefix_path: None,
                    anti_paths: None,
                    anti_keywords: None,
                    created_at: now,
                    updated_at: now,
                }) && final(self)@ == (EngineView {
                    settings: old(self)@.settings.push(r),
                    ..old(self)@
                }),
            },
            forall|id: u128| final(self).observed(id) == old(self).observed(id),
            final(self).registered() == old(self).registered(),
    {
        self.settings.get_or_create_default(version_id, fresh_id, now)
    }

    /// Stores the crawl settings of a version: in place of those that the
    /// version has, whose id they take over, or else as new settings
    /// under the id `fresh_id`.
    pub fn save_crawling_settings(&mut self, crawl_settings: CrawlingSettings, fresh_id: u128)
        -> (r: CrawlingSettings)
        requires
            old(self).wf(),
        ensures
            final(self).wf(),
            match first_where(old(self)@.settings, settings_of(crawl_settings.version_id), 0) {
                Some(i) => r == (CrawlingSettings {
                    id: old(self)@.settings[i].id,
                    ..crawl_settings
                }) && final(self)@ == (EngineView {
                    settings: old(self)@.settings.update(i, r),
                    ..old(self)@
                }),
                None => r == (CrawlingSettings { id: fresh_id, ..crawl_settings }) && final(self)@ == (EngineView { settings: old(self)@.settings.push(r), ..old(self)@ }),
            },
            forall|id: u128| final(self).observed(id) == old(self).observed(id),
            final(self).registered() == old(self).registered(),
    {
        self.settings.save_for_version(crawl_settings, fresh_id)
    }

    /// Stops all crawls: every registered crawl is marked as stopped, and
    /// every queued or running crawl task is cancelled, whatever
    /// technology and version it belongs to. The stop is reported to the
    /// user. Fails where there was nothing to stop.
    pub fn stop_all_crawling(&mut self) -> (r: Result<(), CrawlFailure>)
        requires
            old(self).wf(),
        ensures
            final(self).wf(),
            final(self)@.pages == old(self)@.pages,
            final(self)@.processed == old(self)@.processed,
            final(self)@.in_flight == old(self)@.in_flight,
            final(self)@.crawls.dom() == old(self)@.crawls.dom(),
            forall|k: (u128, u128)|
                final(self)@.crawls.dom().contains(k) ==> !(#[trigger] final(self)@.crawls[k]),
            final(self)@.pool == (PoolView {
                events: old(self)@.pool.events.push(
                    EventView::Notification {
                        title: "Crawling Stopped"@,
                        message: stop_message(
                            old(self).registered(),
                            crawl_tasks(old(self)@.pool),
                        ),
                        notification_type: Some("info"@),
                    },
                ),
                ..old(self)@.pool.cancel_all(TaskKind::CrawlUrl)
            }),
            r is Ok <==> (old(self).registered() > 0 || crawl_tasks(old(self)@.pool) > 0),
            r matches Err(e) ==> e@ == FailureView::NoActiveCrawl,
            forall|id: u128| final(self).observed(id) == old(self).observed(id),
            final(self).registered() == old(self).registered(),
    {
        let count = self.active_crawls.stop_all();
        let cancelled = self.worker_pool.cancel_all(TaskKind::CrawlUrl);
        let tasks: u128 = cancelled.0 as u128 + cancelled.1 as u128;
        let message = stop_text(count, tasks);
        self.notify("Crawling Stopped", message.as_str());
        if count > 0 || tasks > 0 {
            Ok(())
        } else {
            Err(CrawlFailure::NoActiveCrawl)
        }
    }

    /// Stops the crawl of one technology and version: its registry entry
    /// is marked as stopped, which is reported to the user. Tasks are not
    /// touched. Fails where no crawl of the pair is registered, and says
    /// of which pair.
    pub fn stop_tech_version_crawling(&mut self, technology_id: u128, version_id: u128) -> (r:
        Result<(), CrawlFailure>)
        requires
            old(self).wf(),
        ensures
            final(self).wf(),
            r is Ok <==> old(self)@.crawls.dom().contains((technology_id, version_id)),
            r is Ok ==> final(self)@ == (EngineView {
                crawls: old(self)@.crawls.insert((technology_id, version_id), false),
                ..old(self)@
            }).notify(
                "Crawling Stopped"@,
                "Stopped crawling for technology "@ + uuid_text(technology_id) + " version "@
                    + uuid_text(version_id),
            ),
            r matches Err(e) ==> e@ == FailureView::NoActiveCrawlFor(technology_id, version_id)
                && final(self)@ == old(self)@,
            forall|id: u128| final(self).observed(id) == old(self).observed(id),
    {
        if self.active_crawls.stop(technology_id, version_id) {
            let mut message = "Stopped crawling for technology ".to_owned();
            message.append(crate::ids::id_text(technology_id).as_str());
            message.append(" version ");
            message.append(crate::ids::id_text(version_id).as_str());
            self.notify("Crawling Stopped", message.as_str());
            Ok(())
        } else {
            Err(CrawlFailure::NoActiveCrawlFor(technology_id, version_id))
        }
    }
}

/// The number of queued and running crawl tasks.
pub open spec fn crawl_tasks(pool: PoolView) -> nat {
    count_kind(pool.queue, TaskKind::CrawlUrl) + count_kind(pool.active, TaskKind::CrawlUrl)
}

fn stop_text(crawls: usize, tasks: u128) -> (r: String)
    ensures
        r@ == stop_message(crawls as nat, tasks as nat),
{
    let mut message = "Stopped ".to_owned();
    message.append(number_text(crawls as u128).as_str());
    message.append(" active crawling processes (");
    message.append(number_text(tasks).as_str());
    message.append(" tasks cancelled)");
    message
}

/// Listing the pages of a version loses nothing that the pending pages of
/// the version are found by.
proof fn lemma_pending_by_version(
    pages: Seq<DocumentationUrlView>,
    version_id: u128,
    processed: Set<Seq<char>>,
)
    ensures
        without_pending(
            processed,
            crate::store::pages_of_version(pages, version_id, false),
            version_id,
        ) == without_pending(processed, pages, version_id),
        count_pending(crate::store::pages_of_version(pages, version_id, false), version_id)
            == count_pending(pages, version_id),
    decreases pages.len(),
{
    if pages.len() > 0 {
        lemma_pending_by_version(pages.drop_last(), version_id, processed);
        let init = crate::store::pages_of_version(pages.drop_last(), version_id, false);
        if pages.last().version_id == version_id {
            let listed = init.push(pages.last().without_content());
            assert(listed.drop_last() =~= init);
        }
    }
}


fn has_id(ids: &Vec<u128>, id: u128) -> (r: bool)
    ensures
        r == ids@.contains(id),
{
    let mut i: usize = 0;
    while i < ids.len()
        invariant
            i <= ids@.len(),
            forall|j: int| 0 <= j < i ==> ids@[j] != id,
        decreases ids@.len() - i,
    {
        if ids[i] == id {
            return true;
        }
        i += 1;
    }
    false
}


/// A strictly sorted list holds `n` in its normalized image exactly when
/// some element normalizes to `n`.
proof fn lemma_normalized_all(links: Seq<Seq<char>>, n: Seq<char>)
    ensures
        normalized_all(links).contains(n) <==> exists|l: Seq<char>|
            links.contains(l) && #[trigger] crate::urls::normalized(l) == Some(n),
    decreases links.len(),
{
    if links.len() > 0 {
        let init = links.drop_last();
        lemma_normalized_all(init, n);
        let out0 = normalized_all(init);
        let out = normalized_all(links);
        assert forall|l: Seq<char>| links.contains(l) <==> (init.contains(l) || l
            == links.last()) by {
            if links.contains(l) {
                let k = choose|k: int| 0 <= k < links.len() && links[k] == l;
                if k < init.len() {
                    assert(init[k] == l);
                }
            }
            if init.contains(l) {
                let k = choose|k: int| 0 <= k < init.len() && init[k] == l;
                assert(links[k] == l);
            }
            if l == links.last() {
                assert(links[links.len() - 1] == l);
            }
        }
        match crate::urls::normalized(links.last()) {
            Some(m) => {
                assert(out == out0.push(m));
                assert forall|x: Seq<char>| out.contains(x) <==> (out0.contains(x) || x == m) by {
                    if out.contains(x) {
                        let k = choose|k: int| 0 <= k < out.len() && out[k] == x;
                        if k < out0.len() {
                            assert(out0[k] == x);
                        }
                    }
                    if out0.contains(x) {
                        let k = choose|k: int| 0 <= k < out0.len() && out0[k] == x;
                        assert(out[k] == x);
                    }
                    if x == m {
                        assert(out[out.len() - 1] == x);
                    }
                }
                if out.contains(n) {
                    if out0.contains(n) {
                        let l = choose|l: Seq<char>|
                            init.contains(l) && #[trigger] crate::urls::normalized(l) == Some(n);
                        assert(links.contains(l));
                    } else {
                        assert(links.contains(links.last()));
                    }
                }
            },
            None => {
                if out.contains(n) {
                    let l = choose|l: Seq<char>|
                        init.contains(l) && #[trigger] crate::urls::normalized(l) == Some(n);
                    assert(links.contains(l));
                }
            },
        }
    } else {
        assert(!normalized_all(links).contains(n));
    }
}

/// The pages that a page links to: the links of its content, each in
/// normal form, sorted, each once.
pub fn candidate_links(html: &str, url: &str) -> (r: Vec<String>)
    ensures
        is_candidates(views(r@), html@, url@),
{
    let raw = crate::content::extract_links_from_html(html, url);
    let mut out: Vec<String> = Vec::new();
    let ghost all = views(raw@);
    let mut i: usize = 0;
    assert(all.take(0) =~= Seq::<Seq<char>>::empty());
    assert(views(out@) =~= Seq::<Seq<char>>::empty());
    while i < raw.len()
        invariant
            i <= raw@.len(),
            all == views(raw@),
            views(out@) == normalized_all(all.take(i as int)),
        decreases raw@.len() - i,
    {
        proof {
            let next = all.take(i as int + 1);
            assert(next.drop_last() =~= all.take(i as int));
            assert(next.last() == raw@[i as int]@);
        }
        let ghost before = views(out@);
        match crate::urls::normalize_url(raw[i].as_str()) {
            Some(n) => {
                out.push(n);
                assert(views(out@) =~= before.push(n@));
            },
            None => {},
        }
        i += 1;
    }
    assert(all.take(raw@.len() as int) =~= all);
    let ghost image = views(out@);
    let links = crate::content::sort_and_dedup(out);
    proof {
        assert forall|n: Seq<char>| views(links@).contains(n) <==> links_to(html@, url@, n) by {
            lemma_normalized_all(all, n);
            let found = if url_parse(url@) is Some {
                resolved_links(url@, anchor_targets(html@))
            } else {
                Seq::empty()
            };
            assert(forall|l: Seq<char>| all.contains(l) <==> found.contains(l));
            if views(links@).contains(n) {
                assert(image.contains(n));
                let l = choose|l: Seq<char>|
                    all.contains(l) && #[trigger] crate::urls::normalized(l) == Some(n);
                assert(found.contains(l));
            }
            if links_to(html@, url@, n) {
                let l = choose|l: Seq<char>|
                    resolved_links(url@, anchor_targets(html@)).contains(l)
                        && #[trigger] crate::urls::normalized(l) == Some(n);
                assert(all.contains(l));
            }
        }
    }
    links
}


/// A list with one more element holds what it held, and that element.
proof fn lemma_push_contains(s: Seq<u128>, x: u128, y: u128)
    ensures
        s.push(x).contains(y) <==> (s.contains(y) || y == x),
{
    let t = s.push(x);
    if t.contains(y) {
        let k = choose|k: int| 0 <= k < t.len() && t[k] == y;
        if k < s.len() {
            assert(s[k] == y);
        }
    }
    if s.contains(y) {
        let k = choose|k: int| 0 <= k < s.len() && s[k] == y;
        assert(t[k] == y);
    }
    if y == x {
        assert(t[t.len() - 1] == y);
    }
}

/// The set of a list with one more element.
proof fn lemma_push_set(s: Seq<u128>, x: u128)
    ensures
        s.push(x).to_set() == s.to_set().insert(x),
{
    assert forall|y: u128| s.push(x).to_set().contains(y) == s.to_set().insert(x).contains(
        y,
    ) by {
        lemma_push_contains(s, x, y);
    }
    assert(s.push(x).to_set() =~= s.to_set().insert(x));
}


/// Dealing with a link adds one task to the queue where the decision is
/// `Enqueued` or `Created`, and none otherwise.
pub proof fn lemma_link_step_adds(
    v: EngineView,
    job: JobView,
    base: Seq<char>,
    link: Seq<char>,
    page_id: u128,
    task_id: u128,
    now: int,
)
    ensures
        ({
            let (w, decision) = v.link_step(job, base, link, page_id, task_id, now);
            w.pool.queue.len() == v.pool.queue.len() + if decision == LinkDecision::Enqueued
                || decision == LinkDecision::Created {
                1int
            } else {
                0int
            }
        }),
{
}

/// Dealing with a link changes the queue by at most one task at its end:
/// a crawl task for that very link, not cancelled, of a link that is in
/// scope and is not the page itself.
pub proof fn lemma_link_step_queue(
    v: EngineView,
    job: JobView,
    base: Seq<char>,
    link: Seq<char>,
    page_id: u128,
    task_id: u128,
    now: int,
)
    ensures
        ({
            let w = v.link_step(job, base, link, page_id, task_id, now).0;
            &&& w.pool.active == v.pool.active
            &&& w.in_flight == v.in_flight
            &&& w.crawls == v.crawls
            &&& (w.pool.queue == v.pool.queue || (w.pool.queue.len() == v.pool.queue.len() + 1
                && w.pool.queue.drop_last() == v.pool.queue && w.pool.queue.last().task.payload.url
                == link && kind_of(w.pool.queue.last().task.task_type) == TaskKind::CrawlUrl
                && !w.pool.queue.last().cancelled && link != base && in_scope(
                link,
                job.prefix_path,
                job.anti_paths,
                job.anti_keywords,
            ) && !v.pool.cancelled(job.task_id)))
        }),
{
    let w = v.link_step(job, base, link, page_id, task_id, now).0;
    if w.pool.queue != v.pool.queue {
        assert(w.pool.queue.drop_last() =~= v.pool.queue);
    }
}

/// The tasks that the links of a page lead to: the queue grows at its end
/// only, every new task is a crawl task for one of the links, which is in
/// scope and is not the page itself, and no two new tasks are for the
/// same link. So of links `A, A, B#frag, B`, which come to the engine as
/// `A, B`, at most one task is queued for `A` and at most one for `B`.
pub proof fn lemma_one_task_per_link(
    v: EngineView,
    job: JobView,
    base: Seq<char>,
    links: Seq<Seq<char>>,
    ids: Seq<(u128, u128)>,
    now: int,
)
    requires
        crate::content::strictly_sorted(links),
    ensures
        ({
            let w = v.expand(job, base, links, ids, now);
            let n = v.pool.queue.len() as int;
            &&& w.pool.active == v.pool.active
            &&& w.pool.queue.len() >= n
            &&& w.pool.queue.take(n) == v.pool.queue
            &&& forall|i: int|
                n <= i < w.pool.queue.len() ==> links.contains(
                    (#[trigger] w.pool.queue[i]).task.payload.url,
                ) && w.pool.queue[i].task.payload.url != base && kind_of(
                    w.pool.queue[i].task.task_type,
                ) == TaskKind::CrawlUrl && in_scope(
                    w.pool.queue[i].task.payload.url,
                    job.prefix_path,
                    job.anti_paths,
                    job.anti_keywords,
                )
            &&& forall|i: int, j: int|
                n <= i < j < w.pool.queue.len() ==> (#[trigger] w.pool.queue[i]).task.payload.url
                    != (#[trigger] w.pool.queue[j]).task.payload.url
        }),
    decreases links.len(),
{
    let n = v.pool.queue.len() as int;
    if links.len() == 0 {
        assert(v.pool.queue.take(n) =~= v.pool.queue);
    } else {
        let init = links.drop_last();
        assert forall|i: int, j: int| 0 <= i < j < init.len() implies crate::text::lex_le(
            #[trigger] init[i],
            #[trigger] init[j],
        ) && init[i] != init[j] by {
            assert(init[i] == links[i] && init[j] == links[j]);
        }
        lemma_one_task_per_link(v, job, base, init, ids.drop_last(), now);
        let w0 = v.expand(job, base, init, ids.drop_last(), now);
        let w = v.expand(job, base, links, ids, now);
        lemma_link_step_queue(w0, job, base, links.last(), ids.last().0, ids.last().1, now);
        assert forall|s: Seq<char>| init.contains(s) implies links.contains(s) && s
            != links.last() by {
            let k = choose|k: int| 0 <= k < init.len() && init[k] == s;
            assert(links[k] == s);
            assert(crate::text::lex_le(links[k], links[links.len() - 1]) && links[k]
                != links[links.len() - 1]);
        }
        assert(links.contains(links.last())) by {
            assert(links[links.len() - 1] == links.last());
        }
        if w.pool.queue == w0.pool.queue {
        } else {
            let m = w0.pool.queue.len() as int;
            assert forall|i: int| 0 <= i < m implies w.pool.queue[i] == w0.pool.queue[i] by {
                assert(w.pool.queue.drop_last()[i] == w.pool.queue[i]);
            }
            assert(w.pool.queue.take(n) =~= w0.pool.queue.take(n));
        }
    }
}

/// A crawl task that is cancelled when its worker begins it fetches
/// nothing and changes nothing.
pub proof fn lemma_cancelled_task_fetches_nothing(
    v: EngineView,
    job: JobView,
    fresh_id: u128,
    now: int,
)
    requires
        v.pool.cancelled(job.task_id),
    ensures
        v.begin(job, fresh_id, now) == (v, StepView::Finished(Err(FailureView::Cancelled))),
{
}

/// Once a crawl task is cancelled, the links of its page change nothing:
/// no page is added, no task is queued, nothing is reported.
pub proof fn lemma_cancelled_task_creates_nothing(
    v: EngineView,
    job: JobView,
    base: Seq<char>,
    links: Seq<Seq<char>>,
    ids: Seq<(u128, u128)>,
    now: int,
)
    requires
        v.pool.cancelled(job.task_id),
    ensures
        v.expand(job, base, links, ids, now) == v,
    decreases links.len(),
{
    if links.len() > 0 {
        lemma_cancelled_task_creates_nothing(v, job, base, links.drop_last(), ids.drop_last(), now);
    }
}

/// After all crawls were stopped, no crawl task creates a task: at its
/// next link it finds its flag set, and the links of its page change
/// nothing. The task is the one that the scheduler answers for under the
/// job's id.
pub proof fn lemma_stop_ends_task_creation(
    v: EngineView,
    job: JobView,
    base: Seq<char>,
    links: Seq<Seq<char>>,
    ids: Seq<(u128, u128)>,
    now: int,
)
    requires
        pool_wf(v.pool),
        v.pool.knows(job.task_id),
        match slot_index(v.pool.queue, job.task_id) {
            Some(i) => kind_of(v.pool.queue[i].task.task_type) == TaskKind::CrawlUrl,
            None => kind_of(
                v.pool.active[slot_index(v.pool.active, job.task_id).unwrap()].task.task_type,
            ) == TaskKind::CrawlUrl,
        },
    ensures
        ({
            let stopped = EngineView { pool: v.pool.cancel_all(TaskKind::CrawlUrl), ..v };
            stopped.expand(job, base, links, ids, now) == stopped
        }),
{
    let stopped = EngineView { pool: v.pool.cancel_all(TaskKind::CrawlUrl), ..v };
    crate::pool::lemma_cancel_all_is_seen(v.pool, TaskKind::CrawlUrl, job.task_id);
    lemma_cancelled_task_creates_nothing(stopped, job, base, links, ids, now);
}

/// Submitting a seed once more, under whatever ids and at whatever time,
/// adds no page: the store never holds two records of one technology,
/// version and URL.
pub proof fn lemma_resubmission_adds_no_page(
    v: EngineView,
    c: ConfigView,
    page_id: u128,
    task_id: u128,
    now: int,
    page_id_again: u128,
    task_id_again: u128,
    now_again: int,
)
    requires
        distinct_pages(v.pages),
    ensures
        ({
            let once = v.submit(c, page_id, task_id, now).0;
            let twice = once.submit(c, page_id_again, task_id_again, now_again).0;
            &&& distinct_pages(once.pages)
            &&& distinct_pages(twice.pages)
            &&& v.submit(c, page_id, task_id, now).1 is Ok ==> twice.pages == once.pages
        }),
{
    let once = v.submit(c, page_id, task_id, now).0;
    match crate::urls::normalized(c.start_url) {
        None => {},
        Some(url) => {
            crate::store::lemma_index_of_id(v.pages, page_id);
            crate::store::lemma_index_of_url(v.pages, c.technology_id, c.version_id, url);
            crate::store::lemma_index_of_url(once.pages, c.technology_id, c.version_id, url);
            crate::store::lemma_index_of_id(once.pages, page_id_again);
            if once.pages != v.pages {
                assert(crate::store::same_page(
                    once.pages[once.pages.len() - 1],
                    c.technology_id,
                    c.version_id,
                    url,
                ));
            }
        },
    }
}

/// What the engine has seen of any of its pages is a valid path through
/// the status machine, ending at the page's present status.
pub proof fn lemma_engine_paths_are_valid(engine: &CrawlerService, i: int)
    requires
        engine.wf(),
        0 <= i < engine@.pages.len(),
    ensures
        valid_path(engine.observed(engine@.pages[i].id)),
        engine.observed(engine@.pages[i].id).last() == engine@.pages[i].status,
        distinct_pages(engine@.pages),
        pool_wf(engine@.pool),
{
}


/// A page that rests at `CrawlError` is fetched again when a crawl task
/// comes for it, whatever the cache holds and whatever is in flight: the
/// task is told to fetch, and the page is `Crawling`.
pub proof fn lemma_crawl_error_is_fetched_again(
    v: EngineView,
    job: JobView,
    url: Seq<char>,
    page: DocumentationUrlView,
    fresh_id: u128,
    now: int,
)
    requires
        crate::urls::normalized(job.url) == Some(url),
        distinct_pages(v.pages),
        lookup_url(v.pages, job.technology_id, job.version_id, url) == Some(page),
        page.status == UrlStatus::CrawlError,
        !v.pool.cancelled(job.task_id),
        v.admits(job, url),
    ensures
        v.begin(job, fresh_id, now).1 == (StepView::Fetch { url, url_id: page.id }),
        lookup_id(v.begin(job, fresh_id, now).0.pages, page.id) matches Some(after)
            && after.status == UrlStatus::Crawling,
        v.begin(job, fresh_id, now).0.in_flight.contains(page.id),
{
    crate::store::lemma_index_of_url(v.pages, job.technology_id, job.version_id, url);
    crate::store::lemma_index_of_id_unique(
        v.pages,
        crate::store::index_of_url(v.pages, job.technology_id, job.version_id, url).unwrap(),
    );
    assert(lookup_id(v.pages, page.id) == Some(page));
    let started = v.report(job.task_id, 20, "filtering"@);
    let fresh = EngineView { processed: started.processed.remove(url), ..started };
    let crawling = fresh.report(job.task_id, 30, "crawling"@);
    let back = status_change(UrlStatus::PendingCrawl);
    let forth = status_change(UrlStatus::Crawling);
    crate::store::lemma_change_is_seen(crawling.pages, page.id, back, now, page.id);
    let reentered = crawling.move_to(page.id, UrlStatus::PendingCrawl, now);
    assert(reentered.pages == after_change(crawling.pages, page.id, back, now));
    crate::store::lemma_change_is_seen(reentered.pages, page.id, forth, now, page.id);
    let moved = reentered.move_to(page.id, UrlStatus::Crawling, now);
    assert(moved.pages == after_change(reentered.pages, page.id, forth, now));
    assert(moved.in_flight == v.in_flight);
}

/// A fetch that runs out of time leaves its page at `CrawlError` and
/// fails the task; no link is followed, and so nothing is queued.
pub proof fn lemma_timeout_leaves_crawl_error(
    v: EngineView,
    job: JobView,
    url: Seq<char>,
    url_id: u128,
    now: int,
)
    requires
        lookup_id(v.pages, url_id) matches Some(page) && page.status == UrlStatus::Crawling,
    ensures
        v.finish_fetch(job, url, url_id, FetchView::TimedOut, now).1 == Err::<(), FailureView>(
            FailureView::FetchTimedOut(url),
        ),
        failure_text(FailureView::FetchTimedOut(url)) == "Timeout while fetching URL: "@ + url,
        lookup_id(v.finish_fetch(job, url, url_id, FetchView::TimedOut, now).0.pages, url_id)
            matches Some(after) && after.status == UrlStatus::CrawlError,
        v.finish_fetch(job, url, url_id, FetchView::TimedOut, now).0.pool.queue == v.pool.queue,
        v.finish_fetch(job, url, url_id, FetchView::TimedOut, now).0.pages.len() == v.pages.len(),
        !v.finish_fetch(job, url, url_id, FetchView::TimedOut, now).0.in_flight.contains(url_id),
{
    let released = v.release(url_id);
    crate::store::lemma_change_is_seen(
        released.pages,
        url_id,
        status_change(UrlStatus::CrawlError),
        now,
        url_id,
    );
}

/// A page whose fetch brought content is `Crawled` and holds the content
/// and the Markdown made of it.
pub proof fn lemma_content_is_stored(
    v: EngineView,
    job: JobView,
    url: Seq<char>,
    url_id: u128,
    html: Seq<char>,
    markdown: Seq<char>,
    now: int,
)
    requires
        lookup_id(v.pages, url_id) matches Some(page) && page.status == UrlStatus::Crawling,
        html.len() > 0,
    ensures
        ({
            let stored = v.finish_fetch(
                job,
                url,
                url_id,
                FetchView::Content { html, markdown: Some(markdown) },
                now,
            );
            &&& stored.1 is Ok
            &&& lookup_id(stored.0.pages, url_id) matches Some(after) && after.status
                == UrlStatus::Crawled && after.html == Some(html) && after.markdown == Some(
                markdown,
            )
        }),
{
    let converted = v.release(url_id).report(job.task_id, 60, "converting_to_markdown"@).report(
        job.task_id,
        80,
        "updating_content"@,
    );
    crate::store::lemma_change_is_seen(
        converted.pages,
        url_id,
        content_change(html, markdown),
        now,
        url_id,
    );
}

/// A page of whose content no Markdown could be made is left at
/// `CrawlError`, without content, and its task fails; no link is
/// followed, and so nothing is queued.
pub proof fn lemma_unconverted_page_fails(
    v: EngineView,
    job: JobView,
    url: Seq<char>,
    url_id: u128,
    html: Seq<char>,
    now: int,
)
    requires
        lookup_id(v.pages, url_id) matches Some(page) && page.status == UrlStatus::Crawling,
    ensures
        ({
            let failed = v.finish_fetch(
                job,
                url,
                url_id,
                FetchView::Content { html, markdown: None },
                now,
            );
            &&& failed.1 == Err::<(), FailureView>(FailureView::ConversionFailed)
            &&& lookup_id(failed.0.pages, url_id) matches Some(after) && after.status
                == UrlStatus::CrawlError
            &&& failed.0.pool.queue == v.pool.queue
            &&& !failed.0.in_flight.contains(url_id)
        }),
{
    let released = v.report(job.task_id, 60, "converting_to_markdown"@).release(url_id);
    crate::store::lemma_change_is_seen(
        released.pages,
        url_id,
        status_change(UrlStatus::CrawlError),
        now,
        url_id,
    );
}

} // verus!
