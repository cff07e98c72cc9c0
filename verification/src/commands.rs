//! The commands of the user-facing surface, as far as they decide
//! anything: adding a page by hand, applying changed filters to the pages
//! of a version, and handing pages to the scheduler in batches.

use vstd::prelude::*;
use crate::crawler::{CrawlFailure, CrawlerService, EngineView, FailureView};
use crate::events::{AppEvent, AppNotificationEvent, EventView};
use crate::filter::{filters_of, should_crawl, Filters, FiltersView};
use crate::ids::uuid_text;
use crate::models::{DocumentationUrl, DocumentationUrlView};
use crate::status::UrlStatus;
use crate::store::{after_add, index_of_id, lookup_id, lookup_url, page_views, pages_of_version, StoreError};
use crate::task::{new_task, Task, TaskPayload, TaskPayloadView};
use crate::text::{concat2, concat3, decimal, number_text, views};
use crate::urls::opt_view;

verus! {

/// What is reported to the caller that started a crawl.
#[derive(Debug, Clone)]
pub enum CrawlEvent {
    Started { task_id: String, url: String },
}

/// What is reported to the caller that asked for pages to be refined.
#[derive(Debug, Clone)]
pub enum MarkdownEvent {
    Started { url_count: usize },
    Progress { current: usize, total: usize, url: String },
    Finished { task_ids: Vec<String> },
    Error { message: String },
}

/// What is reported to the caller that asked for snippets of pages.
#[derive(Debug, Clone)]
pub enum SnippetEvent {
    Started { url_count: usize },
    Progress { current: usize, total: usize, url: String },
    Finished { task_ids: Vec<String> },
    Error { message: String },
}

/// The size of the batches in which the pages of a version are checked
/// against changed filters: a tenth of the pages, but at least 10 and at
/// most 100.
pub open spec fn filter_batch(total: nat) -> nat {
    if total / 10 < 10 {
        10
    } else if total / 10 > 100 {
        100
    } else {
        total / 10
    }
}

/// The size of the batches in which pages are handed over for snippets: a
/// quarter of the pages, but at least 1 and at most 5.
pub open spec fn snippet_batch(total: nat) -> nat {
    if total / 4 < 1 {
        1
    } else if total / 4 > 5 {
        5
    } else {
        total / 4
    }
}

/// The pages that are refined between two pauses.
pub const CLEAN_BATCH_SIZE: usize = 5;

/// The pause between two batches of pages to refine, in milliseconds.
pub const CLEAN_BATCH_DELAY_MS: u64 = 1000;

/// The number of batches of `size` that `total` items make: the quotient,
/// rounded up.
pub open spec fn batches_needed(total: nat, size: nat) -> nat {
    if size == 0 || total == 0 {
        0
    } else {
        ((total - 1) / (size as int) + 1) as nat
    }
}

/// The size of the batches in which the pages of a version are checked
/// against changed filters.
pub fn filter_batch_size(total: usize) -> (r: usize)
    ensures
        r == filter_batch(total as nat),
        10 <= r <= 100,
{
    let tenth = total / 10;
    if tenth < 10 {
        10
    } else if tenth > 100 {
        100
    } else {
        tenth
    }
}

/// The size of the batches in which pages are handed over for snippets.
pub fn snippet_batch_size(total: usize) -> (r: usize)
    ensures
        r == snippet_batch(total as nat),
        1 <= r <= 5,
{
    let quarter = total / 4;
    if quarter < 1 {
        1
    } else if quarter > 5 {
        5
    } else {
        quarter
    }
}

/// The number of batches of `size` that `total` items make.
pub fn batch_count(total: usize, size: usize) -> (r: usize)
    ensures
        r == batches_needed(total as nat, size as nat),
        size > 0 ==> r * size >= total && (r > 0 ==> (r - 1) * size < total),
{
    if size == 0 || total == 0 {
        return 0;
    }
    let full = (total - 1) / size;
    proof {
        vstd::arithmetic::div_mod::lemma_fundamental_div_mod((total - 1) as int, size as int);
        vstd::arithmetic::div_mod::lemma_mod_bound((total - 1) as int, size as int);
        assert(full * size == size * full) by (nonlinear_arith);
        assert((full + 1) * size == full * size + size) by (nonlinear_arith);
        assert(full <= total - 1) by (nonlinear_arith)
            requires
                full * size <= total - 1,
                size >= 1,
                full >= 0,
        ;
    }
    full + 1
}

/// The items of the batch with this index, where a list is cut into
/// batches of `size`.
pub open spec fn batch_of<T>(items: Seq<T>, size: nat, index: nat) -> Seq<T> {
    if size == 0 || index * size >= items.len() {
        Seq::empty()
    } else if (index + 1) * size >= items.len() {
        items.subrange((index * size) as int, items.len() as int)
    } else {
        items.subrange((index * size) as int, ((index + 1) * size) as int)
    }
}

/// The ids of the batch with this index.
pub fn batch(items: &[u128], size: usize, index: usize) -> (r: Vec<u128>)
    ensures
        r@ == batch_of(items@, size as nat, index as nat),
{
    let mut out: Vec<u128> = Vec::new();
    if size == 0 {
        return out;
    }
    let first: usize = match index.checked_mul(size) {
        Some(start) => start,
        None => {
            let n = items.len();
            assert(index * size > n);
            return out;
        },
    };
    if first >= items.len() {
        return out;
    }
    assert((index + 1) * size == first + size) by (nonlinear_arith)
        requires
            first == index * size,
    ;
    let end: usize = match first.checked_add(size) {
        Some(e) => if e >= items.len() {
            items.len()
        } else {
            e
        },
        None => items.len(),
    };
    let mut i: usize = first;
    while i < end
        invariant
            first <= i <= end <= items@.len(),
            out@ == items@.subrange(first as int, i as int),
        decreases end - i,
    {
        out.push(items[i]);
        assert(out@ =~= items@.subrange(first as int, i as int + 1));
        i += 1;
    }
    out
}

/// The pause before a task is offered to the scheduler once more, after
/// the `retries`-th refusal on a rate limit: two seconds, doubled with
/// each further refusal.
pub open spec fn requeue_delay_ms(retries: nat) -> nat
    decreases retries,
{
    if retries == 0 {
        1000
    } else {
        2 * requeue_delay_ms((retries - 1) as nat)
    }
}

/// The most refusals on a rate limit after which a task is offered again.
pub const MAX_REQUEUE_RETRIES: u32 = 3;

/// The pause before a task is offered to the scheduler once more; none
/// once the retries are used up.
pub fn requeue_delay(retries: u32) -> (r: Option<u64>)
    ensures
        match r {
            Some(d) => 0 < retries <= MAX_REQUEUE_RETRIES && d == requeue_delay_ms(retries as nat),
            None => retries == 0 || retries > MAX_REQUEUE_RETRIES,
        },
{
    proof {
        assert(requeue_delay_ms(0) == 1000);
        assert(requeue_delay_ms(1) == 2000);
        assert(requeue_delay_ms(2) == 4000);
        assert(requeue_delay_ms(3) == 8000);
    }
    if retries == 1 {
        Some(2000)
    } else if retries == 2 {
        Some(4000)
    } else if retries == 3 {
        Some(8000)
    } else {
        None
    }
}

/// The share of the work that is done, in percent.
pub open spec fn percent_done(checked: nat, total: nat) -> int {
    if total == 0 {
        100
    } else {
        ((checked * 100) as int) / (total as int)
    }
}

/// The message that reports how many pages changed filters removed.
pub open spec fn filter_message(deleted: nat) -> Seq<char> {
    if deleted > 0 {
        "Deleted "@ + decimal(deleted) + " URLs that matched filter criteria"@
    } else {
        "No URLs were deleted. All URLs match the current filters."@
    }
}

impl EngineView {
    /// The state after one page of a version was checked against changed
    /// filters, as the `checked`-th of `total`, and whether the page was
    /// removed: a page that is not `Skipped` and that the filters exclude
    /// leaves the store. Progress is reported at every tenth page and at
    /// the last.
    pub open spec fn sweep_step(
        self,
        task_id: Seq<char>,
        f: FiltersView,
        page: DocumentationUrlView,
        checked: nat,
        total: nat,
    ) -> (EngineView, bool) {
        let reported = if checked % 10 == 0 || checked == total {
            self.report(task_id, percent_done(checked, total) as i32, "running"@)
        } else {
            self
        };
        if page.status != UrlStatus::Skipped && !f.admits(page.url) {
            match index_of_id(reported.pages, page.id) {
                Some(i) => (EngineView { pages: reported.pages.remove(i), ..reported }, true),
                None => (reported, false),
            }
        } else {
            (reported, false)
        }
    }

    /// The state after the listed pages were checked one after the other,
    /// and how many of them were removed.
    pub open spec fn sweep(
        self,
        task_id: Seq<char>,
        f: FiltersView,
        listed: Seq<DocumentationUrlView>,
        total: nat,
    ) -> (EngineView, nat)
        decreases listed.len(),
    {
        if listed.len() == 0 {
            (self, 0)
        } else {
            let before = self.sweep(task_id, f, listed.drop_last(), total);
            let step = before.0.sweep_step(task_id, f, listed.last(), listed.len(), total);
            (
                step.0,
                if step.1 {
                    before.1 + 1
                } else {
                    before.1
                },
            )
        }
    }

    /// The task that stands for the application of filters to `total`
    /// pages of a version.
    pub open spec fn filter_task(task_id: u128, version_id: u128, f: FiltersView, total: nat, now: int)
        -> crate::task::TaskView {
        new_task(
            uuid_text(task_id),
            "apply_url_filters"@,
            Some(version_id),
            None,
            TaskPayloadView {
                url: "Apply Filters ("@ + decimal(total) + " URLs)"@,
                prefix_path: f.prefix_path,
                anti_paths: f.anti_paths,
                anti_keywords: f.anti_keywords,
                skip_processed: false,
                url_id: 0,
            },
            now,
        )
    }

    /// The state after the filters of a version were applied to its
    /// pages, and how many pages were removed.
    ///
    /// Nothing happens without filters. Otherwise a task that stands for
    /// the work is queued, the pages of the version are checked one after
    /// the other, and the end is reported to the task's observers and to
    /// the user.
    pub open spec fn apply_filters(self, version_id: u128, f: FiltersView, task_id: u128, now: int)
        -> (EngineView, Result<nat, FailureView>) {
        if f.is_empty() {
            (self, Ok(0))
        } else {
            let listed = pages_of_version(self.pages, version_id, false);
            let queued = (EngineView {
                pool: self.pool.enqueue(
                    Self::filter_task(task_id, version_id, f, listed.len(), now),
                ),
                ..self
            }).report(uuid_text(task_id), 0, "running"@);
            let swept = queued.sweep(uuid_text(task_id), f, listed, listed.len());
            (
                swept.0.report(uuid_text(task_id), 100, "completed"@).emit(
                    EventView::Notification {
                        title: "URL Filters Applied"@,
                        message: filter_message(swept.1),
                        notification_type: Some(
                            if swept.1 > 0 {
                                "info"@
                            } else {
                                "success"@
                            },
                        ),
                    },
                ),
                Ok(swept.1),
            )
        }
    }

    /// The state after a page was added by hand, and the page: the URL is
    /// normalized, checked against the filters of its version and then
    /// found in the store or added to it.
    pub open spec fn add_by_hand(
        self,
        url: Seq<char>,
        technology_id: u128,
        version_id: u128,
        f: Option<FiltersView>,
        id: u128,
        now: int,
    ) -> (EngineView, Result<DocumentationUrlView, FailureView>) {
        match f {
            None => (self, Err(FailureView::NoSettings)),
            Some(f) => match crate::urls::normalized(url) {
                None => (self, Err(FailureView::InvalidUrl(crate::urls::url_parse_error(url)))),
                Some(n) => if !f.admits(n) {
                    (self, Err(FailureView::Excluded(n)))
                } else {
                    match lookup_url(self.pages, technology_id, version_id, n) {
                        Some(page) => (self, Ok(page)),
                        None => if lookup_id(self.pages, id) is Some {
                            (self, Err(FailureView::Store(StoreError::DuplicateId(id))))
                        } else {
                            (
                                EngineView {
                                    pages: after_add(
                                        self.pages,
                                        technology_id,
                                        version_id,
                                        n,
                                        id,
                                        now,
                                    ),
                                    ..self
                                },
                                Ok(
                                    crate::store::fresh_page(
                                        id,
                                        technology_id,
                                        version_id,
                                        n,
                                        now,
                                    ),
                                ),
                            )
                        },
                    }
                },
            },
        }
    }
}

impl CrawlerService {
    /// Adds a page by hand, under the id `id` should it be new: the URL is
    /// normalized and must pass the filters that are stored for its
    /// version. Fails where the version has no settings, the text is no
    /// URL or the filters exclude it.
    pub fn add_documentation_url(
        &mut self,
        url: &str,
        technology_id: u128,
        version_id: u128,
        id: u128,
        now: i64,
    ) -> (r: Result<DocumentationUrl, CrawlFailure>)
        requires
            old(self).wf(),
        ensures
            final(self).wf(),
            final(self)@ == old(self)@.add_by_hand(
                url@,
                technology_id,
                version_id,
                old(self)@.current_filters(version_id),
                id,
                now as int,
            ).0,
            match r {
                Ok(page) => old(self)@.add_by_hand(
                    url@,
                    technology_id,
                    version_id,
                    old(self)@.current_filters(version_id),
                    id,
                    now as int,
                ).1 == Ok::<DocumentationUrlView, FailureView>(page@),
                Err(e) => old(self)@.add_by_hand(
                    url@,
                    technology_id,
                    version_id,
                    old(self)@.current_filters(version_id),
                    id,
                    now as int,
                ).1 == Err::<DocumentationUrlView, FailureView>(e@),
            },
            forall|k: u128|
                final(self).observed(k) == if k == id && final(self)@.pages.len() > old(self)@.pages.len() {
                    seq![UrlStatus::PendingCrawl]
                } else {
                    old(self).observed(k)
                },
    {
        let settings = match self.get_crawling_settings_for_version(version_id) {
            Some(s) => s,
            None => {
                return Err(CrawlFailure::NoSettings);
            },
        };
        let filters = filters_of(&settings);
        let normal = match crate::urls::try_normalize_url(url) {
            Ok(n) => n,
            Err(reason) => {
                return Err(CrawlFailure::InvalidUrl(reason));
            },
        };
        if !should_crawl(
            normal.as_str(),
            filters.prefix_path.as_str(),
            filters.anti_paths.as_slice(),
            filters.anti_keywords.as_slice(),
        ) {
            return Err(CrawlFailure::Excluded(normal));
        }
        match self.add_url_as(normal.as_str(), technology_id, version_id, id, now) {
            Ok(page) => Ok(page),
            Err(e) => Err(CrawlFailure::Store(e)),
        }
    }

    fn sweep_step(
        &mut self,
        task_id: &str,
        filters: &Filters,
        page: &DocumentationUrl,
        checked: usize,
        total: usize,
    ) -> (r: bool)
        requires
            old(self).wf(),
            0 < checked <= total,
        ensures
            final(self).wf(),
            (final(self)@, r) == old(self)@.sweep_step(
                task_id@,
                filters@,
                page@,
                checked as nat,
                total as nat,
            ),
            forall|k: u128| final(self).observed(k) == old(self).observed(k),
    {
        if checked % 10 == 0 || checked == total {
            let percent: u128 = (checked as u128 * 100) / (total as u128);
            assert(percent <= 100) by (nonlinear_arith)
                requires
                    percent == (checked * 100) / (total as int),
                    0 < checked <= total,
            ;
            self.report(task_id, percent as i32, "running");
        }
        if page.status != UrlStatus::Skipped && !should_crawl(
            page.url.as_str(),
            filters.prefix_path.as_str(),
            filters.anti_paths.as_slice(),
            filters.anti_keywords.as_slice(),
        ) {
            self.remove_page(page.id)
        } else {
            false
        }
    }

    /// Applies the filters that are stored for a version to its pages,
    /// with the id to use for the task that stands for the work, and the
    /// present time: every page of the version that is not `Skipped` and
    /// that the filters exclude is removed from the store. Returns how
    /// many pages were removed. Fails where the version has no settings.
    pub fn apply_url_filters(&mut self, version_id: u128, task_id: u128, now: i64) -> (r: Result<
        usize,
        CrawlFailure,
    >)
        requires
            old(self).wf(),
        ensures
            final(self).wf(),
            match old(self)@.current_filters(version_id) {
                None => final(self)@ == old(self)@ && (r matches Err(e) && e@
                    == FailureView::NoSettings),
                Some(f) => final(self)@ == old(self)@.apply_filters(
                    version_id,
                    f,
                    task_id,
                    now as int,
                ).0 && match r {
                    Ok(n) => old(self)@.apply_filters(version_id, f, task_id, now as int).1
                        == Ok::<nat, FailureView>(n as nat),
                    Err(e) => old(self)@.apply_filters(version_id, f, task_id, now as int).1
                        == Err::<nat, FailureView>(e@),
                },
            },
            forall|k: u128| final(self).observed(k) == old(self).observed(k),
    {
        let settings = match self.get_crawling_settings_for_version(version_id) {
            Some(s) => s,
            None => {
                return Err(CrawlFailure::NoSettings);
            },
        };
        let filters = filters_of(&settings);
        if filters.prefix_path.as_str().is_empty() && filters.anti_paths.len() == 0
            && filters.anti_keywords.len() == 0 {
            return Ok(0);
        }
        let pages = self.url_service().get_urls_for_version(version_id, false);
        let total = pages.len();
        let ghost listed = page_views(pages@);
        let label = concat3("Apply Filters (", number_text(total as u128).as_str(), " URLs)");
        let payload = TaskPayload {
            url: label,
            prefix_path: filters.prefix_path.clone(),
            anti_paths: crate::filter::clone_strings(filters.anti_paths.as_slice()),
            anti_keywords: crate::filter::clone_strings(filters.anti_keywords.as_slice()),
            skip_processed: false,
            url_id: 0,
        };
        let task = Task::with_id(task_id, "apply_url_filters", Some(version_id), None, payload, now);
        let id = self.push_task(task);
        self.report(id.as_str(), 0, "running");
        let ghost queued = self@;
        let mut deleted: usize = 0;
        let mut i: usize = 0;
        assert(listed.take(0) =~= Seq::empty());
        while i < pages.len()
            invariant
                i <= pages@.len(),
                total == pages@.len(),
                listed == page_views(pages@),
                self.wf(),
                deleted <= i,
                forall|k: u128| self.observed(k) == old(self).observed(k),
                (self@, deleted as nat) == queued.sweep(
                    id@,
                    filters@,
                    listed.take(i as int),
                    total as nat,
                ),
            decreases pages@.len() - i,
        {
            proof {
                let next = listed.take(i as int + 1);
                assert(next.drop_last() =~= listed.take(i as int));
                assert(next.last() == pages@[i as int]@);
            }
            if self.sweep_step(id.as_str(), &filters, &pages[i], i + 1, total) {
                deleted += 1;
            }
            i += 1;
        }
        assert(listed.take(pages@.len() as int) =~= listed);
        self.report(id.as_str(), 100, "completed");
        let message = if deleted > 0 {
            concat3("Deleted ", number_text(deleted as u128).as_str(), " URLs that matched filter criteria")
        } else {
            "No URLs were deleted. All URLs match the current filters.".to_owned()
        };
        let kind = if deleted > 0 {
            "info"
        } else {
            "success"
        };
        self.emit(
            AppEvent::Notification(
                AppNotificationEvent {
                    title: "URL Filters Applied".to_owned(),
                    message,
                    notification_type: Some(kind.to_owned()),
                },
            ),
        );
        Ok(deleted)
    }
}


/// The mathematical value of a [`MarkdownEvent`].
pub enum MarkdownEventView {
    Started { url_count: usize },
    Progress { current: usize, total: usize, url: Seq<char> },
    Finished { task_ids: Seq<Seq<char>> },
    Error { message: Seq<char> },
}

impl View for MarkdownEvent {
    type V = MarkdownEventView;

    open spec fn view(&self) -> MarkdownEventView {
        match *self {
            MarkdownEvent::Started { url_count } => MarkdownEventView::Started { url_count },
            MarkdownEvent::Progress { current, total, url } => MarkdownEventView::Progress {
                current,
                total,
                url: url@,
            },
            MarkdownEvent::Finished { task_ids } => MarkdownEventView::Finished {
                task_ids: views(task_ids@),
            },
            MarkdownEvent::Error { message } => MarkdownEventView::Error { message: message@ },
        }
    }
}

/// The views of a list of events.
pub open spec fn markdown_views(events: Seq<MarkdownEvent>) -> Seq<MarkdownEventView> {
    Seq::new(events.len(), |i: int| events[i]@)
}

/// What became of the request to refine one page.
#[derive(Debug, Clone)]
pub struct CleanRequest {
    /// The id of the task that was queued, if one was.
    pub task_id: Option<String>,
    /// What the caller is told.
    pub events: Vec<MarkdownEvent>,
}

/// The task that refines the text of a page.
pub open spec fn clean_task(task_id: u128, page: DocumentationUrlView, now: int)
    -> crate::task::TaskView {
    new_task(
        uuid_text(task_id),
        "clean_markdown"@,
        Some(page.technology_id),
        Some(page.version_id),
        TaskPayloadView {
            url: page.url,
            prefix_path: Seq::empty(),
            anti_paths: Seq::empty(),
            anti_keywords: Seq::empty(),
            skip_processed: false,
            url_id: page.id,
        },
        now,
    )
}

/// The task that stands for a batch of pages of which snippets are made.
pub open spec fn snippet_batch_task(batch_index: nat, batch: Seq<u128>, task_id: u128, now: int)
    -> crate::task::TaskView {
    new_task(
        uuid_text(task_id),
        "generate_snippets_batch"@,
        None,
        None,
        TaskPayloadView {
            url: "Snippets Batch "@ + decimal(batch_index + 1) + " ("@ + decimal(batch.len())
                + " URLs)"@,
            prefix_path: Seq::empty(),
            anti_paths: Seq::empty(),
            anti_keywords: Seq::empty(),
            skip_processed: false,
            url_id: batch[0],
        },
        now,
    )
}

impl EngineView {
    /// The state after the refining of one page was asked for, the id of
    /// the task that was queued for it, and what the caller is told.
    ///
    /// A page that the store lacks is reported as an error. A page
    /// without content is passed over, which is reported as progress. For
    /// any other a task is queued and the page is reported as progress;
    /// should the scheduler refuse the task, that is reported as well.
    pub open spec fn request_clean(
        self,
        url_id: u128,
        index: usize,
        total: usize,
        task_id: u128,
        now: int,
    ) -> (EngineView, Option<Seq<char>>, Seq<MarkdownEventView>) {
        match lookup_id(self.pages, url_id) {
            None => (
                self,
                None,
                seq![
                    MarkdownEventView::Error {
                        message: "URL with ID "@ + uuid_text(url_id) + " not found"@,
                    },
                ],
            ),
            Some(page) => if !page.has_content() {
                (
                    self,
                    None,
                    seq![
                        MarkdownEventView::Progress {
                            current: index,
                            total,
                            url: "Skipping (no content): "@ + page.url,
                        },
                    ],
                )
            } else {
                (
                    EngineView { pool: self.pool.enqueue(clean_task(task_id, page, now)), ..self },
                    Some(uuid_text(task_id)),
                    seq![MarkdownEventView::Progress { current: index, total, url: page.url }],
                )
            },
        }
    }
}

/// The note that reports the start of a batch.
pub fn batch_note(batch_index: usize, total_batches: usize) -> (r: String)
    ensures
        r@ == "Processing batch "@ + decimal((batch_index + 1) as nat) + "/"@ + decimal(
            total_batches as nat,
        ),
{
    let mut note = concat2("Processing batch ", number_text(batch_index as u128 + 1).as_str());
    note.append("/");
    note.append(number_text(total_batches as u128).as_str());
    note
}

impl CrawlerService {
    /// Asks for the text of one page to be refined, as the `index`-th of
    /// `total` pages, with the id to use for the task, and the present
    /// time.
    pub fn request_clean(
        &mut self,
        url_id: u128,
        index: usize,
        total: usize,
        task_id: u128,
        now: i64,
    ) -> (r: CleanRequest)
        requires
            old(self).wf(),
        ensures
            final(self).wf(),
            (final(self)@, opt_view(r.task_id), markdown_views(r.events@)) == old(self)@.request_clean(url_id, index, total, task_id, now as int),
            forall|k: u128| final(self).observed(k) == old(self).observed(k),
    {
        let page = match self.url_service().get_url_by_id(url_id) {
            Some(page) => page,
            None => {
                let events = vec![
                    MarkdownEvent::Error {
                        message: concat3(
                            "URL with ID ",
                            crate::ids::id_text(url_id).as_str(),
                            " not found",
                        ),
                    },
                ];
                assert(markdown_views(events@) =~= seq![events@[0]@]);
                return CleanRequest { task_id: None, events };
            },
        };
        if !page.has_content() {
            let events = vec![
                MarkdownEvent::Progress {
                    current: index,
                    total,
                    url: concat2("Skipping (no content): ", page.url.as_str()),
                },
            ];
            assert(markdown_views(events@) =~= seq![events@[0]@]);
            return CleanRequest { task_id: None, events };
        }
        let payload = TaskPayload::for_page(page.url.as_str(), url_id);
        let task = Task::with_id(
            task_id,
            "clean_markdown",
            Some(page.technology_id),
            Some(page.version_id),
            payload,
            now,
        );
        proof {
            crate::store::lemma_index_of_id(old(self)@.pages, url_id);
        }
        let progress = MarkdownEvent::Progress { current: index, total, url: page.url.clone() };
        let id = self.push_task(task);
        let events = vec![progress];
        assert(markdown_views(events@) =~= seq![events@[0]@]);
        CleanRequest { task_id: Some(id), events }
    }

    /// Queues the task that stands for a batch of pages of which snippets
    /// are made, with the id to use for it, and the present time. Returns
    /// the task's id.
    pub fn queue_snippet_batch(
        &mut self,
        batch_index: usize,
        batch: &[u128],
        task_id: u128,
        now: i64,
    ) -> (r: String)
        requires
            old(self).wf(),
            batch@.len() > 0,
        ensures
            final(self).wf(),
            final(self)@ == (EngineView {
                pool: old(self)@.pool.enqueue(
                    snippet_batch_task(batch_index as nat, batch@, task_id, now as int),
                ),
                ..old(self)@
            }),
            r@ == uuid_text(task_id),
            forall|k: u128| final(self).observed(k) == old(self).observed(k),
    {
        let mut label = concat2("Snippets Batch ", number_text(batch_index as u128 + 1).as_str());
        label.append(" (");
        label.append(number_text(batch.len() as u128).as_str());
        label.append(" URLs)");
        let payload = TaskPayload::for_page(label.as_str(), batch[0]);
        let task = Task::with_id(task_id, "generate_snippets_batch", None, None, payload, now);
        self.push_task(task)
    }
}

} // verus!
