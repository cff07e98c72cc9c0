//! Laws of the crawl frontier: what becomes of the links of a page, of a
//! task that fails, of a page that is tried again, and of a page that
//! was handled before.

use vstd::prelude::*;
use crate::crawler::{crawl_task, failure_text, outcome_of, ConfigView, EngineView, FailureView, FetchView, JobView, LinkDecision, StepView, SubmissionView};
use crate::events::EventView;
use crate::filter::in_scope;
use crate::ids::uuid_text;
use crate::models::DocumentationUrlView;
use crate::pool::{slot_index, SlotView};
use crate::status::{awaits_crawl, UrlStatus};
use crate::store::{fresh_page, lookup_id, lookup_url, status_change};
use crate::task::TaskView;

verus! {

/// The pages that links become, the `i`-th under the id `ids[i].0`.
pub open spec fn new_pages(job: JobView, links: Seq<Seq<char>>, ids: Seq<(u128, u128)>, now: int)
    -> Seq<DocumentationUrlView> {
    Seq::new(
        links.len(),
        |i: int| fresh_page(ids[i].0, job.technology_id, job.version_id, links[i], now),
    )
}

/// The crawl task of a job's crawl for the page `page_id` at `link`, as
/// it waits in the queue.
pub open spec fn link_slot(job: JobView, link: Seq<char>, page_id: u128, task_id: u128, now: int)
    -> SlotView {
    SlotView {
        task: crawl_task(
            task_id,
            job.technology_id,
            job.version_id,
            link,
            job.prefix_path,
            job.anti_paths,
            job.anti_keywords,
            job.skip_processed,
            page_id,
            now,
        ),
        cancelled: false,
    }
}

/// The crawl tasks that links become, the `i`-th under the id `ids[i].1`
/// for the page `ids[i].0`.
pub open spec fn new_slots(job: JobView, links: Seq<Seq<char>>, ids: Seq<(u128, u128)>, now: int)
    -> Seq<SlotView> {
    Seq::new(links.len(), |i: int| link_slot(job, links[i], ids[i].0, ids[i].1, now))
}

/// A link is new to a crawl: it is not the page itself, the filters let
/// it pass, the cache does not hide it, and the store holds neither its
/// page nor the id that the page is to get.
pub open spec fn is_new_link(v: EngineView, job: JobView, base: Seq<char>, link: Seq<char>, page_id: u128)
    -> bool {
    &&& link != base
    &&& in_scope(link, job.prefix_path, job.anti_paths, job.anti_keywords)
    &&& !(job.skip_processed && v.processed.contains(link))
    &&& lookup_url(v.pages, job.technology_id, job.version_id, link) is None
    &&& lookup_id(v.pages, page_id) is None
}

/// Dealing with a link does not cancel the task that deals with it.
pub proof fn lemma_link_step_keeps_task_live(
    v: EngineView,
    job: JobView,
    base: Seq<char>,
    link: Seq<char>,
    page_id: u128,
    task_id: u128,
    now: int,
)
    requires
        !v.pool.cancelled(job.task_id),
    ensures
        !v.link_step(job, base, link, page_id, task_id, now).0.pool.cancelled(job.task_id),
{
    let w = v.link_step(job, base, link, page_id, task_id, now).0;
    crate::pool::lemma_slot_index(v.pool.queue, job.task_id);
    if w.pool.queue != v.pool.queue {
        assert(w.pool.queue.drop_last() =~= v.pool.queue);
    }
}

/// Dealing with a link leaves every other page, every other id and every
/// other entry of the cache as they were.
pub proof fn lemma_link_step_leaves_others(
    v: EngineView,
    job: JobView,
    base: Seq<char>,
    link: Seq<char>,
    page_id: u128,
    task_id: u128,
    now: int,
    other: Seq<char>,
    other_id: u128,
)
    requires
        other != link,
        other_id != page_id,
    ensures
        ({
            let w = v.link_step(job, base, link, page_id, task_id, now).0;
            &&& lookup_url(w.pages, job.technology_id, job.version_id, other) == lookup_url(
                v.pages,
                job.technology_id,
                job.version_id,
                other,
            )
            &&& lookup_id(w.pages, other_id) == lookup_id(v.pages, other_id)
            &&& w.processed.contains(other) == v.processed.contains(other)
        }),
{
    let w = v.link_step(job, base, link, page_id, task_id, now).0;
    crate::store::lemma_index_of_url(v.pages, job.technology_id, job.version_id, other);
    crate::store::lemma_index_of_id(v.pages, other_id);
    if w.pages != v.pages {
        assert(w.pages.drop_last() =~= v.pages);
    }
}

/// Dealing with links leaves every page, id and cache entry that is not
/// among them as it was.
pub proof fn lemma_expand_leaves_others(
    v: EngineView,
    job: JobView,
    base: Seq<char>,
    links: Seq<Seq<char>>,
    ids: Seq<(u128, u128)>,
    now: int,
    other: Seq<char>,
    other_id: u128,
)
    requires
        ids.len() == links.len(),
        forall|i: int| 0 <= i < links.len() ==> #[trigger] links[i] != other,
        forall|i: int| 0 <= i < ids.len() ==> (#[trigger] ids[i]).0 != other_id,
    ensures
        ({
            let w = v.expand(job, base, links, ids, now);
            &&& lookup_url(w.pages, job.technology_id, job.version_id, other) == lookup_url(
                v.pages,
                job.technology_id,
                job.version_id,
                other,
            )
            &&& lookup_id(w.pages, other_id) == lookup_id(v.pages, other_id)
            &&& w.processed.contains(other) == v.processed.contains(other)
        }),
    decreases links.len(),
{
    if links.len() > 0 {
        let init = links.drop_last();
        let ids0 = ids.drop_last();
        assert forall|i: int| 0 <= i < init.len() implies #[trigger] init[i] != other by {
            assert(init[i] == links[i]);
        }
        assert forall|i: int| 0 <= i < ids0.len() implies (#[trigger] ids0[i]).0 != other_id by {
            assert(ids0[i] == ids[i]);
        }
        lemma_expand_leaves_others(v, job, base, init, ids0, now, other, other_id);
        let w0 = v.expand(job, base, init, ids0, now);
        assert(links.last() == links[links.len() - 1]);
        assert(ids.last() == ids[ids.len() - 1]);
        lemma_link_step_leaves_others(
            w0,
            job,
            base,
            links.last(),
            ids.last().0,
            ids.last().1,
            now,
            other,
            other_id,
        );
    }
}

/// A link that is new to a crawl whose task is not cancelled leads to
/// exactly one new page, at `PendingCrawl`, and to exactly one crawl task
/// for that page, at the end of the queue, with the link and the job's
/// filters in its payload.
pub proof fn lemma_new_link_is_queued(
    v: EngineView,
    job: JobView,
    base: Seq<char>,
    link: Seq<char>,
    page_id: u128,
    task_id: u128,
    now: int,
)
    requires
        !v.pool.cancelled(job.task_id),
        is_new_link(v, job, base, link, page_id),
    ensures
        ({
            let (w, decision) = v.link_step(job, base, link, page_id, task_id, now);
            &&& decision == LinkDecision::Created
            &&& w.pages == v.pages.push(
                fresh_page(page_id, job.technology_id, job.version_id, link, now),
            )
            &&& w.pool.queue == v.pool.queue.push(link_slot(job, link, page_id, task_id, now))
            &&& w.pool.active == v.pool.active
            &&& w.pool.events == v.pool.events.push(
                EventView::UrlStatusUpdated {
                    url_id: uuid_text(page_id),
                    status: crate::status::status_text(UrlStatus::PendingCrawl),
                },
            ).push(
                EventView::TaskCreated {
                    task_id: uuid_text(task_id),
                    task_type: "crawl_url"@,
                    metadata: link_slot(job, link, page_id, task_id, now).task.payload,
                },
            )
        }),
{
}

/// A link that the filters exclude leads to nothing: no page is added, no
/// task is queued and nothing is reported.
pub proof fn lemma_excluded_link_is_dropped(
    v: EngineView,
    job: JobView,
    base: Seq<char>,
    link: Seq<char>,
    page_id: u128,
    task_id: u128,
    now: int,
)
    requires
        !in_scope(link, job.prefix_path, job.anti_paths, job.anti_keywords),
    ensures
        ({
            let w = v.link_step(job, base, link, page_id, task_id, now).0;
            &&& w.pages == v.pages
            &&& w.pool == v.pool
        }),
{
}

/// The links of a page that are new to the crawl, no two alike and under
/// ids of which no two are alike, lead to exactly one page and exactly
/// one crawl task each, in their order and after what was queued before:
/// of links `A, A, B#frag, B`, which come to the engine as `A, B`, one
/// task is queued for `A` and one for `B`.
pub proof fn lemma_each_new_link_is_queued_once(
    v: EngineView,
    job: JobView,
    base: Seq<char>,
    links: Seq<Seq<char>>,
    ids: Seq<(u128, u128)>,
    now: int,
)
    requires
        !v.pool.cancelled(job.task_id),
        ids.len() == links.len(),
        forall|i: int, j: int| 0 <= i < j < links.len() ==> #[trigger] links[i] != #[trigger] links[j],
        forall|i: int, j: int|
            0 <= i < j < ids.len() ==> (#[trigger] ids[i]).0 != (#[trigger] ids[j]).0,
        forall|i: int|
            0 <= i < links.len() ==> is_new_link(v, job, base, #[trigger] links[i], ids[i].0),
    ensures
        ({
            let w = v.expand(job, base, links, ids, now);
            &&& w.pages == v.pages + new_pages(job, links, ids, now)
            &&& w.pool.queue == v.pool.queue + new_slots(job, links, ids, now)
            &&& w.pool.active == v.pool.active
            &&& !w.pool.cancelled(job.task_id)
        }),
    decreases links.len(),
{
    let w = v.expand(job, base, links, ids, now);
    if links.len() == 0 {
        assert(w.pages =~= v.pages + new_pages(job, links, ids, now));
        assert(w.pool.queue =~= v.pool.queue + new_slots(job, links, ids, now));
    } else {
        let init = links.drop_last();
        let ids0 = ids.drop_last();
        let n = init.len() as int;
        assert forall|i: int| 0 <= i < init.len() implies is_new_link(
            v,
            job,
            base,
            #[trigger] init[i],
            ids0[i].0,
        ) by {
            assert(init[i] == links[i]);
            assert(ids0[i] == ids[i]);
        }
        assert forall|i: int, j: int| 0 <= i < j < init.len() implies #[trigger] init[i]
            != #[trigger] init[j] by {
            assert(init[i] == links[i] && init[j] == links[j]);
        }
        assert forall|i: int, j: int| 0 <= i < j < ids0.len() implies (#[trigger] ids0[i]).0 != (
        #[trigger] ids0[j]).0 by {
            assert(ids0[i] == ids[i] && ids0[j] == ids[j]);
        }
        lemma_each_new_link_is_queued_once(v, job, base, init, ids0, now);
        let w0 = v.expand(job, base, init, ids0, now);
        let link = links[n];
        let page_id = ids[n].0;
        let task_id = ids[n].1;
        assert(links.last() == link && ids.last() == ids[n]);
        assert forall|i: int| 0 <= i < init.len() implies #[trigger] init[i] != link by {
            assert(init[i] == links[i]);
        }
        assert forall|i: int| 0 <= i < ids0.len() implies (#[trigger] ids0[i]).0 != page_id by {
            assert(ids0[i] == ids[i]);
        }
        lemma_expand_leaves_others(v, job, base, init, ids0, now, link, page_id);
        assert(is_new_link(v, job, base, links[n], ids[n].0));
        assert(is_new_link(w0, job, base, link, page_id));
        lemma_new_link_is_queued(w0, job, base, link, page_id, task_id, now);
        lemma_link_step_keeps_task_live(w0, job, base, link, page_id, task_id, now);
        assert(w == w0.link_step(job, base, link, page_id, task_id, now).0);
        assert(w.pages =~= v.pages + new_pages(job, links, ids, now));
        assert(w.pool.queue =~= v.pool.queue + new_slots(job, links, ids, now));
    }
}

/// A running task that is not cancelled and whose work fails is closed by
/// exactly one event: the one that reports the failure, with the
/// failure's message. For a fetch that ran out of time the message names
/// the URL.
pub proof fn lemma_failed_task_reports_one_failure(
    v: EngineView,
    task: TaskView,
    failure: FailureView,
    url: Seq<char>,
)
    requires
        slot_index(v.pool.active, task.id) matches Some(i) && !v.pool.active[i].cancelled,
    ensures
        v.close(task, Err(failure)).0.pool.events == v.pool.events.push(
            EventView::TaskFailed { task_id: task.id, error: failure_text(failure) },
        ),
        outcome_of(task.payload.url_id, None, Err(FailureView::FetchTimedOut(url)))
            == (crate::pool::OutcomeView::Failed { error: "Timeout while fetching URL: "@ + url }),
{
    crate::pool::lemma_slot_index(v.pool.active, task.id);
}

/// A page that awaits its crawl in a version keeps its URL out of the
/// cache when the pending pages of the version are taken out of it.
pub proof fn lemma_pending_page_leaves_cache(
    processed: Set<Seq<char>>,
    pages: Seq<DocumentationUrlView>,
    version_id: u128,
    i: int,
)
    requires
        0 <= i < pages.len(),
        pages[i].version_id == version_id,
        awaits_crawl(pages[i].status),
    ensures
        !crate::crawler::without_pending(processed, pages, version_id).contains(pages[i].url),
    decreases pages.len(),
{
    let init = pages.drop_last();
    if i < pages.len() - 1 {
        assert(init[i] == pages[i]);
        lemma_pending_page_leaves_cache(processed, init, version_id, i);
    }
}

/// A seed whose page rests at `CrawlError` is crawled again when it is
/// submitted once more, whatever the cache holds: the seed leaves the
/// cache, a crawl task for the page that is there is queued and its id
/// returned, and no page is added.
pub proof fn lemma_failed_seed_is_queued_again(
    v: EngineView,
    c: ConfigView,
    url: Seq<char>,
    page: DocumentationUrlView,
    page_id: u128,
    task_id: u128,
    now: int,
)
    requires
        crate::urls::normalized(c.start_url) == Some(url),
        in_scope(url, c.prefix_path, c.paths(), c.keywords()),
        lookup_url(v.pages, c.technology_id, c.version_id, url) == Some(page),
        page.status == UrlStatus::CrawlError,
    ensures
        ({
            let (w, told) = v.submit(c, page_id, task_id, now);
            &&& told == Ok::<SubmissionView, FailureView>(
                SubmissionView::Queued(uuid_text(task_id)),
            )
            &&& w.pages == v.pages
            &&& !w.processed.contains(url)
            &&& w.pool.queue == v.pool.queue.push(
                SlotView {
                    task: crawl_task(
                        task_id,
                        c.technology_id,
                        c.version_id,
                        c.start_url,
                        c.prefix_path,
                        c.paths(),
                        c.keywords(),
                        c.skips(),
                        page.id,
                        now,
                    ),
                    cancelled: false,
                },
            )
        }),
{
    crate::store::lemma_index_of_url(v.pages, c.technology_id, c.version_id, url);
    let i = crate::store::index_of_url(v.pages, c.technology_id, c.version_id, url).unwrap();
    lemma_pending_page_leaves_cache(v.processed, v.pages, c.version_id, i);
}

/// A crawl task that comes for a page at `CrawlError` is told to fetch
/// it even where the cache holds the URL: the stored status overrides the
/// cache.
pub proof fn lemma_crawl_error_overrides_cache(
    v: EngineView,
    job: JobView,
    url: Seq<char>,
    page: DocumentationUrlView,
    fresh_id: u128,
    now: int,
)
    requires
        job.skip_processed,
        v.processed.contains(url),
        crate::urls::normalized(job.url) == Some(url),
        crate::store::distinct_pages(v.pages),
        lookup_url(v.pages, job.technology_id, job.version_id, url) == Some(page),
        page.status == UrlStatus::CrawlError,
        !v.pool.cancelled(job.task_id),
        v.admits(job, url),
    ensures
        v.begin(job, fresh_id, now).1 == (StepView::Fetch { url, url_id: page.id }),
        !v.begin(job, fresh_id, now).0.processed.contains(url),
        !v.handled(job.technology_id, job.version_id, url),
{
    crate::crawler::lemma_crawl_error_is_fetched_again(v, job, url, page, fresh_id, now);
}

/// A page that is stored as `Processed` is left as it is by a crawl task
/// that passes over what was handled before, whether or not the cache
/// holds its URL: the task ends well, nothing is fetched, and the page
/// shows no further status.
pub proof fn lemma_processed_page_is_left_alone(
    v: EngineView,
    job: JobView,
    url: Seq<char>,
    page: DocumentationUrlView,
    fresh_id: u128,
    now: int,
    path: Seq<UrlStatus>,
)
    requires
        job.skip_processed,
        crate::urls::normalized(job.url) == Some(url),
        crate::store::distinct_pages(v.pages),
        lookup_url(v.pages, job.technology_id, job.version_id, url) == Some(page),
        page.status == UrlStatus::Processed,
        !v.pool.cancelled(job.task_id),
        v.admits(job, url),
    ensures
        ({
            let (w, step) = v.begin(job, fresh_id, now);
            &&& step == StepView::Finished(Ok(()))
            &&& w.pages == v.pages
            &&& w.in_flight == v.in_flight
            &&& w.processed == v.processed
            &&& w.pool.queue == v.pool.queue
            &&& v.begin_path(job, fresh_id, now, page.id, path) == path
        }),
{
    let started = v.report(job.task_id, 20, "filtering"@);
    assert(lookup_url(started.pages, job.technology_id, job.version_id, url) == Some(page));
}

/// A crawled page whose text a worker begins to refine shows
/// `ConvertingMarkdown` next, and a page with its refined text of which
/// a worker begins to make snippets shows `Processing` next.
pub proof fn lemma_stages_follow_the_crawl(
    v: EngineView,
    task_id: Seq<char>,
    page: DocumentationUrlView,
    now: int,
    path: Seq<UrlStatus>,
)
    requires
        lookup_id(v.pages, page.id) == Some(page),
        page.has_content(),
        !v.pool.cancelled(task_id),
    ensures
        page.status == UrlStatus::Crawled ==> v.begin_clean_path(
            task_id,
            page.id,
            now,
            page.id,
            path,
        ) == path.push(UrlStatus::ConvertingMarkdown),
        page.status == UrlStatus::MarkdownReady ==> v.begin_snippets_path(
            task_id,
            page.id,
            now,
            page.id,
            path,
        ) == path.push(UrlStatus::Processing),
        page.status == UrlStatus::MarkdownReady ==> v.begin_clean_path(
            task_id,
            page.id,
            now,
            page.id,
            path,
        ) == path,
{
}

/// After a fetch that ran out of time the page can be tried again: its
/// status is `CrawlError`, from which a crawl task moves it to `Crawling`
/// by way of `PendingCrawl`.
pub proof fn lemma_timeout_can_be_retried(
    v: EngineView,
    job: JobView,
    url: Seq<char>,
    url_id: u128,
    now: int,
)
    requires
        lookup_id(v.pages, url_id) matches Some(page) && page.status == UrlStatus::Crawling,
    ensures
        ({
            let failed = v.finish_fetch(job, url, url_id, FetchView::TimedOut, now).0;
            &&& lookup_id(failed.pages, url_id) matches Some(after) && after.status
                == UrlStatus::CrawlError
            &&& crate::status::may_follow(UrlStatus::CrawlError, UrlStatus::PendingCrawl)
            &&& crate::status::may_follow(UrlStatus::PendingCrawl, UrlStatus::Crawling)
        }),
{
    crate::crawler::lemma_timeout_leaves_crawl_error(v, job, url, url_id, now);
    let released = v.release(url_id);
    crate::store::lemma_change_is_seen(
        released.pages,
        url_id,
        status_change(UrlStatus::CrawlError),
        now,
        url_id,
    );
}

} // verus!
