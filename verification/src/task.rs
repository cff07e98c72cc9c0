//! Tasks: the units of work that the scheduler hands to its workers.

use vstd::prelude::*;
use crate::filter::clone_strings;
use crate::ids::{id_text, now_millis, random_id, uuid_text};
use crate::text::{str_eq, views};

verus! {

/// What a task carries: the URL it is about, the page's id and the filters
/// that were in force when the task was made.
#[derive(Debug, Clone)]
pub struct TaskPayload {
    pub url: String,
    pub prefix_path: String,
    pub anti_paths: Vec<String>,
    pub anti_keywords: Vec<String>,
    pub skip_processed: bool,
    pub url_id: u128,
}

/// The mathematical value of a [`TaskPayload`].
pub struct TaskPayloadView {
    pub url: Seq<char>,
    pub prefix_path: Seq<char>,
    pub anti_paths: Seq<Seq<char>>,
    pub anti_keywords: Seq<Seq<char>>,
    pub skip_processed: bool,
    pub url_id: u128,
}

impl View for TaskPayload {
    type V = TaskPayloadView;

    open spec fn view(&self) -> TaskPayloadView {
        TaskPayloadView {
            url: self.url@,
            prefix_path: self.prefix_path@,
            anti_paths: views(self.anti_paths@),
            anti_keywords: views(self.anti_keywords@),
            skip_processed: self.skip_processed,
            url_id: self.url_id,
        }
    }
}

impl TaskPayload {
    /// The payload of a crawl of `url` under the given filters.
    pub fn for_crawl(
        url: &str,
        prefix_path: &str,
        anti_paths: &[String],
        anti_keywords: &[String],
        skip_processed: bool,
        url_id: u128,
    ) -> (r: TaskPayload)
        ensures
            r@ == (TaskPayloadView {
                url: url@,
                prefix_path: prefix_path@,
                anti_paths: views(anti_paths@),
                anti_keywords: views(anti_keywords@),
                skip_processed,
                url_id,
            }),
    {
        TaskPayload {
            url: url.to_owned(),
            prefix_path: prefix_path.to_owned(),
            anti_paths: clone_strings(anti_paths),
            anti_keywords: clone_strings(anti_keywords),
            skip_processed,
            url_id,
        }
    }

    /// A payload that names a page and no filters.
    pub fn for_page(url: &str, url_id: u128) -> (r: TaskPayload)
        ensures
            r@ == (TaskPayloadView {
                url: url@,
                prefix_path: Seq::empty(),
                anti_paths: Seq::empty(),
                anti_keywords: Seq::empty(),
                skip_processed: false,
                url_id,
            }),
    {
        let r = TaskPayload {
            url: url.to_owned(),
            prefix_path: String::new(),
            anti_paths: Vec::new(),
            anti_keywords: Vec::new(),
            skip_processed: false,
            url_id,
        };
        assert(views(r.anti_paths@) =~= Seq::<Seq<char>>::empty());
        assert(views(r.anti_keywords@) =~= Seq::<Seq<char>>::empty());
        r
    }

    /// A copy of the payload.
    pub fn duplicate(&self) -> (r: TaskPayload)
        ensures
            r@ == self@,
    {
        TaskPayload {
            url: self.url.clone(),
            prefix_path: self.prefix_path.clone(),
            anti_paths: clone_strings(self.anti_paths.as_slice()),
            anti_keywords: clone_strings(self.anti_keywords.as_slice()),
            skip_processed: self.skip_processed,
            url_id: self.url_id,
        }
    }
}

/// Where a task stands: `Queued`, then `Running`, then one of the three
/// outcomes.
#[derive(Debug, Clone, Copy, PartialEq, Eq, Structural)]
pub enum TaskStatus {
    Queued,
    Running,
    Completed,
    Failed,
    Cancelled,
}

/// Whether a task in state `from` may next be in state `to`.
pub open spec fn task_may_follow(from: TaskStatus, to: TaskStatus) -> bool {
    match from {
        TaskStatus::Queued => to == TaskStatus::Running,
        TaskStatus::Running => to == TaskStatus::Completed || to == TaskStatus::Failed || to
            == TaskStatus::Cancelled,
        _ => false,
    }
}

/// The kinds of work that the scheduler knows how to dispatch.
#[derive(Debug, Clone, Copy, PartialEq, Eq, Structural)]
pub enum TaskKind {
    CrawlUrl,
    CleanMarkdown,
    GenerateSnippets,
    Other,
}

/// The kind that a task type names.
pub open spec fn kind_of(task_type: Seq<char>) -> TaskKind {
    if task_type == "crawl_url"@ {
        TaskKind::CrawlUrl
    } else if task_type == "clean_markdown"@ {
        TaskKind::CleanMarkdown
    } else if task_type == "generate_snippets"@ {
        TaskKind::GenerateSnippets
    } else {
        TaskKind::Other
    }
}

/// The task type that names a kind of work the scheduler dispatches.
pub open spec fn kind_text(kind: TaskKind) -> Seq<char> {
    match kind {
        TaskKind::CrawlUrl => "crawl_url"@,
        TaskKind::CleanMarkdown => "clean_markdown"@,
        TaskKind::GenerateSnippets => "generate_snippets"@,
        TaskKind::Other => "other"@,
    }
}

impl TaskKind {
    /// The kind that a task type names.
    pub fn parse(task_type: &str) -> (r: TaskKind)
        ensures
            r == kind_of(task_type@),
    {
        if str_eq(task_type, "crawl_url") {
            TaskKind::CrawlUrl
        } else if str_eq(task_type, "clean_markdown") {
            TaskKind::CleanMarkdown
        } else if str_eq(task_type, "generate_snippets") {
            TaskKind::GenerateSnippets
        } else {
            TaskKind::Other
        }
    }

    /// The task type that names this kind.
    pub fn as_str(self) -> (r: &'static str)
        ensures
            r@ == kind_text(self),
    {
        match self {
            TaskKind::CrawlUrl => "crawl_url",
            TaskKind::CleanMarkdown => "clean_markdown",
            TaskKind::GenerateSnippets => "generate_snippets",
            TaskKind::Other => "other",
        }
    }
}

/// The name of a kind reads back as that kind.
pub proof fn lemma_kind_text_roundtrip(kind: TaskKind)
    ensures
        kind_of(kind_text(kind)) == kind,
{
    reveal_strlit("crawl_url");
    reveal_strlit("clean_markdown");
    reveal_strlit("generate_snippets");
    reveal_strlit("other");
    assert("crawl_url"@.len() == 9);
    assert("clean_markdown"@.len() == 14);
    assert("generate_snippets"@.len() == 17);
    assert("other"@.len() == 5);
}

/// A unit of scheduler work.
#[derive(Debug, Clone)]
pub struct Task {
    pub id: String,
    pub task_type: String,
    pub status: TaskStatus,
    pub progress: i32,
    pub technology_id: Option<u128>,
    pub version_id: Option<u128>,
    pub payload: TaskPayload,
    pub created_at: i64,
}

/// The mathematical value of a [`Task`].
pub struct TaskView {
    pub id: Seq<char>,
    pub task_type: Seq<char>,
    pub status: TaskStatus,
    pub progress: i32,
    pub technology_id: Option<u128>,
    pub version_id: Option<u128>,
    pub payload: TaskPayloadView,
    pub created_at: int,
}

impl View for Task {
    type V = TaskView;

    open spec fn view(&self) -> TaskView {
        TaskView {
            id: self.id@,
            task_type: self.task_type@,
            status: self.status,
            progress: self.progress,
            technology_id: self.technology_id,
            version_id: self.version_id,
            payload: self.payload@,
            created_at: self.created_at as int,
        }
    }
}

/// A task as it is made: queued, without progress.
pub open spec fn new_task(
    id: Seq<char>,
    task_type: Seq<char>,
    technology_id: Option<u128>,
    version_id: Option<u128>,
    payload: TaskPayloadView,
    now: int,
) -> TaskView {
    TaskView {
        id,
        task_type,
        status: TaskStatus::Queued,
        progress: 0,
        technology_id,
        version_id,
        payload,
        created_at: now,
    }
}

impl Task {
    /// A new task with a random id, made now.
    pub fn new(
        task_type: &str,
        technology_id: Option<u128>,
        version_id: Option<u128>,
        payload: TaskPayload,
    ) -> (r: Task)
        ensures
            r@ == new_task(
                r.id@,
                task_type@,
                technology_id,
                version_id,
                payload@,
                r.created_at as int,
            ),
            exists|id: u128| r.id@ == uuid_text(id),
    {
        let id = random_id();
        let now = now_millis();
        Task::with_id(id, task_type, technology_id, version_id, payload, now)
    }

    /// A new task whose id is the text of `id`, made at `now`.
    pub fn with_id(
        id: u128,
        task_type: &str,
        technology_id: Option<u128>,
        version_id: Option<u128>,
        payload: TaskPayload,
        now: i64,
    ) -> (r: Task)
        ensures
            r@ == new_task(
                uuid_text(id),
                task_type@,
                technology_id,
                version_id,
                payload@,
                now as int,
            ),
    {
        Task {
            id: id_text(id),
            task_type: task_type.to_owned(),
            status: TaskStatus::Queued,
            progress: 0,
            technology_id,
            version_id,
            payload,
            created_at: now,
        }
    }

    /// The kind of work that the task asks for.
    pub fn kind(&self) -> (r: TaskKind)
        ensures
            r == kind_of(self.task_type@),
    {
        TaskKind::parse(self.task_type.as_str())
    }

    /// A copy of the task.
    pub fn duplicate(&self) -> (r: Task)
        ensures
            r@ == self@,
    {
        Task {
            id: self.id.clone(),
            task_type: self.task_type.clone(),
            status: self.status,
            progress: self.progress,
            technology_id: self.technology_id,
            version_id: self.version_id,
            payload: self.payload.duplicate(),
            created_at: self.created_at,
        }
    }
}

/// What a client states about a technology that it works with.
#[derive(Debug, Clone)]
pub struct TechnicalInfo {
    pub name: String,
    pub version: Option<String>,
    pub related_technologies: Option<Vec<String>>,
}

} // verus!
