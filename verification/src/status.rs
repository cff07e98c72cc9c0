//! Lifecycle states of a discovered documentation page, and the
//! transitions between them.
//!
//! A page is discovered as `PendingCrawl`. Each stage of the pipeline
//! (crawl, markdown, processing) has a pending state, a working state and
//! two outcomes. The five resting states (`CrawlError`, `MarkdownError`,
//! `ProcessingError`, `Skipped`, `Processed`) are left only when a retry
//! puts the page back at the start of a stage.

use vstd::prelude::*;
use crate::text::str_eq;

verus! {

/// Where a discovered page stands in the crawl and processing pipeline.
#[derive(Debug, Clone, Copy, PartialEq, Eq, Structural)]
pub enum UrlStatus {
    PendingCrawl,
    Crawling,
    Crawled,
    CrawlError,
    PendingMarkdown,
    ConvertingMarkdown,
    MarkdownReady,
    MarkdownError,
    PendingProcessing,
    Processing,
    Processed,
    ProcessingError,
    Skipped,
}

/// The name under which a status is stored and reported.
pub open spec fn status_text(s: UrlStatus) -> Seq<char> {
    match s {
        UrlStatus::PendingCrawl => "pending_crawl"@,
        UrlStatus::Crawling => "crawling"@,
        UrlStatus::Crawled => "crawled"@,
        UrlStatus::CrawlError => "crawl_error"@,
        UrlStatus::PendingMarkdown => "pending_markdown"@,
        UrlStatus::ConvertingMarkdown => "converting_markdown"@,
        UrlStatus::MarkdownReady => "markdown_ready"@,
        UrlStatus::MarkdownError => "markdown_error"@,
        UrlStatus::PendingProcessing => "pending_processing"@,
        UrlStatus::Processing => "processing"@,
        UrlStatus::Processed => "processed"@,
        UrlStatus::ProcessingError => "processing_error"@,
        UrlStatus::Skipped => "skipped"@,
    }
}

/// The status that a stored name stands for. An unknown name stands for
/// `PendingCrawl`.
pub open spec fn parse_status(t: Seq<char>) -> UrlStatus {
    if t == "crawling"@ {
        UrlStatus::Crawling
    } else if t == "crawled"@ {
        UrlStatus::Crawled
    } else if t == "crawl_error"@ {
        UrlStatus::CrawlError
    } else if t == "pending_markdown"@ {
        UrlStatus::PendingMarkdown
    } else if t == "converting_markdown"@ {
        UrlStatus::ConvertingMarkdown
    } else if t == "markdown_ready"@ {
        UrlStatus::MarkdownReady
    } else if t == "markdown_error"@ {
        UrlStatus::MarkdownError
    } else if t == "pending_processing"@ {
        UrlStatus::PendingProcessing
    } else if t == "processing"@ {
        UrlStatus::Processing
    } else if t == "processed"@ {
        UrlStatus::Processed
    } else if t == "processing_error"@ {
        UrlStatus::ProcessingError
    } else if t == "skipped"@ {
        UrlStatus::Skipped
    } else {
        UrlStatus::PendingCrawl
    }
}

/// A page in one of these states still awaits a crawl, or has to repeat
/// it: the processed-URL cache never hides such a page.
pub open spec fn awaits_crawl(s: UrlStatus) -> bool {
    s == UrlStatus::PendingCrawl || s == UrlStatus::Crawling || s == UrlStatus::PendingMarkdown
        || s == UrlStatus::PendingProcessing || s == UrlStatus::CrawlError
}

/// The resting states: an outcome that only a retry leaves.
pub open spec fn at_rest(s: UrlStatus) -> bool {
    s == UrlStatus::CrawlError || s == UrlStatus::MarkdownError || s == UrlStatus::ProcessingError
        || s == UrlStatus::Skipped || s == UrlStatus::Processed
}

/// The states at which a stage of the pipeline starts.
pub open spec fn stage_entry(s: UrlStatus) -> bool {
    s == UrlStatus::PendingCrawl || s == UrlStatus::PendingMarkdown || s
        == UrlStatus::PendingProcessing
}

/// The transition relation: whether a page in state `from` may next be
/// seen in state `to`.
///
/// A resting state is left for the start of a stage only. Any other state
/// may become `Skipped`; besides that each moves along its stage.
pub open spec fn may_follow(from: UrlStatus, to: UrlStatus) -> bool {
    if at_rest(from) {
        stage_entry(to)
    } else if to == UrlStatus::Skipped {
        true
    } else {
        match from {
            UrlStatus::PendingCrawl => to == UrlStatus::Crawling,
            UrlStatus::Crawling => to == UrlStatus::Crawled || to == UrlStatus::CrawlError,
            UrlStatus::Crawled => to == UrlStatus::PendingMarkdown || to
                == UrlStatus::ConvertingMarkdown || to == UrlStatus::PendingProcessing || to
                == UrlStatus::Processing,
            UrlStatus::PendingMarkdown => to == UrlStatus::ConvertingMarkdown,
            UrlStatus::ConvertingMarkdown => to == UrlStatus::MarkdownReady || to
                == UrlStatus::MarkdownError,
            UrlStatus::MarkdownReady => to == UrlStatus::PendingProcessing || to
                == UrlStatus::Processing,
            UrlStatus::PendingProcessing => to == UrlStatus::Processing,
            UrlStatus::Processing => to == UrlStatus::Processed || to
                == UrlStatus::ProcessingError,
            _ => false,
        }
    }
}

/// A sequence of statuses that a page may show over its life: it starts at
/// `PendingCrawl` and each status may follow the one before.
pub open spec fn valid_path(p: Seq<UrlStatus>) -> bool {
    &&& p.len() > 0
    &&& p[0] == UrlStatus::PendingCrawl
    &&& forall|i: int| 0 <= i < p.len() - 1 ==> may_follow(#[trigger] p[i], p[i + 1])
}

impl UrlStatus {
    /// The name under which the status is stored and reported.
    pub fn as_str(self) -> (r: &'static str)
        ensures
            r@ == status_text(self),
    {
        match self {
            UrlStatus::PendingCrawl => "pending_crawl",
            UrlStatus::Crawling => "crawling",
            UrlStatus::Crawled => "crawled",
            UrlStatus::CrawlError => "crawl_error",
            UrlStatus::PendingMarkdown => "pending_markdown",
            UrlStatus::ConvertingMarkdown => "converting_markdown",
            UrlStatus::MarkdownReady => "markdown_ready",
            UrlStatus::MarkdownError => "markdown_error",
            UrlStatus::PendingProcessing => "pending_processing",
            UrlStatus::Processing => "processing",
            UrlStatus::Processed => "processed",
            UrlStatus::ProcessingError => "processing_error",
            UrlStatus::Skipped => "skipped",
        }
    }

    /// The status that a stored name stands for; `PendingCrawl` for a name
    /// that is none.
    pub fn parse(text: &str) -> (r: UrlStatus)
        ensures
            r == parse_status(text@),
    {
        if str_eq(text, "crawling") {
            UrlStatus::Crawling
        } else if str_eq(text, "crawled") {
            UrlStatus::Crawled
        } else if str_eq(text, "crawl_error") {
            UrlStatus::CrawlError
        } else if str_eq(text, "pending_markdown") {
            UrlStatus::PendingMarkdown
        } else if str_eq(text, "converting_markdown") {
            UrlStatus::ConvertingMarkdown
        } else if str_eq(text, "markdown_ready") {
            UrlStatus::MarkdownReady
        } else if str_eq(text, "markdown_error") {
            UrlStatus::MarkdownError
        } else if str_eq(text, "pending_processing") {
            UrlStatus::PendingProcessing
        } else if str_eq(text, "processing") {
            UrlStatus::Processing
        } else if str_eq(text, "processed") {
            UrlStatus::Processed
        } else if str_eq(text, "processing_error") {
            UrlStatus::ProcessingError
        } else if str_eq(text, "skipped") {
            UrlStatus::Skipped
        } else {
            UrlStatus::PendingCrawl
        }
    }

    /// The status as an owned string.
    pub fn to_text(self) -> (r: String)
        ensures
            r@ == status_text(self),
    {
        self.as_str().to_owned()
    }

    /// Whether a page in this state still awaits a crawl.
    pub fn is_pending(self) -> (r: bool)
        ensures
            r == awaits_crawl(self),
    {
        self == UrlStatus::PendingCrawl || self == UrlStatus::Crawling || self
            == UrlStatus::PendingMarkdown || self == UrlStatus::PendingProcessing || self
            == UrlStatus::CrawlError
    }

    /// Whether this is a resting state.
    pub fn is_resting(self) -> (r: bool)
        ensures
            r == at_rest(self),
    {
        self == UrlStatus::CrawlError || self == UrlStatus::MarkdownError || self
            == UrlStatus::ProcessingError || self == UrlStatus::Skipped || self
            == UrlStatus::Processed
    }

    /// Whether a page in this state may next be in state `to`.
    pub fn can_become(self, to: UrlStatus) -> (r: bool)
        ensures
            r == may_follow(self, to),
    {
        if self.is_resting() {
            to == UrlStatus::PendingCrawl || to == UrlStatus::PendingMarkdown || to
                == UrlStatus::PendingProcessing
        } else if to == UrlStatus::Skipped {
            true
        } else {
            match self {
                UrlStatus::PendingCrawl => to == UrlStatus::Crawling,
                UrlStatus::Crawling => to == UrlStatus::Crawled || to == UrlStatus::CrawlError,
                UrlStatus::Crawled => to == UrlStatus::PendingMarkdown || to
                    == UrlStatus::ConvertingMarkdown || to == UrlStatus::PendingProcessing || to
                    == UrlStatus::Processing,
                UrlStatus::PendingMarkdown => to == UrlStatus::ConvertingMarkdown,
                UrlStatus::ConvertingMarkdown => to == UrlStatus::MarkdownReady || to
                    == UrlStatus::MarkdownError,
                UrlStatus::MarkdownReady => to == UrlStatus::PendingProcessing || to
                    == UrlStatus::Processing,
                UrlStatus::PendingProcessing => to == UrlStatus::Processing,
                UrlStatus::Processing => to == UrlStatus::Processed || to
                    == UrlStatus::ProcessingError,
                _ => false,
            }
        }
    }
}

impl From<String> for UrlStatus {
    fn from(s: String) -> (r: UrlStatus) {
        UrlStatus::parse(s.as_str())
    }
}

impl vstd::std_specs::convert::FromSpecImpl<String> for UrlStatus {
    open spec fn obeys_from_spec() -> bool {
        true
    }

    open spec fn from_spec(s: String) -> UrlStatus {
        parse_status(s@)
    }
}

/// Reading back the name of a status gives that status.
pub proof fn lemma_status_text_roundtrip(s: UrlStatus)
    ensures
        parse_status(status_text(s)) == s,
{
    reveal_strlit("pending_crawl");
    reveal_strlit("crawling");
    reveal_strlit("crawled");
    reveal_strlit("crawl_error");
    reveal_strlit("pending_markdown");
    reveal_strlit("converting_markdown");
    reveal_strlit("markdown_ready");
    reveal_strlit("markdown_error");
    reveal_strlit("pending_processing");
    reveal_strlit("processing");
    reveal_strlit("processed");
    reveal_strlit("processing_error");
    reveal_strlit("skipped");
    assert("pending_crawl"@.len() == 13);
    assert("crawling"@.len() == 8);
    assert("crawled"@.len() == 7 && "crawled"@[0] == 'c');
    assert("crawl_error"@.len() == 11);
    assert("pending_markdown"@.len() == 16 && "pending_markdown"@[1] == 'e');
    assert("converting_markdown"@.len() == 19);
    assert("markdown_ready"@.len() == 14 && "markdown_ready"@[9] == 'r');
    assert("markdown_error"@.len() == 14 && "markdown_error"@[9] == 'e');
    assert("pending_processing"@.len() == 18);
    assert("processing"@.len() == 10);
    assert("processed"@.len() == 9);
    assert("processing_error"@.len() == 16 && "processing_error"@[1] == 'r');
    assert("skipped"@.len() == 7 && "skipped"@[0] == 's');
}

/// No page goes from `Processed` straight back to `Crawling`.
pub proof fn lemma_processed_never_crawling_next()
    ensures
        !may_follow(UrlStatus::Processed, UrlStatus::Crawling),
{
}

/// A resting state is left only for the start of a stage, and `Processed`
/// in particular is left for nothing else.
pub proof fn lemma_rest_left_by_retry_only(from: UrlStatus, to: UrlStatus)
    requires
        at_rest(from),
        may_follow(from, to),
    ensures
        stage_entry(to),
{
}

/// No status follows itself: every step of a path is a change.
pub proof fn lemma_no_self_transition(s: UrlStatus)
    ensures
        !may_follow(s, s),
{
}

/// In a valid path `Crawling` is always entered from `PendingCrawl`, and
/// never directly after `Processed`.
pub proof fn lemma_crawling_entered_from_pending(p: Seq<UrlStatus>, i: int)
    requires
        valid_path(p),
        0 < i < p.len(),
        p[i] == UrlStatus::Crawling,
    ensures
        p[i - 1] == UrlStatus::PendingCrawl,
{
    assert(may_follow(p[i - 1], p[i - 1 + 1]));
}

/// A valid path stays valid when extended by a status that may follow its
/// last one.
pub proof fn lemma_path_extends(p: Seq<UrlStatus>, next: UrlStatus)
    requires
        valid_path(p),
        may_follow(p.last(), next),
    ensures
        valid_path(p.push(next)),
{
    let q = p.push(next);
    assert forall|i: int| 0 <= i < q.len() - 1 implies may_follow(#[trigger] q[i], q[i + 1]) by {
        if i < p.len() - 1 {
            assert(may_follow(p[i], p[i + 1]));
        }
    }
}

} // verus!
