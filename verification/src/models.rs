//! The records that the crawl engine keeps and hands out.

use vstd::prelude::*;
use crate::status::UrlStatus;
use crate::urls::opt_view;

verus! {

/// A discovered page of one version of one technology.
#[derive(Debug, Clone)]
pub struct DocumentationUrl {
    pub id: u128,
    pub technology_id: u128,
    pub version_id: u128,
    pub url: String,
    pub status: UrlStatus,
    pub html: Option<String>,
    pub markdown: Option<String>,
    pub cleaned_markdown: Option<String>,
    pub is_processed: bool,
    pub created_at: i64,
    pub updated_at: i64,
}

/// The mathematical value of a [`DocumentationUrl`].
pub struct DocumentationUrlView {
    pub id: u128,
    pub technology_id: u128,
    pub version_id: u128,
    pub url: Seq<char>,
    pub status: UrlStatus,
    pub html: Option<Seq<char>>,
    pub markdown: Option<Seq<char>>,
    pub cleaned_markdown: Option<Seq<char>>,
    pub is_processed: bool,
    pub created_at: int,
    pub updated_at: int,
}

impl View for DocumentationUrl {
    type V = DocumentationUrlView;

    open spec fn view(&self) -> DocumentationUrlView {
        DocumentationUrlView {
            id: self.id,
            technology_id: self.technology_id,
            version_id: self.version_id,
            url: self.url@,
            status: self.status,
            html: opt_view(self.html),
            markdown: opt_view(self.markdown),
            cleaned_markdown: opt_view(self.cleaned_markdown),
            is_processed: self.is_processed,
            created_at: self.created_at as int,
            updated_at: self.updated_at as int,
        }
    }
}

impl DocumentationUrlView {
    /// Whether the record holds fetched or converted content.
    pub open spec fn has_content(self) -> bool {
        self.html is Some || self.markdown is Some
    }

    /// The record without the large content fields.
    pub open spec fn without_content(self) -> DocumentationUrlView {
        DocumentationUrlView { html: None, markdown: None, cleaned_markdown: None, ..self }
    }
}

/// A copy of an optional string.
pub fn clone_opt(s: &Option<String>) -> (r: Option<String>)
    ensures
        r == *s,
{
    match s {
        Some(t) => Some(t.clone()),
        None => None,
    }
}

impl DocumentationUrl {
    /// A page as it is first discovered: awaiting its crawl, without
    /// content.
    pub fn discovered(id: u128, technology_id: u128, version_id: u128, url: &str, now: i64) -> (r:
        DocumentationUrl)
        ensures
            r@ == (DocumentationUrlView {
                id,
                technology_id,
                version_id,
                url: url@,
                status: UrlStatus::PendingCrawl,
                html: None,
                markdown: None,
                cleaned_markdown: None,
                is_processed: false,
                created_at: now as int,
                updated_at: now as int,
            }),
    {
        DocumentationUrl {
            id,
            technology_id,
            version_id,
            url: url.to_owned(),
            status: UrlStatus::PendingCrawl,
            html: None,
            markdown: None,
            cleaned_markdown: None,
            is_processed: false,
            created_at: now,
            updated_at: now,
        }
    }

    /// A copy of the record.
    pub fn duplicate(&self) -> (r: DocumentationUrl)
        ensures
            r == *self,
    {
        DocumentationUrl {
            id: self.id,
            technology_id: self.technology_id,
            version_id: self.version_id,
            url: self.url.clone(),
            status: self.status,
            html: clone_opt(&self.html),
            markdown: clone_opt(&self.markdown),
            cleaned_markdown: clone_opt(&self.cleaned_markdown),
            is_processed: self.is_processed,
            created_at: self.created_at,
            updated_at: self.updated_at,
        }
    }

    /// A copy of the record without its content.
    pub fn summary(&self) -> (r: DocumentationUrl)
        ensures
            r@ == self@.without_content(),
    {
        DocumentationUrl {
            id: self.id,
            technology_id: self.technology_id,
            version_id: self.version_id,
            url: self.url.clone(),
            status: self.status,
            html: None,
            markdown: None,
            cleaned_markdown: None,
            is_processed: self.is_processed,
            created_at: self.created_at,
            updated_at: self.updated_at,
        }
    }

    pub fn get_status(&self) -> (r: UrlStatus)
        ensures
            r == self.status,
    {
        self.status
    }

    pub fn set_status(&mut self, status: UrlStatus)
        ensures
            *final(self) == (DocumentationUrl { status, ..*old(self) }),
    {
        self.status = status;
    }

    pub fn status_equals(&self, status: UrlStatus) -> (r: bool)
        ensures
            r == (self.status == status),
    {
        self.status == status
    }

    pub fn is_crawled(&self) -> (r: bool)
        ensures
            r == (self.status == UrlStatus::Crawled),
    {
        self.status == UrlStatus::Crawled
    }

    pub fn is_markdown_ready(&self) -> (r: bool)
        ensures
            r == (self.status == UrlStatus::MarkdownReady),
    {
        self.status == UrlStatus::MarkdownReady
    }

    /// Whether the record holds fetched or converted content.
    pub fn has_content(&self) -> (r: bool)
        ensures
            r == self@.has_content(),
    {
        self.html.is_some() || self.markdown.is_some()
    }
}

/// The crawl filters kept for one version, as they are stored: the lists
/// are comma-separated.
#[derive(Debug, Clone)]
pub struct CrawlingSettings {
    pub id: u128,
    pub version_id: u128,
    pub prefix_path: Option<String>,
    pub anti_paths: Option<String>,
    pub anti_keywords: Option<String>,
    pub created_at: i64,
    pub updated_at: i64,
}

/// One version of a technology.
#[derive(Debug, Clone)]
pub struct TechnologyVersion {
    pub id: u128,
    pub technology_id: u128,
    pub version: String,
    pub created_at: i64,
    pub updated_at: i64,
}

/// A technology whose documentation is kept.
#[derive(Debug, Clone)]
pub struct Technology {
    pub id: u128,
    pub name: String,
    pub language: Option<String>,
    pub related: Option<Vec<Option<String>>>,
    pub created_at: i64,
    pub updated_at: i64,
}

/// A component of a technology stack, as a client names it.
#[derive(Debug, Clone)]
pub struct TechComponent {
    pub name: String,
    pub version: Option<String>,
}

} // verus!
