//! Search requests: paging, the choice of the version to search in, and
//! the queries that a search runs.

use vstd::prelude::*;
use crate::ids::{id_text, parse_id, uuid_text, uuid_value};
use crate::urls::opt_view;

verus! {

/// A search request.
#[derive(Debug, Clone)]
pub struct SearchQuery {
    pub query: String,
    pub technology_id: Option<String>,
    pub version_id: Option<String>,
    pub limit: Option<usize>,
}

/// What a vector index is reached with.
#[derive(Debug, Clone)]
pub struct PineconeConfig {
    pub api_key: String,
    pub index_name: String,
}

/// The page of results that is asked for.
#[derive(Debug, Clone, Copy, PartialEq, Eq, Structural)]
pub struct PaginationParams {
    pub page: i64,
    pub per_page: i64,
}

impl Default for PaginationParams {
    fn default() -> (r: PaginationParams)
        ensures
            r == (PaginationParams { page: 1, per_page: 20 }),
    {
        PaginationParams { page: 1, per_page: 20 }
    }
}

/// How long the store is waited for, in seconds.
#[derive(Debug, Clone, Copy, PartialEq, Eq, Structural)]
pub struct TimeoutConfig {
    pub init_timeout_secs: u64,
    pub operation_timeout_secs: u64,
}

impl Default for TimeoutConfig {
    fn default() -> (r: TimeoutConfig)
        ensures
            r == (TimeoutConfig { init_timeout_secs: 30, operation_timeout_secs: 10 }),
    {
        TimeoutConfig { init_timeout_secs: 30, operation_timeout_secs: 10 }
    }
}

/// The paging of a search: none where neither a page nor a size is named;
/// else the first page where no page is named, and ten results where no
/// size is named.
pub open spec fn paging(page: Option<i64>, per_page: Option<i64>) -> Option<PaginationParams> {
    match (page, per_page) {
        (None, None) => None,
        (Some(p), None) => Some(PaginationParams { page: p, per_page: 10 }),
        (None, Some(n)) => Some(PaginationParams { page: 1, per_page: n }),
        (Some(p), Some(n)) => Some(PaginationParams { page: p, per_page: n }),
    }
}

/// The paging of a search.
pub fn pagination_for(page: Option<i64>, per_page: Option<i64>) -> (r: Option<PaginationParams>)
    ensures
        r == paging(page, per_page),
{
    match (page, per_page) {
        (None, None) => None,
        (Some(p), None) => Some(PaginationParams { page: p, per_page: 10 }),
        (None, Some(n)) => Some(PaginationParams { page: 1, per_page: n }),
        (Some(p), Some(n)) => Some(PaginationParams { page: p, per_page: n }),
    }
}

/// The number of results that come before a page.
pub open spec fn offset_of(p: PaginationParams) -> int {
    (p.page - 1) * p.per_page
}

/// The number of results that come before a page; none where it cannot be
/// counted in 64 bits.
pub fn page_offset(p: &PaginationParams) -> (r: Option<i64>)
    ensures
        match r {
            Some(o) => o == offset_of(*p),
            None => offset_of(*p) < i64::MIN || offset_of(*p) > i64::MAX,
        },
{
    match p.page.checked_sub(1) {
        Some(before) => before.checked_mul(p.per_page),
        None => {
            // The page number is the least of all: the offset is that
            // number, less one, times the page size.
            if p.per_page == 0 {
                Some(0)
            } else {
                assert(offset_of(*p) < i64::MIN || offset_of(*p) > i64::MAX) by (nonlinear_arith)
                    requires
                        p.page == i64::MIN,
                        p.per_page != 0,
                        offset_of(*p) == (p.page - 1) * p.per_page,
                ;
                None
            }
        },
    }
}

/// The number of pages that `total` results fill, `per_page` to a page.
pub open spec fn pages_needed(total: int, per_page: int) -> int {
    if total <= 0 || per_page <= 0 {
        0
    } else {
        (total - 1) / per_page + 1
    }
}

/// The number of pages that `total` results fill; 0 where there are no
/// results or no page size.
pub fn total_pages(total: i64, per_page: i64) -> (r: i64)
    ensures
        r == pages_needed(total as int, per_page as int),
{
    if total <= 0 || per_page <= 0 {
        0
    } else {
        (total - 1) / per_page + 1
    }
}

/// The version that a search is restricted to: the one that is named,
/// unless the search is global or the name is no id.
pub open spec fn search_version(version_id: Option<Seq<char>>, global_search: Option<bool>)
    -> Option<u128> {
    match version_id {
        Some(text) => if global_search == Some(true) {
            None
        } else {
            uuid_value(text)
        },
        None => None,
    }
}

/// The version that a search is restricted to.
pub fn resolve_search_version(version_id: &Option<String>, global_search: Option<bool>) -> (r:
    Option<u128>)
    ensures
        r == search_version(opt_view(*version_id), global_search),
{
    match version_id {
        Some(text) => {
            let global = match global_search {
                Some(g) => g,
                None => false,
            };
            if global {
                None
            } else {
                parse_id(text.as_str())
            }
        },
        None => None,
    }
}

/// The condition that restricts a query: a filter as it is given; else
/// the version; else none.
pub open spec fn condition(filter: Option<Seq<char>>, version_id: Option<u128>) -> Seq<char> {
    match filter {
        Some(f) => " WHERE "@ + f,
        None => match version_id {
            Some(v) => " WHERE s.version_id = '"@ + uuid_text(v) + "'"@,
            None => Seq::empty(),
        },
    }
}

fn build_condition(filter: &Option<String>, version_id: &Option<u128>) -> (r: String)
    ensures
        r@ == condition(opt_view(*filter), *version_id),
{
    match filter {
        Some(f) => crate::text::concat2(" WHERE ", f.as_str()),
        None => match version_id {
            Some(v) => crate::text::concat3(" WHERE s.version_id = '", id_text(*v).as_str(), "'"),
            None => String::new(),
        },
    }
}

/// The part that the counting query has before its condition.
pub open spec fn count_head() -> Seq<char> {
    "SELECT COUNT(*) as count FROM documentation_embeddings e JOIN documentation_snippets s ON e.snippet_id = s.id JOIN technologies t ON s.technology_id = t.id JOIN technology_versions tv ON s.version_id = tv.id"@
}

/// The query that counts the snippets of a search.
pub fn build_count_query(filter: &Option<String>, version_id: &Option<u128>) -> (r: String)
    ensures
        r@ == count_head() + condition(opt_view(*filter), *version_id),
{
    crate::text::concat2(
        "SELECT COUNT(*) as count FROM documentation_embeddings e JOIN documentation_snippets s ON e.snippet_id = s.id JOIN technologies t ON s.technology_id = t.id JOIN technology_versions tv ON s.version_id = tv.id",
        build_condition(filter, version_id).as_str(),
    )
}

/// The part that the search query has before its condition.
pub open spec fn search_head() -> Seq<char> {
    "SELECT s.id::text as id, (e.embedding::vector(2000) <-> $1::vector(2000))::float4 as similarity, s.content as content, json_build_object('title', s.title, 'description', s.description, 'technology_id', s.technology_id, 'version_id', s.version_id, 'source_url', s.source_url, 'concepts', s.concepts)::text as metadata, t.name as technology_name, t.language as technology_language, array_to_string(t.related, ', ') as technology_related, tv.version as version, s.source_url as source_url, s.title as title, s.description as description, array_to_string(s.concepts, ', ') as concepts FROM documentation_embeddings e JOIN documentation_snippets s ON e.snippet_id = s.id JOIN technologies t ON s.technology_id = t.id JOIN technology_versions tv ON s.version_id = tv.id"@
}

/// The query that finds the snippets of a search, closest first, one page
/// of them.
pub fn build_search_query(filter: &Option<String>, version_id: &Option<u128>) -> (r: String)
    ensures
        r@ == search_head() + condition(opt_view(*filter), *version_id)
            + " ORDER BY similarity ASC OFFSET $2 LIMIT $3"@,
{
    crate::text::concat3(
        "SELECT s.id::text as id, (e.embedding::vector(2000) <-> $1::vector(2000))::float4 as similarity, s.content as content, json_build_object('title', s.title, 'description', s.description, 'technology_id', s.technology_id, 'version_id', s.version_id, 'source_url', s.source_url, 'concepts', s.concepts)::text as metadata, t.name as technology_name, t.language as technology_language, array_to_string(t.related, ', ') as technology_related, tv.version as version, s.source_url as source_url, s.title as title, s.description as description, array_to_string(s.concepts, ', ') as concepts FROM documentation_embeddings e JOIN documentation_snippets s ON e.snippet_id = s.id JOIN technologies t ON s.technology_id = t.id JOIN technology_versions tv ON s.version_id = tv.id",
        build_condition(filter, version_id).as_str(),
        " ORDER BY similarity ASC OFFSET $2 LIMIT $3",
    )
}

} // verus!
