//! The filter engine: decides whether a URL is in scope of a crawl.
//!
//! A URL is compared in three lowercase forms: the full text, host
//! followed by path and query, and path and query alone. A pattern matches
//! when it begins the full text, occurs in host and path, or begins the
//! path. An anti-keyword rejects a URL when it occurs in any of the forms.

use vstd::prelude::*;
use crate::text::{contains, lowercase, split_char, split_on, starts_with, str_contains, str_starts_with, to_lowercase, trim, trimmed, views};
use crate::models::CrawlingSettings;
use crate::urls::{opt_view, parse_url, url_parse, UrlParts, UrlPartsView};

verus! {

/// The three lowercase forms under which a URL is compared.
pub struct UrlForms {
    pub full: Seq<char>,
    pub host_path: Seq<char>,
    pub path: Seq<char>,
}

/// Path and query of a parsed URL, joined by `?` where there is a query.
pub open spec fn path_and_query(p: UrlPartsView) -> Seq<char> {
    match p.query {
        Some(q) => p.path + "?"@ + q,
        None => p.path,
    }
}

/// The host of a parsed URL, empty where it has none.
pub open spec fn host_text(p: UrlPartsView) -> Seq<char> {
    match p.host {
        Some(h) => h,
        None => Seq::empty(),
    }
}

/// The forms of `url`, whose parts are `p`.
pub open spec fn url_forms(url: Seq<char>, p: UrlPartsView) -> UrlForms {
    UrlForms {
        full: lowercase(url),
        host_path: lowercase(host_text(p)) + lowercase(path_and_query(p)),
        path: lowercase(path_and_query(p)),
    }
}

/// A pattern matches a URL when it begins the full URL, occurs in host and
/// path, or begins the path.
pub open spec fn pattern_matches(f: UrlForms, pattern: Seq<char>) -> bool {
    starts_with(f.full, pattern) || contains(f.host_path, pattern) || starts_with(f.path, pattern)
}

/// A keyword is mentioned when it occurs in any of the three forms.
pub open spec fn keyword_occurs(f: UrlForms, keyword: Seq<char>) -> bool {
    contains(f.full, keyword) || contains(f.host_path, keyword) || contains(f.path, keyword)
}

/// An empty prefix restricts nothing; any other must match, whatever its
/// case.
pub open spec fn prefix_allows(f: UrlForms, prefix: Seq<char>) -> bool {
    prefix.len() == 0 || pattern_matches(f, lowercase(prefix))
}

/// A pattern as it is compared: without surrounding whitespace, in
/// lowercase.
pub open spec fn cleaned(raw: Seq<char>) -> Seq<char> {
    lowercase(trimmed(raw))
}

/// The anti-keyword `raw` excludes the URL. A blank one excludes nothing.
pub open spec fn keyword_rejects(f: UrlForms, raw: Seq<char>) -> bool {
    cleaned(raw).len() > 0 && keyword_occurs(f, cleaned(raw))
}

/// The anti-path pattern `raw` excludes the URL. A blank one excludes
/// nothing.
pub open spec fn anti_path_rejects(f: UrlForms, raw: Seq<char>) -> bool {
    cleaned(raw).len() > 0 && pattern_matches(f, cleaned(raw))
}

/// None of the anti-keywords excludes the URL.
pub open spec fn no_keyword_rejects(f: UrlForms, anti_keywords: Seq<Seq<char>>) -> bool {
    forall|i: int| 0 <= i < anti_keywords.len() ==> !keyword_rejects(f, #[trigger] anti_keywords[i])
}

/// None of the anti-path patterns excludes the URL.
pub open spec fn no_anti_path_rejects(f: UrlForms, anti_paths: Seq<Seq<char>>) -> bool {
    forall|i: int| 0 <= i < anti_paths.len() ==> !anti_path_rejects(f, #[trigger] anti_paths[i])
}

/// Whether `url` is in scope: it parses, the prefix allows it and no
/// exclusion applies.
pub open spec fn in_scope(
    url: Seq<char>,
    prefix: Seq<char>,
    anti_paths: Seq<Seq<char>>,
    anti_keywords: Seq<Seq<char>>,
) -> bool {
    match url_parse(url) {
        None => false,
        Some(p) => {
            let f = url_forms(url, p);
            prefix_allows(f, prefix) && no_keyword_rejects(f, anti_keywords)
                && no_anti_path_rejects(f, anti_paths)
        },
    }
}

/// The three forms of a URL, ready for comparison.
struct Forms {
    full: String,
    host_path: String,
    path: String,
}

impl View for Forms {
    type V = UrlForms;

    closed spec fn view(&self) -> UrlForms {
        UrlForms { full: self.full@, host_path: self.host_path@, path: self.path@ }
    }
}

fn make_forms(url: &str, parts: &UrlParts) -> (f: Forms)
    ensures
        f@ == url_forms(url@, parts@),
{
    let mut pq = parts.path.clone();
    match &parts.query {
        Some(q) => {
            pq.append("?");
            pq.append(q.as_str());
        },
        None => {},
    }
    let path = to_lowercase(pq.as_str());
    let host = match &parts.host {
        Some(h) => to_lowercase(h.as_str()),
        None => to_lowercase(""),
    };
    proof {
        reveal_strlit("");
        assert(""@ =~= Seq::<char>::empty());
    }
    let host_path = host.concat(path.as_str());
    Forms { full: to_lowercase(url), host_path, path }
}

fn matches_pattern(f: &Forms, pattern: &str) -> (r: bool)
    ensures
        r == pattern_matches(f@, pattern@),
{
    str_starts_with(f.full.as_str(), pattern) || str_contains(f.host_path.as_str(), pattern)
        || str_starts_with(f.path.as_str(), pattern)
}

fn occurs_keyword(f: &Forms, keyword: &str) -> (r: bool)
    ensures
        r == keyword_occurs(f@, keyword@),
{
    str_contains(f.full.as_str(), keyword) || str_contains(f.host_path.as_str(), keyword)
        || str_contains(f.path.as_str(), keyword)
}

/// Decides whether `url` is to be crawled under the given prefix and
/// exclusions.
pub fn should_crawl(
    url: &str,
    prefix_path: &str,
    anti_paths: &[String],
    anti_keywords: &[String],
) -> (r: bool)
    ensures
        r == in_scope(url@, prefix_path@, views(anti_paths@), views(anti_keywords@)),
{
    let parts = match parse_url(url) {
        Some(p) => p,
        None => {
            return false;
        },
    };
    let f = make_forms(url, &parts);
    if !prefix_path.is_empty() {
        let prefix_lower = to_lowercase(prefix_path);
        if !matches_pattern(&f, prefix_lower.as_str()) {
            return false;
        }
    }
    let mut i: usize = 0;
    while i < anti_keywords.len()
        invariant
            i <= anti_keywords.len(),
            url_parse(url@) == Some(parts@),
            f@ == url_forms(url@, parts@),
            forall|j: int| 0 <= j < i ==> !keyword_rejects(f@, #[trigger] views(anti_keywords@)[j]),
        decreases anti_keywords.len() - i,
    {
        let keyword = to_lowercase(trim(anti_keywords[i].as_str()));
        if !keyword.as_str().is_empty() && occurs_keyword(&f, keyword.as_str()) {
            assert(keyword_rejects(f@, views(anti_keywords@)[i as int]));
            return false;
        }
        i += 1;
    }
    let mut k: usize = 0;
    while k < anti_paths.len()
        invariant
            k <= anti_paths.len(),
            url_parse(url@) == Some(parts@),
            f@ == url_forms(url@, parts@),
            forall|j: int| 0 <= j < k ==> !anti_path_rejects(f@, #[trigger] views(anti_paths@)[j]),
        decreases anti_paths.len() - k,
    {
        let pattern = to_lowercase(trim(anti_paths[k].as_str()));
        if !pattern.as_str().is_empty() && matches_pattern(&f, pattern.as_str()) {
            assert(anti_path_rejects(f@, views(anti_paths@)[k as int]));
            return false;
        }
        k += 1;
    }
    true
}

/// With no exclusions, a URL is in scope exactly when it parses and the
/// prefix is empty or matches it in one of its three forms: as the start of
/// the full URL, inside host and path, or as the start of the path.
pub proof fn lemma_scope_without_exclusions(url: Seq<char>, prefix: Seq<char>)
    ensures
        in_scope(url, prefix, Seq::empty(), Seq::empty()) <==> (url_parse(url) matches Some(p) && (
        prefix.len() == 0 || starts_with(lowercase(url), lowercase(prefix)) || contains(
            lowercase(host_text(p)) + lowercase(path_and_query(p)),
            lowercase(prefix),
        ) || starts_with(lowercase(path_and_query(p)), lowercase(prefix)))),
{
}

/// An empty prefix and no exclusions leave every URL that parses in scope.
pub proof fn lemma_no_restriction(url: Seq<char>)
    ensures
        in_scope(url, Seq::empty(), Seq::empty(), Seq::empty()) <==> url_parse(url) is Some,
{
}

/// Adding exclusions never brings a URL into scope.
pub proof fn lemma_exclusions_only_narrow(
    url: Seq<char>,
    prefix: Seq<char>,
    anti_paths: Seq<Seq<char>>,
    anti_keywords: Seq<Seq<char>>,
)
    requires
        in_scope(url, prefix, anti_paths, anti_keywords),
    ensures
        in_scope(url, prefix, Seq::empty(), Seq::empty()),
{
}

/// The non-blank pieces of a list, each without surrounding whitespace, in
/// their order.
pub open spec fn non_blank(pieces: Seq<Seq<char>>) -> Seq<Seq<char>>
    decreases pieces.len(),
{
    if pieces.len() == 0 {
        Seq::empty()
    } else {
        let init = non_blank(pieces.drop_last());
        let piece = trimmed(pieces.last());
        if piece.len() > 0 {
            init.push(piece)
        } else {
            init
        }
    }
}

/// The keywords that a comma-separated text lists.
pub open spec fn listed_keywords(text: Seq<char>) -> Seq<Seq<char>> {
    non_blank(split_on(text, ','))
}

/// Splits a comma-separated text into its keywords: each piece without
/// surrounding whitespace, blank pieces dropped.
pub fn split_keywords(text: &str) -> (r: Vec<String>)
    ensures
        views(r@) == listed_keywords(text@),
{
    let pieces = split_char(text, ',');
    let mut out: Vec<String> = Vec::new();
    let mut i: usize = 0;
    assert(views(pieces@).take(0) =~= Seq::<Seq<char>>::empty());
    assert(views(out@) =~= Seq::<Seq<char>>::empty());
    while i < pieces.len()
        invariant
            i <= pieces.len(),
            views(out@) == non_blank(views(pieces@).take(i as int)),
        decreases pieces.len() - i,
    {
        let piece = trim(pieces[i].as_str());
        let ghost before = views(out@);
        if !piece.is_empty() {
            out.push(piece.to_owned());
            assert(views(out@) =~= before.push(piece@));
        }
        proof {
            let next = views(pieces@).take(i as int + 1);
            assert(next.drop_last() =~= views(pieces@).take(i as int));
            assert(next.last() == pieces@[i as int]@);
        }
        i += 1;
    }
    assert(views(pieces@).take(pieces.len() as int) =~= views(pieces@));
    out
}

/// The anti-keywords that a crawl uses, given those that it was configured
/// with: a single entry that holds commas is a comma-separated list.
pub open spec fn effective_keywords(configured: Option<Seq<Seq<char>>>) -> Seq<Seq<char>> {
    match configured {
        None => Seq::empty(),
        Some(list) => if list.len() == 1 && contains(list[0], ","@) {
            listed_keywords(list[0])
        } else {
            list
        },
    }
}

/// The view of an optional list of strings.
pub open spec fn opt_views(list: Option<Vec<String>>) -> Option<Seq<Seq<char>>> {
    match list {
        Some(v) => Some(views(v@)),
        None => None,
    }
}

/// Copies a list of strings.
pub fn clone_strings(list: &[String]) -> (r: Vec<String>)
    ensures
        r@ == list@,
{
    let mut out: Vec<String> = Vec::new();
    let mut i: usize = 0;
    while i < list.len()
        invariant
            i <= list.len(),
            out@ == list@.take(i as int),
        decreases list.len() - i,
    {
        out.push(list[i].clone());
        assert(out@ =~= list@.take(i as int + 1));
        i += 1;
    }
    assert(list@.take(list.len() as int) =~= list@);
    out
}

/// Brings configured anti-keywords into the form that the filter uses.
pub fn normalize_anti_keywords(anti_keywords: &Option<Vec<String>>) -> (r: Vec<String>)
    ensures
        views(r@) == effective_keywords(opt_views(*anti_keywords)),
{
    match anti_keywords {
        Some(keywords) => {
            if keywords.len() == 1 && str_contains(keywords[0].as_str(), ",") {
                split_keywords(keywords[0].as_str())
            } else {
                clone_strings(keywords.as_slice())
            }
        },
        None => {
            let out: Vec<String> = Vec::new();
            assert(views(out@) =~= Seq::<Seq<char>>::empty());
            out
        },
    }
}

/// The filters of a crawl.
#[derive(Debug, Clone)]
pub struct Filters {
    pub prefix_path: String,
    pub anti_paths: Vec<String>,
    pub anti_keywords: Vec<String>,
}

/// The mathematical value of a [`Filters`].
pub struct FiltersView {
    pub prefix_path: Seq<char>,
    pub anti_paths: Seq<Seq<char>>,
    pub anti_keywords: Seq<Seq<char>>,
}

impl View for Filters {
    type V = FiltersView;

    open spec fn view(&self) -> FiltersView {
        FiltersView {
            prefix_path: self.prefix_path@,
            anti_paths: views(self.anti_paths@),
            anti_keywords: views(self.anti_keywords@),
        }
    }
}

impl FiltersView {
    /// The filters restrict nothing.
    pub open spec fn is_empty(self) -> bool {
        self.prefix_path.len() == 0 && self.anti_paths.len() == 0 && self.anti_keywords.len() == 0
    }

    /// Whether a URL passes the filters.
    pub open spec fn admits(self, url: Seq<char>) -> bool {
        in_scope(url, self.prefix_path, self.anti_paths, self.anti_keywords)
    }
}

/// The filters that stored settings stand for: the prefix, empty where
/// there is none; the anti-path patterns between the commas of their
/// list, as they stand; and the anti-keywords of their list, without
/// surrounding whitespace and without blanks.
pub open spec fn stored_filters(
    prefix_path: Option<Seq<char>>,
    anti_paths: Option<Seq<char>>,
    anti_keywords: Option<Seq<char>>,
) -> FiltersView {
    FiltersView {
        prefix_path: match prefix_path {
            Some(p) => p,
            None => Seq::empty(),
        },
        anti_paths: match anti_paths {
            Some(list) => split_on(list, ','),
            None => Seq::empty(),
        },
        anti_keywords: match anti_keywords {
            Some(list) => listed_keywords(list),
            None => Seq::empty(),
        },
    }
}

/// Reads filters from stored settings.
pub fn filters_of(settings: &CrawlingSettings) -> (r: Filters)
    ensures
        r@ == stored_filters(
            opt_view(settings.prefix_path),
            opt_view(settings.anti_paths),
            opt_view(settings.anti_keywords),
        ),
{
    let prefix_path = match &settings.prefix_path {
        Some(p) => p.clone(),
        None => String::new(),
    };
    let anti_paths: Vec<String> = match &settings.anti_paths {
        Some(list) => split_char(list.as_str(), ','),
        None => {
            let none: Vec<String> = Vec::new();
            assert(views(none@) =~= Seq::<Seq<char>>::empty());
            none
        },
    };
    let anti_keywords: Vec<String> = match &settings.anti_keywords {
        Some(list) => split_keywords(list.as_str()),
        None => {
            let none: Vec<String> = Vec::new();
            assert(views(none@) =~= Seq::<Seq<char>>::empty());
            none
        },
    };
    Filters { prefix_path, anti_paths, anti_keywords }
}

} // verus!
