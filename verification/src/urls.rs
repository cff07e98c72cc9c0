//! Parsed URLs and URL normalization.
//!
//! Parsing, joining and serializing are the `url` crate's work: it is the
//! parser that lowercases the host and drops a port that the scheme
//! implies. The crawl logic reads a parsed URL through [`UrlParts`], a
//! plain record of the components it looks at.

use vstd::prelude::*;

verus! {

/// The components of a parsed URL that the crawl logic reads.
#[derive(Debug, Clone)]
pub struct UrlParts {
    pub scheme: String,
    pub host: Option<String>,
    pub port: Option<u16>,
    pub path: String,
    pub query: Option<String>,
}

/// The mathematical value of a [`UrlParts`].
pub struct UrlPartsView {
    pub scheme: Seq<char>,
    pub host: Option<Seq<char>>,
    pub port: Option<u16>,
    pub path: Seq<char>,
    pub query: Option<Seq<char>>,
}

/// The view of an optional string.
pub open spec fn opt_view(s: Option<String>) -> Option<Seq<char>> {
    match s {
        Some(t) => Some(t@),
        None => None,
    }
}

impl View for UrlParts {
    type V = UrlPartsView;

    open spec fn view(&self) -> UrlPartsView {
        UrlPartsView {
            scheme: self.scheme@,
            host: opt_view(self.host),
            port: self.port,
            path: self.path@,
            query: opt_view(self.query),
        }
    }
}

/// What `Url::parse` makes of a text: `None` where it rejects the text,
/// else the scheme, host, port, path and query of the URL it returns.
pub uninterp spec fn url_parse(s: Seq<char>) -> Option<UrlPartsView>;

/// The serialization of the URL that `Url::parse` makes of a text, after
/// `Url::set_fragment(None)`; `None` where the text does not parse.
pub uninterp spec fn url_without_fragment(s: Seq<char>) -> Option<Seq<char>>;

/// The words by which `Url::parse` says why it rejects a text: the
/// `Display` of the error that it returns.
pub uninterp spec fn url_parse_error(s: Seq<char>) -> Seq<char>;

/// The serialization of what `Url::join` makes of a reference against the
/// URL parsed from `base`; `None` where either step fails.
pub uninterp spec fn url_join(base: Seq<char>, reference: Seq<char>) -> Option<Seq<char>>;

/// `Url::parse`, then the accessors `scheme`, `host_str`, `port`, `path`
/// and `query`: the parts are those of the URL that the text parses to.
#[verifier::external_body]
pub(crate) fn parse_url(s: &str) -> (r: Option<UrlParts>)
    ensures
        match r {
            Some(p) => url_parse(s@) == Some(p@),
            None => url_parse(s@) is None,
        },
{
    let u = url::Url::parse(s).ok()?;
    Some(
        UrlParts {
            scheme: u.scheme().to_string(),
            host: u.host_str().map(String::from),
            port: u.port(),
            path: u.path().to_string(),
            query: u.query().map(String::from),
        },
    )
}

/// `Url::parse`, `Url::set_fragment(None)` and the serialization of the
/// result; where the text does not parse, the `Display` of the parser's
/// error. It succeeds exactly when the text parses.
#[verifier::external_body]
pub(crate) fn strip_fragment(s: &str) -> (r: Result<String, String>)
    ensures
        match r {
            Ok(t) => url_without_fragment(s@) == Some(t@),
            Err(e) => url_without_fragment(s@) is None && e@ == url_parse_error(s@),
        },
        r is Ok <==> url_parse(s@) is Some,
{
    match url::Url::parse(s) {
        Ok(mut u) => {
            u.set_fragment(None);
            Ok(String::from(u))
        },
        Err(e) => Err(e.to_string()),
    }
}

/// `Url::parse` of the base, `Url::join` of the reference onto it, and the
/// serialization of the result.
#[verifier::external_body]
pub(crate) fn join_url(base: &str, reference: &str) -> (r: Option<String>)
    ensures
        opt_view(r) == url_join(base@, reference@),
{
    let b = url::Url::parse(base).ok()?;
    let joined = b.join(reference).ok()?;
    Some(String::from(joined))
}

/// The normal form of a URL: its serialization without the fragment. The
/// serialization has the host in lowercase and no port that the scheme
/// implies. `None` where the text is no URL.
pub open spec fn normalized(s: Seq<char>) -> Option<Seq<char>> {
    url_without_fragment(s)
}

/// Brings a URL to its normal form. Fails exactly when the text does not
/// parse as a URL, with the parser's reason.
pub fn try_normalize_url(url: &str) -> (r: Result<String, String>)
    ensures
        match r {
            Ok(t) => normalized(url@) == Some(t@),
            Err(e) => normalized(url@) is None && e@ == url_parse_error(url@),
        },
        r is Ok <==> url_parse(url@) is Some,
{
    strip_fragment(url)
}

/// Brings a URL to its normal form. Returns `None` exactly when the text
/// does not parse as a URL.
pub fn normalize_url(url: &str) -> (r: Option<String>)
    ensures
        opt_view(r) == normalized(url@),
        r is Some <==> url_parse(url@) is Some,
{
    match strip_fragment(url) {
        Ok(t) => Some(t),
        Err(_) => None,
    }
}

} // verus!
