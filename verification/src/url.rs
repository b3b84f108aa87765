//! URL parsing through the `url` crate, read back as plain parts.

use vstd::prelude::*;

verus! {

/// The parts of a parsed URL that the scrapers read.
#[derive(Debug, Clone)]
pub struct UrlParts {
    /// The scheme, lowercase (`https`).
    pub scheme: String,
    /// The host, when the URL has one.
    pub host: Option<String>,
    /// The port, when one is given and it is not the scheme's default.
    pub port: Option<u16>,
    /// The path, percent-encoded as the URL holds it.
    pub path: String,
    /// The `/`-separated path segments; `None` for URLs that cannot be a base.
    pub segments: Option<Vec<String>>,
    /// The query's key/value pairs, percent-decoded, in order.
    pub query_pairs: Vec<(String, String)>,
}

/// The view of parsed URL parts.
pub struct UrlSpec {
    pub scheme: Seq<char>,
    pub host: Option<Seq<char>>,
    pub port: Option<u16>,
    pub path: Seq<char>,
    pub segments: Option<Seq<Seq<char>>>,
    pub query_pairs: Seq<(Seq<char>, Seq<char>)>,
}

/// The view of an optional string.
pub open spec fn ostr(o: Option<String>) -> Option<Seq<char>> {
    match o {
        Some(s) => Some(s@),
        None => None,
    }
}

/// The view of a list of strings.
pub open spec fn strs_view(v: Seq<String>) -> Seq<Seq<char>> {
    v.map_values(|s: String| s@)
}

/// The view of a list of string pairs.
pub open spec fn pairs_view(v: Seq<(String, String)>) -> Seq<(Seq<char>, Seq<char>)> {
    v.map_values(|p: (String, String)| (p.0@, p.1@))
}

impl View for UrlParts {
    type V = UrlSpec;

    open spec fn view(&self) -> UrlSpec {
        UrlSpec {
            scheme: self.scheme@,
            host: ostr(self.host),
            port: self.port,
            path: self.path@,
            segments: match self.segments {
                Some(v) => Some(strs_view(v@)),
                None => None,
            },
            query_pairs: pairs_view(self.query_pairs@),
        }
    }
}

/// The view of a parse result: the parts, or the parser's error message.
pub open spec fn parse_view(r: Result<UrlParts, String>) -> Result<UrlSpec, Seq<char>> {
    match r {
        Ok(u) => Ok(u@),
        Err(e) => Err(e@),
    }
}

/// The name for what `Url::parse` gives back for a string: the parsed URL
/// read through its accessors, or the text of the parse error.
pub uninterp spec fn url_parse(s: Seq<char>) -> Result<UrlSpec, Seq<char>>;

/// The name for what parsing `base` with `Url::parse` and resolving
/// `reference` against it with `Url::join` gives back.
pub uninterp spec fn url_join(base: Seq<char>, reference: Seq<char>) -> Result<UrlSpec, Seq<char>>;

/// `Url::parse`, read back as plain parts: scheme, host, port, path,
/// path segments and decoded query pairs; on failure the error's text.
/// Nothing more is stated: the result is the name `url_parse` of the input.
#[verifier::external_body]
pub(crate) fn parse_url(s: &str) -> (r: Result<UrlParts, String>)
    ensures
        parse_view(r) == url_parse(s@),
{
    let u = ::url::Url::parse(s).map_err(|e| e.to_string())?;
    Ok(UrlParts {
        scheme: u.scheme().to_string(),
        host: u.host_str().map(|h| h.to_string()),
        port: u.port(),
        path: u.path().to_string(),
        segments: u.path_segments().map(|it| it.map(|x| x.to_string()).collect()),
        query_pairs: u.query_pairs().map(|(k, v)| (k.into_owned(), v.into_owned())).collect(),
    })
}

/// `Url::parse` of `base`, then `Url::join` of `reference` onto it, read
/// back as plain parts like `parse_url`; on failure the error's text.
/// Nothing more is stated: the result is the name `url_join` of the two.
#[verifier::external_body]
pub(crate) fn join_url(base: &str, reference: &str) -> (r: Result<UrlParts, String>)
    ensures
        parse_view(r) == url_join(base@, reference@),
{
    let b = ::url::Url::parse(base).map_err(|e| e.to_string())?;
    let u = b.join(reference).map_err(|e| e.to_string())?;
    Ok(UrlParts {
        scheme: u.scheme().to_string(),
        host: u.host_str().map(|h| h.to_string()),
        port: u.port(),
        path: u.path().to_string(),
        segments: u.path_segments().map(|it| it.map(|x| x.to_string()).collect()),
        query_pairs: u.query_pairs().map(|(k, v)| (k.into_owned(), v.into_owned())).collect(),
    })
}

} // verus!
