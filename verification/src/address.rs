//! URL handling, done by the `url` crate on the textual form of a URL.

use vstd::prelude::*;
use vstd::string::*;
use vstd::utf8::*;
use crate::text::{nested_text_of, text_of};

verus! {

/// The serialization of the absolute URL that `input` parses to, if it
/// parses.
pub uninterp spec fn url_parse(input: Seq<char>) -> Option<Seq<char>>;

/// The serialization of `reference` resolved against the URL `base`, if
/// both parse.
pub uninterp spec fn url_join(base: Seq<char>, reference: Seq<char>) -> Option<Seq<char>>;

/// The serialization of the URL `url` after its query was replaced by
/// `query`, if `url` parses.
pub uninterp spec fn url_with_query(url: Seq<char>, query: Seq<char>) -> Option<Seq<char>>;

/// The path component of the URL `url`, if `url` parses.
pub uninterp spec fn url_path(url: Seq<char>) -> Option<Seq<char>>;

/// The query component of the URL `url` (the inner `None` where it has
/// none), if `url` parses.
pub uninterp spec fn url_query(url: Seq<char>) -> Option<Option<Seq<char>>>;

/// The longest URL or query, in bytes, that is handed to the `url` crate
/// for a change of query: it keeps its offsets in 32 bits.
pub const MAX_URL_BYTES: usize = 0x100_0000;

/// Parses `input` with `url::Url::parse` and returns the URL's
/// serialization.
///
/// Trusted: the result is the named `url_parse` of the input, `None` where
/// the crate reports a parse error.
#[verifier::external_body]
pub(crate) fn parse_url(input: &str) -> (r: Option<String>)
    ensures
        text_of(r) == url_parse(input@),
{
    url::Url::parse(input).ok().map(String::from)
}

/// Resolves `reference` against `base` with `url::Url::join`, after
/// parsing `base`, and returns the resulting URL's serialization.
///
/// Trusted: the result is the named `url_join` of the two strings, `None`
/// where the crate reports a parse error for either.
#[verifier::external_body]
pub(crate) fn join_url(base: &str, reference: &str) -> (r: Option<String>)
    ensures
        text_of(r) == url_join(base@, reference@),
{
    let base = url::Url::parse(base).ok()?;
    base.join(reference).ok().map(String::from)
}

/// Replaces the query of `url` with `url::Url::set_query`, after parsing
/// `url`, and returns the resulting URL's serialization.
///
/// Trusted: the result is the named `url_with_query` of the two strings,
/// `None` where the crate reports a parse error for `url`. Both strings are
/// bounded, since `set_query` stops the program on a URL whose length does
/// not fit in 32 bits.
#[verifier::external_body]
pub(crate) fn set_url_query(url: &str, query: &str) -> (r: Option<String>)
    requires
        url.spec_bytes().len() <= MAX_URL_BYTES,
        query.spec_bytes().len() <= MAX_URL_BYTES,
    ensures
        text_of(r) == url_with_query(url@, query@),
{
    let mut parsed = url::Url::parse(url).ok()?;
    parsed.set_query(Some(query));
    Some(String::from(parsed))
}

/// Reads the path of `url` with `url::Url::path`, after parsing `url`.
///
/// Trusted: the result is the named `url_path` of the string, `None` where
/// the crate reports a parse error.
#[verifier::external_body]
pub(crate) fn path_of_url(url: &str) -> (r: Option<String>)
    ensures
        text_of(r) == url_path(url@),
{
    let parsed = url::Url::parse(url).ok()?;
    Some(parsed.path().to_string())
}

/// Reads the query of `url` with `url::Url::query`, after parsing `url`.
///
/// Trusted: the result is the named `url_query` of the string, `None`
/// where the crate reports a parse error, `Some(None)` where the URL has no
/// query.
#[verifier::external_body]
pub(crate) fn query_of_url(url: &str) -> (r: Option<Option<String>>)
    ensures
        nested_text_of(r) == url_query(url@),
{
    let parsed = url::Url::parse(url).ok()?;
    Some(parsed.query().map(|q| q.to_string()))
}

/// The path and query of a URL as they are signed: the path, then `?` and
/// the query where the URL has one.
pub open spec fn path_and_query(url: Seq<char>) -> Option<Seq<char>> {
    match (url_path(url), url_query(url)) {
        (Some(p), Some(Some(q))) => Some(p + seq!['?'] + q),
        (Some(p), Some(None)) => Some(p),
        _ => None,
    }
}

/// The URL that a request goes to: `path` resolved against `base`, with
/// `query` as its query where one is given. `None` where the `url` crate
/// accepts no such URL, or where a query is to be set on strings longer
/// than `MAX_URL_BYTES`.
pub open spec fn target_url(base: Seq<char>, path: Seq<char>, query: Option<Seq<char>>) -> Option<
    Seq<char>,
> {
    match url_join(base, path) {
        None => None,
        Some(joined) => match query {
            None => Some(joined),
            Some(q) => if encode_utf8(joined).len() <= MAX_URL_BYTES && encode_utf8(q).len()
                <= MAX_URL_BYTES {
                url_with_query(joined, q)
            } else {
                None
            },
        },
    }
}

/// Resolves the URL of a request, as `target_url` states it.
pub fn resolve_target(base: &str, path: &str, query: Option<&str>) -> (r: Option<String>)
    ensures
        text_of(r) == target_url(
            base@,
            path@,
            match query {
                Some(q) => Some(q@),
                None => None,
            },
        ),
{
    match join_url(base, path) {
        None => None,
        Some(joined) => match query {
            None => Some(joined),
            Some(q) => {
                if joined.as_str().as_bytes().len() <= MAX_URL_BYTES && q.as_bytes().len()
                    <= MAX_URL_BYTES {
                    set_url_query(joined.as_str(), q)
                } else {
                    None
                }
            },
        },
    }
}

/// Reads from a URL the path and query that are signed, as
/// `path_and_query` states them.
pub fn signed_path(url: &str) -> (r: Option<String>)
    ensures
        text_of(r) == path_and_query(url@),
{
    let path = path_of_url(url);
    let query = query_of_url(url);
    match (path, query) {
        (Some(p), Some(Some(q))) => {
            let mut out = p;
            proof {
                reveal_strlit("?");
            }
            out.append("?");
            out.append(q.as_str());
            assert(out@ =~= p@ + seq!['?'] + q@);
            Some(out)
        },
        (Some(p), Some(None)) => Some(p),
        _ => None,
    }
}

} // verus!
