//! The Guild Wars 2 Wiki read operations: page search and page summaries
//! through the MediaWiki query API.
use crate::error::Gw3Error;
use crate::outside::{url_with_query, url_with_query_pairs};
use crate::text::{owned, pairs_view};
use vstd::prelude::*;

verus! {

/// The query pairs of a page search for `query`.
pub open spec fn search_pairs(query: Seq<char>) -> Seq<(Seq<char>, Seq<char>)> {
    seq![
        ("action"@, "query"@),
        ("list"@, "search"@),
        ("srsearch"@, query),
        ("format"@, "json"@),
        ("srlimit"@, "10"@),
    ]
}

/// The query pairs of a plain-text summary, with URL and metadata, of the
/// page `title`.
pub open spec fn page_pairs(title: Seq<char>) -> Seq<(Seq<char>, Seq<char>)> {
    seq![
        ("action"@, "query"@),
        ("prop"@, "extracts|info"@),
        ("exintro"@, "1"@),
        ("explaintext"@, "1"@),
        ("inprop"@, "url"@),
        ("titles"@, title),
        ("format"@, "json"@),
    ]
}

/// The outcome of building a Wiki URL from `base_url` and `pairs`.
pub open spec fn wiki_url_outcome(
    base_url: Seq<char>,
    pairs: Seq<(Seq<char>, Seq<char>)>,
    res: Result<String, Gw3Error>,
) -> bool {
    match res {
        Ok(u) => url_with_query(base_url, pairs) == Ok::<Seq<char>, url::ParseError>(u@),
        Err(e) => e matches Gw3Error::InvalidUrl { url, source } && url@ == base_url
            && url_with_query(base_url, pairs) == Err::<Seq<char>, url::ParseError>(source),
    }
}

fn pair(name: &str, value: &str) -> (res: (String, String))
    ensures
        res.0@ == name@,
        res.1@ == value@,
{
    (owned(name), owned(value))
}

/// The query pairs of a page search for `query`.
pub fn search_query_pairs(query: &str) -> (res: Vec<(String, String)>)
    ensures
        pairs_view(res@) == search_pairs(query@),
{
    let mut v: Vec<(String, String)> = Vec::new();
    v.push(pair("action", "query"));
    v.push(pair("list", "search"));
    v.push(pair("srsearch", query));
    v.push(pair("format", "json"));
    v.push(pair("srlimit", "10"));
    assert(pairs_view(v@) =~= search_pairs(query@));
    v
}

/// The query pairs of a summary of the page `title`.
pub fn page_query_pairs(title: &str) -> (res: Vec<(String, String)>)
    ensures
        pairs_view(res@) == page_pairs(title@),
{
    let mut v: Vec<(String, String)> = Vec::new();
    v.push(pair("action", "query"));
    v.push(pair("prop", "extracts|info"));
    v.push(pair("exintro", "1"));
    v.push(pair("explaintext", "1"));
    v.push(pair("inprop", "url"));
    v.push(pair("titles", title));
    v.push(pair("format", "json"));
    assert(pairs_view(v@) =~= page_pairs(title@));
    v
}

fn wiki_url(base_url: &str, pairs: &Vec<(String, String)>) -> (res: Result<String, Gw3Error>)
    ensures
        wiki_url_outcome(base_url@, pairs_view(pairs@), res),
{
    match url_with_query_pairs(base_url, pairs) {
        Ok(u) => Ok(u),
        Err(source) => Err(Gw3Error::InvalidUrl { url: owned(base_url), source }),
    }
}

/// The URL of a page search for `query` at the Wiki endpoint `base_url`;
/// `InvalidUrl` (holding the base URL) where it does not parse.
pub fn search_url(base_url: &str, query: &str) -> (res: Result<String, Gw3Error>)
    ensures
        wiki_url_outcome(base_url@, search_pairs(query@), res),
{
    wiki_url(base_url, &search_query_pairs(query))
}

/// The URL of a summary of the page `title` at the Wiki endpoint
/// `base_url`; `InvalidUrl` (holding the base URL) where it does not parse.
pub fn page_url(base_url: &str, title: &str) -> (res: Result<String, Gw3Error>)
    ensures
        wiki_url_outcome(base_url@, page_pairs(title@), res),
{
    wiki_url(base_url, &page_query_pairs(title))
}

} // verus!
