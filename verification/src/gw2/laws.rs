//! What the public operations and the response decoding do, stated over
//! their inputs and results.
use crate::error::Gw3Error;
use crate::gw2::operations::{
    public_all_outcome, public_get_outcome, public_list_outcome, public_page_outcome,
};
use crate::gw2::public::{find_public, public_registry, PublicEndpointKind};
use crate::gw2::request::ApiRequest;
use crate::gw2::response::{api_status_class, response_outcome, wiki_status_class};
use crate::outside::json_parsed;
use vstd::prelude::*;

verus! {

/// `public list` succeeds exactly for a collection route, and then asks for
/// the route's bare path: no id, no ids, no page and no query pairs, with
/// only the given language and schema version, and no key.
pub proof fn lemma_public_list_is_bare_route(
    key: Seq<char>,
    lang: Option<Seq<char>>,
    version: Option<Seq<char>>,
    res: Result<ApiRequest, Gw3Error>,
)
    requires
        public_list_outcome(key, lang, version, res),
    ensures
        res is Ok <==> (find_public(public_registry(), key) matches Some(e) && e.kind
            == PublicEndpointKind::Collection),
        res matches Ok(r) ==> {
            &&& r@.path == find_public(public_registry(), key).unwrap().path
            &&& r@.id is None
            &&& r@.ids.len() == 0
            &&& r@.page is None
            &&& r@.page_size is None
            &&& r@.query.len() == 0
            &&& r@.lang == lang
            &&& r@.schema_version == version
            &&& !r@.requires_auth
        },
{
}

/// `public get` passes the given id and ids on for a collection route,
/// fetches a singleton route bare and only without them, and refuses a
/// call-only route; the request always has the route's path, the given
/// language and schema version, no page, no query pairs and no key.
pub proof fn lemma_public_get_passes_ids(
    key: Seq<char>,
    id: Option<Seq<char>>,
    ids: Seq<Seq<char>>,
    lang: Option<Seq<char>>,
    version: Option<Seq<char>>,
    res: Result<ApiRequest, Gw3Error>,
)
    requires
        public_get_outcome(key, id, ids, lang, version, res),
    ensures
        res is Ok <==> (find_public(public_registry(), key) matches Some(e) && (e.kind
            == PublicEndpointKind::Collection || (e.kind == PublicEndpointKind::Singleton
            && id is None && ids.len() == 0))),
        res matches Ok(r) ==> {
            &&& r@.path == find_public(public_registry(), key).unwrap().path
            &&& r@.id == id
            &&& r@.ids == ids
            &&& r@.page is None
            &&& r@.page_size is None
            &&& r@.query.len() == 0
            &&& r@.lang == lang
            &&& r@.schema_version == version
            &&& !r@.requires_auth
        },
{
}

/// `public all` succeeds exactly for a collection route and asks for its
/// path with the one query pair `ids=all`, the given language and schema
/// version, and nothing else.
pub proof fn lemma_public_all_asks_for_all(
    key: Seq<char>,
    lang: Option<Seq<char>>,
    version: Option<Seq<char>>,
    res: Result<ApiRequest, Gw3Error>,
)
    requires
        public_all_outcome(key, lang, version, res),
    ensures
        res is Ok <==> (find_public(public_registry(), key) matches Some(e) && e.kind
            == PublicEndpointKind::Collection),
        res matches Ok(r) ==> {
            &&& r@.path == find_public(public_registry(), key).unwrap().path
            &&& r@.query == seq![("ids"@, "all"@)]
            &&& r@.id is None
            &&& r@.ids.len() == 0
            &&& r@.page is None
            &&& r@.page_size is None
            &&& r@.lang == lang
            &&& r@.schema_version == version
            &&& !r@.requires_auth
        },
{
}

/// `public page` succeeds exactly for a collection route and asks for the
/// given page and page size of its path, with the given language and schema
/// version, no id, no ids and no query pairs.
pub proof fn lemma_public_page_asks_for_page(
    key: Seq<char>,
    page: u32,
    page_size: Option<u32>,
    lang: Option<Seq<char>>,
    version: Option<Seq<char>>,
    res: Result<ApiRequest, Gw3Error>,
)
    requires
        public_page_outcome(key, page, page_size, lang, version, res),
    ensures
        res is Ok <==> (find_public(public_registry(), key) matches Some(e) && e.kind
            == PublicEndpointKind::Collection),
        res matches Ok(r) ==> {
            &&& r@.path == find_public(public_registry(), key).unwrap().path
            &&& r@.page == Some(page)
            &&& r@.page_size == page_size
            &&& r@.lang == lang
            &&& r@.schema_version == version
            &&& r@.id is None
            &&& r@.ids.len() == 0
            &&& r@.query.len() == 0
            &&& !r@.requires_auth
        },
{
}

/// An official API answer is the parsed body only for status 200; 206, 403,
/// 404, 429 and 503 end in their own kinds, every other 5xx in `Upstream`
/// and anything else in `UnexpectedStatus`, each holding the body (and the
/// status where it has one).
pub proof fn lemma_api_status_outcomes(
    status: u16,
    body: Seq<char>,
    res: Result<serde_json::Value, Gw3Error>,
)
    requires
        response_outcome(api_status_class(status), status, body, res),
    ensures
        res is Ok ==> status == 200,
        status == 200 ==> match json_parsed(body) {
            Some(v) => res == Ok::<serde_json::Value, Gw3Error>(v),
            None => res matches Err(e) && e is Json,
        },
        status == 206 ==> (res matches Err(Gw3Error::PartialContent { body: b }) && b@ == body),
        status == 403 ==> (res matches Err(Gw3Error::Forbidden { body: b }) && b@ == body),
        status == 404 ==> (res matches Err(Gw3Error::NotFound { body: b }) && b@ == body),
        status == 429 ==> (res matches Err(Gw3Error::RateLimited { body: b }) && b@ == body),
        status == 503 ==> (res matches Err(Gw3Error::DisabledEndpoint { body: b }) && b@ == body),
        500 <= status <= 599 && status != 503 ==> (res matches Err(
            Gw3Error::Upstream { status: s, body: b },
        ) && s == status && b@ == body),
        !(500 <= status <= 599) && status != 200 && status != 206 && status != 403 && status != 404
            && status != 429 ==> (res matches Err(Gw3Error::UnexpectedStatus { status: s, body: b })
            && s == status && b@ == body),
{
}

/// A Wiki answer is the parsed body only for status 200; 429 is a rate
/// limit, every 5xx an upstream failure, anything else an unexpected status.
pub proof fn lemma_wiki_status_outcomes(
    status: u16,
    body: Seq<char>,
    res: Result<serde_json::Value, Gw3Error>,
)
    requires
        response_outcome(wiki_status_class(status), status, body, res),
    ensures
        res is Ok ==> status == 200,
        status == 200 ==> match json_parsed(body) {
            Some(v) => res == Ok::<serde_json::Value, Gw3Error>(v),
            None => res matches Err(e) && e is Json,
        },
        status == 429 ==> (res matches Err(Gw3Error::RateLimited { body: b }) && b@ == body),
        500 <= status <= 599 ==> (res matches Err(Gw3Error::Upstream { status: s, body: b }) && s
            == status && b@ == body),
        !(500 <= status <= 599) && status != 200 && status != 429 ==> (res matches Err(
            Gw3Error::UnexpectedStatus { status: s, body: b },
        ) && s == status && b@ == body),
{
}

} // verus!
