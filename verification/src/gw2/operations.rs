//! The requests behind each operation of the client: the fixed calls and
//! the `public` family, which resolves a registry key first.
use crate::config::ClientConfig;
use crate::error::Gw3Error;
use crate::gw2::fetch::{bearer_for, lacks_key};
use crate::gw2::public::{
    find_public, public_registry, resolve_failure, resolve_public_endpoint, PublicEndpointKind,
};
use crate::gw2::request::{bare_request, ApiRequest, ApiRequestModel};
use crate::gw2::template::{
    first_missing, is_unexpected, render_outcome, render_public_path, rendered_path,
};
use crate::text::{opt_view, owned, pairs_view, strings_view};
use vstd::prelude::*;

verus! {

/// The route list, at schema version `latest`.
pub fn routes_request() -> (res: ApiRequest)
    ensures
        res@ == (ApiRequestModel { schema_version: Some("latest"@), ..bare_request("/v2.json"@) }),
{
    ApiRequest::new("/v2.json").with_schema_version(Some(owned("latest")))
}

/// A request for `path` that needs the key.
pub open spec fn keyed(path: Seq<char>) -> ApiRequestModel {
    ApiRequestModel { requires_auth: true, ..bare_request(path) }
}

/// The key's own token information; needs the key.
pub fn token_info_request() -> (res: ApiRequest)
    ensures
        res@ == keyed("/v2/tokeninfo"@),
{
    ApiRequest::new("/v2/tokeninfo").requires_auth()
}

/// Items by id, in the given language.
pub fn item_lookup_request(ids: Vec<String>, lang: Option<String>) -> (res: ApiRequest)
    ensures
        res@ == (ApiRequestModel {
            ids: strings_view(ids@),
            lang: opt_view(lang),
            ..bare_request("/v2/items"@)
        }),
{
    ApiRequest::new("/v2/items").with_ids(ids).with_lang(lang)
}

/// Trading post prices by item id.
pub fn item_prices_request(ids: Vec<String>) -> (res: ApiRequest)
    ensures
        res@ == (ApiRequestModel { ids: strings_view(ids@), ..bare_request("/v2/commerce/prices"@) }),
{
    ApiRequest::new("/v2/commerce/prices").with_ids(ids)
}

/// The account of the key; needs the key.
pub fn account_info_request() -> (res: ApiRequest)
    ensures
        res@ == keyed("/v2/account"@),
{
    ApiRequest::new("/v2/account").requires_auth()
}

/// The characters of the key's account; needs the key.
pub fn character_list_request() -> (res: ApiRequest)
    ensures
        res@ == keyed("/v2/characters"@),
{
    ApiRequest::new("/v2/characters").requires_auth()
}

/// The error for an operation that a route's kind does not allow.
pub open spec fn unsupported(key: Seq<char>, operation: Seq<char>, e: Gw3Error) -> bool {
    e matches Gw3Error::UnsupportedPublicOperation { key: k, operation: o } && k@ == key && o@
        == operation
}

/// A request for `path` with a language and schema version.
pub open spec fn localized(path: Seq<char>, lang: Option<Seq<char>>, version: Option<Seq<char>>) -> ApiRequestModel {
    ApiRequestModel { lang, schema_version: version, ..bare_request(path) }
}

/// The outcome of `public_list_request`.
pub open spec fn public_list_outcome(
    key: Seq<char>,
    lang: Option<Seq<char>>,
    version: Option<Seq<char>>,
    res: Result<ApiRequest, Gw3Error>,
) -> bool {
    match find_public(public_registry(), key) {
        None => res matches Err(e) && resolve_failure(key, e),
        Some(ep) => if ep.kind == PublicEndpointKind::Collection {
            res matches Ok(r) && r@ == localized(ep.path, lang, version)
        } else {
            res matches Err(e) && unsupported(key, "list"@, e)
        },
    }
}

/// The outcome of `public_get_request`.
pub open spec fn public_get_outcome(
    key: Seq<char>,
    id: Option<Seq<char>>,
    ids: Seq<Seq<char>>,
    lang: Option<Seq<char>>,
    version: Option<Seq<char>>,
    res: Result<ApiRequest, Gw3Error>,
) -> bool {
    match find_public(public_registry(), key) {
        None => res matches Err(e) && resolve_failure(key, e),
        Some(ep) => match ep.kind {
            PublicEndpointKind::Collection => res matches Ok(r) && r@ == (ApiRequestModel {
                id,
                ids,
                ..localized(ep.path, lang, version)
            }),
            PublicEndpointKind::Singleton => if id is Some || ids.len() > 0 {
                res matches Err(e) && unsupported(key, "get with id or ids"@, e)
            } else {
                res matches Ok(r) && r@ == localized(ep.path, lang, version)
            },
            PublicEndpointKind::CallOnly => res matches Err(e) && unsupported(key, "get"@, e),
        },
    }
}

/// The outcome of `public_all_request`.
pub open spec fn public_all_outcome(
    key: Seq<char>,
    lang: Option<Seq<char>>,
    version: Option<Seq<char>>,
    res: Result<ApiRequest, Gw3Error>,
) -> bool {
    match find_public(public_registry(), key) {
        None => res matches Err(e) && resolve_failure(key, e),
        Some(ep) => if ep.kind == PublicEndpointKind::Collection {
            res matches Ok(r) && r@ == (ApiRequestModel {
                query: seq![("ids"@, "all"@)],
                ..localized(ep.path, lang, version)
            })
        } else {
            res matches Err(e) && unsupported(key, "all"@, e)
        },
    }
}

/// The outcome of `public_page_request`.
pub open spec fn public_page_outcome(
    key: Seq<char>,
    page: u32,
    page_size: Option<u32>,
    lang: Option<Seq<char>>,
    version: Option<Seq<char>>,
    res: Result<ApiRequest, Gw3Error>,
) -> bool {
    match find_public(public_registry(), key) {
        None => res matches Err(e) && resolve_failure(key, e),
        Some(ep) => if ep.kind == PublicEndpointKind::Collection {
            res matches Ok(r) && r@ == (ApiRequestModel {
                page: Some(page),
                page_size,
                ..localized(ep.path, lang, version)
            })
        } else {
            res matches Err(e) && unsupported(key, "page"@, e)
        },
    }
}

/// The outcome of `public_call_request`.
pub open spec fn public_call_outcome(
    key: Seq<char>,
    params: Seq<(Seq<char>, Seq<char>)>,
    query: Seq<(Seq<char>, Seq<char>)>,
    lang: Option<Seq<char>>,
    version: Option<Seq<char>>,
    res: Result<ApiRequest, Gw3Error>,
) -> bool {
    match find_public(public_registry(), key) {
        None => res matches Err(e) && resolve_failure(key, e),
        Some(ep) => match res {
            Err(e) => render_outcome(key, ep.path, ep.path_params, params, Err(e)),
            Ok(r) => {
                &&& first_missing(ep.path_params, params) is None
                &&& !exists|n: Seq<char>| is_unexpected(ep.path_params, params, n)
                &&& r@ == (ApiRequestModel {
                    query,
                    ..localized(rendered_path(ep.path, ep.path_params, params), lang, version)
                })
            },
        },
    }
}

/// The base list of a public collection route.
pub fn public_list_request(key: &str, lang: Option<String>, schema_version: Option<String>) -> (res:
    Result<ApiRequest, Gw3Error>)
    ensures
        public_list_outcome(key@, opt_view(lang), opt_view(schema_version), res),
        res matches Ok(r) ==> {
            &&& r@.query.len() == 0
            &&& r@.id is None
            &&& r@.ids.len() == 0
            &&& r@.page is None
            &&& r@.page_size is None
            &&& r@.lang == opt_view(lang)
            &&& r@.schema_version == opt_view(schema_version)
            &&& !r@.requires_auth
        },
{
    let endpoint = match resolve_public_endpoint(key) {
        Ok(e) => e,
        Err(e) => return Err(e),
    };
    if endpoint.kind != PublicEndpointKind::Collection {
        return Err(Gw3Error::UnsupportedPublicOperation { key: owned(key), operation: owned("list") });
    }
    Ok(ApiRequest::new(endpoint.path.as_str()).with_lang(lang).with_schema_version(schema_version))
}

/// A public route with an optional `id` or `ids`: a collection passes them
/// on, a singleton refuses them, a call-only route refuses the operation.
pub fn public_get_request(
    key: &str,
    id: Option<String>,
    ids: Vec<String>,
    lang: Option<String>,
    schema_version: Option<String>,
) -> (res: Result<ApiRequest, Gw3Error>)
    ensures
        public_get_outcome(
            key@,
            opt_view(id),
            strings_view(ids@),
            opt_view(lang),
            opt_view(schema_version),
            res,
        ),
        res matches Ok(r) ==> {
            &&& r@.id == opt_view(id)
            &&& r@.ids == strings_view(ids@)
            &&& r@.query.len() == 0
            &&& r@.page is None
            &&& r@.page_size is None
            &&& r@.lang == opt_view(lang)
            &&& r@.schema_version == opt_view(schema_version)
            &&& !r@.requires_auth
        },
{
    let endpoint = match resolve_public_endpoint(key) {
        Ok(e) => e,
        Err(e) => return Err(e),
    };
    match endpoint.kind {
        PublicEndpointKind::Collection => Ok(
            ApiRequest::new(endpoint.path.as_str()).with_id_opt(id).with_ids(ids).with_lang(
                lang,
            ).with_schema_version(schema_version),
        ),
        PublicEndpointKind::Singleton => {
            if id.is_some() || ids.len() > 0 {
                return Err(
                    Gw3Error::UnsupportedPublicOperation {
                        key: owned(key),
                        operation: owned("get with id or ids"),
                    },
                );
            }
            Ok(
                ApiRequest::new(endpoint.path.as_str()).with_lang(lang).with_schema_version(
                    schema_version,
                ),
            )
        },
        PublicEndpointKind::CallOnly => Err(
            Gw3Error::UnsupportedPublicOperation { key: owned(key), operation: owned("get") },
        ),
    }
}

/// Every entry of a public collection route, through `ids=all`.
pub fn public_all_request(key: &str, lang: Option<String>, schema_version: Option<String>) -> (res:
    Result<ApiRequest, Gw3Error>)
    ensures
        public_all_outcome(key@, opt_view(lang), opt_view(schema_version), res),
        res matches Ok(r) ==> {
            &&& r@.query == seq![("ids"@, "all"@)]
            &&& r@.id is None
            &&& r@.ids.len() == 0
            &&& r@.page is None
            &&& r@.page_size is None
            &&& r@.lang == opt_view(lang)
            &&& r@.schema_version == opt_view(schema_version)
            &&& !r@.requires_auth
        },
{
    let endpoint = match resolve_public_endpoint(key) {
        Ok(e) => e,
        Err(e) => return Err(e),
    };
    if endpoint.kind != PublicEndpointKind::Collection {
        return Err(Gw3Error::UnsupportedPublicOperation { key: owned(key), operation: owned("all") });
    }
    Ok(
        ApiRequest::new(endpoint.path.as_str()).with_query_param("ids", "all").with_lang(
            lang,
        ).with_schema_version(schema_version),
    )
}

/// One page of a public collection route.
pub fn public_page_request(
    key: &str,
    page: u32,
    page_size: Option<u32>,
    lang: Option<String>,
    schema_version: Option<String>,
) -> (res: Result<ApiRequest, Gw3Error>)
    ensures
        public_page_outcome(key@, page, page_size, opt_view(lang), opt_view(schema_version), res),
        res matches Ok(r) ==> {
            &&& r@.page == Some(page)
            &&& r@.page_size == page_size
            &&& r@.lang == opt_view(lang)
            &&& r@.schema_version == opt_view(schema_version)
            &&& r@.query.len() == 0
            &&& r@.id is None
            &&& r@.ids.len() == 0
            &&& !r@.requires_auth
        },
{
    let endpoint = match resolve_public_endpoint(key) {
        Ok(e) => e,
        Err(e) => return Err(e),
    };
    if endpoint.kind != PublicEndpointKind::Collection {
        return Err(Gw3Error::UnsupportedPublicOperation { key: owned(key), operation: owned("page") });
    }
    Ok(
        ApiRequest::new(endpoint.path.as_str()).with_lang(lang).with_schema_version(
            schema_version,
        ).with_page(Some(page), page_size),
    )
}

/// A public route with its path template expanded from `path_params` and
/// the given query pairs, for any kind of route.
pub fn public_call_request(
    key: &str,
    path_params: Vec<(String, String)>,
    query: Vec<(String, String)>,
    lang: Option<String>,
    schema_version: Option<String>,
) -> (res: Result<ApiRequest, Gw3Error>)
    ensures
        public_call_outcome(
            key@,
            pairs_view(path_params@),
            pairs_view(query@),
            opt_view(lang),
            opt_view(schema_version),
            res,
        ),
        res matches Ok(r) ==> {
            &&& r@.query == pairs_view(query@)
            &&& r@.id is None
            &&& r@.ids.len() == 0
            &&& r@.page is None
            &&& r@.page_size is None
            &&& r@.lang == opt_view(lang)
            &&& r@.schema_version == opt_view(schema_version)
            &&& !r@.requires_auth
        },
{
    let endpoint = match resolve_public_endpoint(key) {
        Ok(e) => e,
        Err(e) => return Err(e),
    };
    let rendered = match render_public_path(
        key,
        endpoint.path.as_str(),
        &endpoint.path_params,
        &path_params,
    ) {
        Ok(p) => p,
        Err(e) => return Err(e),
    };
    let res = ApiRequest::new(rendered.as_str()).with_lang(lang).with_schema_version(
        schema_version,
    ).with_query_params(query);
    Ok(res)
}

/// Token information, account and character calls need the key, so
/// without one they fail locally with `MissingApiKey` before any HTTP
/// request.
pub proof fn lemma_keyed_calls_need_key(config: ClientConfig)
    requires
        config.api_key is None,
    ensures
        lacks_key(config, keyed("/v2/tokeninfo"@)),
        lacks_key(config, keyed("/v2/account"@)),
        lacks_key(config, keyed("/v2/characters"@)),
{
}

/// Route, item and price calls never send the key, whatever is configured.
pub proof fn lemma_public_calls_send_no_key(
    config: ClientConfig,
    ids: Seq<Seq<char>>,
    lang: Option<Seq<char>>,
)
    ensures
        bearer_for(
            config,
            ApiRequestModel { schema_version: Some("latest"@), ..bare_request("/v2.json"@) },
        ) is None,
        bearer_for(config, ApiRequestModel { ids, lang, ..bare_request("/v2/items"@) }) is None,
        bearer_for(config, ApiRequestModel { ids, ..bare_request("/v2/commerce/prices"@) }) is None,
{
}

/// Whatever the `public` family builds needs no key, so its requests carry
/// no `Authorization` header.
pub proof fn lemma_public_family_sends_no_key(
    key: Seq<char>,
    id: Option<Seq<char>>,
    ids: Seq<Seq<char>>,
    page: u32,
    page_size: Option<u32>,
    params: Seq<(Seq<char>, Seq<char>)>,
    query: Seq<(Seq<char>, Seq<char>)>,
    lang: Option<Seq<char>>,
    version: Option<Seq<char>>,
    list: Result<ApiRequest, Gw3Error>,
    get: Result<ApiRequest, Gw3Error>,
    all: Result<ApiRequest, Gw3Error>,
    paged: Result<ApiRequest, Gw3Error>,
    call: Result<ApiRequest, Gw3Error>,
)
    requires
        public_list_outcome(key, lang, version, list),
        public_get_outcome(key, id, ids, lang, version, get),
        public_all_outcome(key, lang, version, all),
        public_page_outcome(key, page, page_size, lang, version, paged),
        public_call_outcome(key, params, query, lang, version, call),
    ensures
        list matches Ok(r) ==> !r.requires_auth,
        get matches Ok(r) ==> !r.requires_auth,
        all matches Ok(r) ==> !r.requires_auth,
        paged matches Ok(r) ==> !r.requires_auth,
        call matches Ok(r) ==> !r.requires_auth,
{
}

} // verus!
