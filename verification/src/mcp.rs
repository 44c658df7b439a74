//! The arguments of the MCP tools, and the requests they stand for.
use crate::gw2::request::{bare_request, ApiRequest, ApiRequestModel};
use crate::text::{opt_view, strings_view};
use vstd::prelude::*;

verus! {

/// The arguments of `gw2_api_request`.
#[derive(Debug)]
pub struct ApiRequestParams {
    pub path: String,
    pub id: Option<String>,
    pub ids: Vec<String>,
    pub page: Option<u32>,
    pub page_size: Option<u32>,
    pub lang: Option<String>,
    pub schema_version: Option<String>,
    pub requires_auth: bool,
}

/// The arguments of `gw2_item_lookup` and `gw2_item_prices`.
#[derive(Debug)]
pub struct IdsParams {
    pub ids: Vec<String>,
    pub lang: Option<String>,
}

/// The arguments of `gw2_wiki_search` and `gw2_wiki_page`.
#[derive(Debug)]
pub struct WikiQueryParams {
    pub query: String,
}

/// The request that `gw2_api_request` sends for its arguments: every
/// argument carried over, with no extra query pairs.
pub fn api_request_from_params(params: ApiRequestParams) -> (res: ApiRequest)
    ensures
        res@ == (ApiRequestModel {
            id: opt_view(params.id),
            ids: strings_view(params.ids@),
            page: params.page,
            page_size: params.page_size,
            lang: opt_view(params.lang),
            schema_version: opt_view(params.schema_version),
            requires_auth: params.requires_auth,
            ..bare_request(params.path@)
        }),
{
    let mut request = ApiRequest::new(params.path.as_str()).with_ids(params.ids).with_lang(
        params.lang,
    ).with_schema_version(params.schema_version).with_page(params.page, params.page_size);
    if let Some(id) = params.id {
        request = request.with_id(id.as_str());
    }
    if params.requires_auth {
        request = request.requires_auth();
    }
    request
}

} // verus!
