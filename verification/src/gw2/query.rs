//! The query pairs and the URL of one official API call.
use crate::config::ClientConfig;
use crate::error::Gw3Error;
use crate::gw2::path::{normalize_api_path, normalized_api_path};
use crate::gw2::request::{ApiRequest, ApiRequestModel};
use crate::outside::{url_with_query, url_with_query_pairs};
use crate::text::{
    decimal, decimal_string, joined, join, opt_view, owned, pairs_view, strings_view,
    trim_end_char, trim_end_matches_char, trimmed,
};
use vstd::prelude::*;

verus! {

/// One pair where a value is given, none otherwise.
pub open spec fn opt_pair(name: Seq<char>, value: Option<Seq<char>>) -> Seq<(Seq<char>, Seq<char>)> {
    match value {
        Some(v) => seq![(name, v)],
        None => seq![],
    }
}

/// One pair with the decimal rendering of a number where one is given.
pub open spec fn opt_number_pair(name: Seq<char>, value: Option<u32>) -> Seq<(Seq<char>, Seq<char>)> {
    match value {
        Some(v) => seq![(name, decimal(v as nat))],
        None => seq![],
    }
}

/// The first of two optional values that is given.
pub open spec fn first_given(a: Option<Seq<char>>, b: Option<Seq<char>>) -> Option<Seq<char>> {
    match a {
        Some(x) => Some(x),
        None => b,
    }
}

/// The query pairs of a call of `req` for the id batch `ids`, in order:
/// `id`, `ids` (comma-joined, where the batch is not empty), `page`,
/// `page_size`, `lang` (the request's, else the configured one), `v` (the
/// request's schema version, else the configured one), then the request's own
/// extra pairs.
pub open spec fn query_pairs_for(
    config_lang: Option<Seq<char>>,
    config_version: Option<Seq<char>>,
    req: ApiRequestModel,
    ids: Seq<Seq<char>>,
) -> Seq<(Seq<char>, Seq<char>)> {
    opt_pair("id"@, req.id) + (if ids.len() == 0 {
        Seq::<(Seq<char>, Seq<char>)>::empty()
    } else {
        seq![("ids"@, joined(ids, ","@))]
    }) + opt_number_pair("page"@, req.page) + opt_number_pair("page_size"@, req.page_size)
        + opt_pair("lang"@, first_given(req.lang, config_lang)) + opt_pair(
        "v"@,
        first_given(req.schema_version, config_version),
    ) + req.query
}

/// The text that the URL of a call is parsed from: the base URL without its
/// trailing slashes, followed by the normalized path.
pub open spec fn request_target(base_url: Seq<char>, path: Seq<char>) -> Seq<char> {
    trim_end_char(base_url, '/') + path
}

/// What the URL step makes of a call of `req` for the id batch `ids` under
/// `config`, where the path normalizes: the URL or the parse error.
pub open spec fn call_outcome(config: ClientConfig, req: ApiRequestModel, path: Seq<char>, ids: Seq<
    Seq<char>,
>) -> Result<Seq<char>, url::ParseError> {
    url_with_query(
        request_target(config.base_url@, path),
        query_pairs_for(opt_view(config.lang), opt_view(config.schema_version), req, ids),
    )
}

/// The URL of a call of `req` for the id batch `ids` under `config`, where the
/// path normalizes and the target parses.
pub open spec fn call_url(config: ClientConfig, req: ApiRequestModel, ids: Seq<Seq<char>>) -> Option<
    Seq<char>,
> {
    match normalized_api_path(req.path) {
        Some(path) => match call_outcome(config, req, path, ids) {
            Ok(u) => Some(u),
            Err(_) => None,
        },
        None => None,
    }
}

/// The parse error of a call of `req` for the id batch `ids` under `config`,
/// where the path normalizes and the target does not parse.
pub open spec fn call_url_error(config: ClientConfig, req: ApiRequestModel, ids: Seq<Seq<char>>) -> Option<
    url::ParseError,
> {
    match normalized_api_path(req.path) {
        Some(path) => match call_outcome(config, req, path, ids) {
            Ok(_) => None,
            Err(e) => Some(e),
        },
        None => None,
    }
}

fn push_opt_pair(pairs: &mut Vec<(String, String)>, name: &str, value: &Option<String>)
    ensures
        pairs_view(final(pairs)@) == pairs_view(old(pairs)@) + opt_pair(name@, opt_view(*value)),
{
    let ghost before = pairs@;
    if let Some(v) = value {
        pairs.push((owned(name), v.clone()));
        assert(pairs_view(pairs@) =~= pairs_view(before) + opt_pair(name@, opt_view(*value)));
    } else {
        assert(pairs_view(pairs@) =~= pairs_view(before) + opt_pair(name@, opt_view(*value)));
    }
}

fn push_opt_number_pair(pairs: &mut Vec<(String, String)>, name: &str, value: Option<u32>)
    ensures
        pairs_view(final(pairs)@) == pairs_view(old(pairs)@) + opt_number_pair(name@, value),
{
    let ghost before = pairs@;
    if let Some(v) = value {
        pairs.push((owned(name), decimal_string(v)));
        assert(pairs_view(pairs@) =~= pairs_view(before) + opt_number_pair(name@, value));
    } else {
        assert(pairs_view(pairs@) =~= pairs_view(before) + opt_number_pair(name@, value));
    }
}

fn either_opt(a: &Option<String>, b: &Option<String>) -> (res: Option<String>)
    ensures
        opt_view(res) == first_given(opt_view(*a), opt_view(*b)),
{
    match a {
        Some(x) => Some(x.clone()),
        None => match b {
            Some(y) => Some(y.clone()),
            None => None,
        },
    }
}

/// The query pairs of a call of `request` for the id batch `ids` under `config`.
pub fn query_pairs(config: &ClientConfig, request: &ApiRequest, ids: &Vec<String>) -> (res: Vec<
    (String, String),
>)
    ensures
        pairs_view(res@) == query_pairs_for(
            opt_view(config.lang),
            opt_view(config.schema_version),
            request@,
            strings_view(ids@),
        ),
{
    let mut pairs: Vec<(String, String)> = Vec::new();
    assert(pairs_view(pairs@) =~= Seq::<(Seq<char>, Seq<char>)>::empty());
    push_opt_pair(&mut pairs, "id", &request.id);
    let ghost before = pairs@;
    if ids.len() > 0 {
        pairs.push((owned("ids"), join(ids, ",")));
    }
    assert(pairs_view(pairs@) =~= pairs_view(before) + (if ids.len() == 0 {
        Seq::<(Seq<char>, Seq<char>)>::empty()
    } else {
        seq![("ids"@, joined(strings_view(ids@), ","@))]
    }));
    push_opt_number_pair(&mut pairs, "page", request.page);
    push_opt_number_pair(&mut pairs, "page_size", request.page_size);
    let lang = either_opt(&request.lang, &config.lang);
    push_opt_pair(&mut pairs, "lang", &lang);
    let version = either_opt(&request.schema_version, &config.schema_version);
    push_opt_pair(&mut pairs, "v", &version);
    let ghost before_extra = pairs@;
    let mut i: usize = 0;
    while i < request.query.len()
        invariant
            i <= request.query.len(),
            pairs_view(pairs@) == pairs_view(before_extra) + pairs_view(request.query@).take(i as int),
        decreases request.query.len() - i,
    {
        let pair = &request.query[i];
        let entry = (pair.0.clone(), pair.1.clone());
        assert(entry == request.query@[i as int]);
        let ghost prev = pairs@;
        pairs.push(entry);
        assert(pairs@ == prev.push(request.query@[i as int]));
        assert(pairs_view(pairs@) =~= pairs_view(prev).push(pairs_view(request.query@)[i as int]));
        assert(pairs_view(request.query@).take(i + 1) =~= pairs_view(request.query@).take(
            i as int,
        ).push(pairs_view(request.query@)[i as int]));
        assert(pairs_view(pairs@) =~= pairs_view(before_extra) + pairs_view(request.query@).take(
            i + 1,
        ));
        i = i + 1;
    }
    assert(pairs_view(request.query@).take(request.query.len() as int) =~= pairs_view(
        request.query@,
    ));
    assert(pairs_view(pairs@) =~= query_pairs_for(
        opt_view(config.lang),
        opt_view(config.schema_version),
        request@,
        strings_view(ids@),
    ));
    pairs
}

/// The target text of a call: the base URL without trailing slashes, then `path`.
pub fn target_text(base_url: &str, path: &str) -> (res: String)
    ensures
        res@ == request_target(base_url@, path@),
{
    trim_end_matches_char(base_url, '/').concat(path)
}

/// The URL of a call of `request` for the id batch `ids` under `config`:
/// `InvalidPath` where the path does not normalize, `InvalidUrl` (holding the
/// target text) where the target does not parse.
pub fn build_url(config: &ClientConfig, request: &ApiRequest, ids: &Vec<String>) -> (res: Result<
    String,
    Gw3Error,
>)
    ensures
        match res {
            Ok(u) => call_url(*config, request@, strings_view(ids@)) == Some(u@),
            Err(e) => call_url(*config, request@, strings_view(ids@)) is None && match normalized_api_path(
                request@.path,
            ) {
                None => e matches Gw3Error::InvalidPath(t) && t@ == trimmed(request@.path),
                Some(path) => e matches Gw3Error::InvalidUrl { url, source } && url@ == request_target(
                    config.base_url@,
                    path,
                ) && call_url_error(*config, request@, strings_view(ids@)) == Some(source),
            },
        },
{
    let path = match normalize_api_path(request.path.as_str()) {
        Ok(p) => p,
        Err(e) => return Err(e),
    };
    let target = target_text(config.base_url.as_str(), path.as_str());
    let pairs = query_pairs(config, request, ids);
    match url_with_query_pairs(target.as_str(), &pairs) {
        Ok(u) => Ok(u),
        Err(source) => Err(Gw3Error::InvalidUrl { url: target, source }),
    }
}

} // verus!

verus! {

/// The language and schema version of a call are sent as `lang` and `v`
/// whenever the request or the configuration gives them, the request's own
/// taking precedence; the key is never sent as an `access_token` query pair
/// unless the request's own extra pairs name one.
pub proof fn lemma_query_pairs_sent(
    config_lang: Option<Seq<char>>,
    config_version: Option<Seq<char>>,
    req: ApiRequestModel,
    ids: Seq<Seq<char>>,
)
    ensures
        first_given(req.lang, config_lang) matches Some(l) ==> query_pairs_for(
            config_lang,
            config_version,
            req,
            ids,
        ).contains(("lang"@, l)),
        first_given(req.schema_version, config_version) matches Some(v) ==> query_pairs_for(
            config_lang,
            config_version,
            req,
            ids,
        ).contains(("v"@, v)),
        forall|i: int|
            0 <= i < query_pairs_for(config_lang, config_version, req, ids).len() && (
            #[trigger] query_pairs_for(config_lang, config_version, req, ids)[i]).0
                == "access_token"@ ==> exists|j: int|
                0 <= j < req.query.len() && req.query[j].0 == "access_token"@,
{
    reveal_strlit("access_token");
    reveal_strlit("id");
    reveal_strlit("ids");
    reveal_strlit("page");
    reveal_strlit("page_size");
    reveal_strlit("lang");
    reveal_strlit("v");
    let a = opt_pair("id"@, req.id);
    let b = if ids.len() == 0 {
        Seq::<(Seq<char>, Seq<char>)>::empty()
    } else {
        seq![("ids"@, joined(ids, ","@))]
    };
    let c = opt_number_pair("page"@, req.page);
    let d = opt_number_pair("page_size"@, req.page_size);
    let e = opt_pair("lang"@, first_given(req.lang, config_lang));
    let f = opt_pair("v"@, first_given(req.schema_version, config_version));
    let fixed = a + b + c + d + e + f;
    let all = query_pairs_for(config_lang, config_version, req, ids);
    assert(all == fixed + req.query);
    if let Some(l) = first_given(req.lang, config_lang) {
        assert(all[(a + b + c + d).len() as int] == ("lang"@, l));
    }
    if let Some(v) = first_given(req.schema_version, config_version) {
        assert(all[(a + b + c + d + e).len() as int] == ("v"@, v));
    }
    assert forall|i: int|
        0 <= i < all.len() && (#[trigger] all[i]).0 == "access_token"@ implies exists|j: int|
        0 <= j < req.query.len() && req.query[j].0 == "access_token"@ by {
        if i < fixed.len() {
            assert(fixed[i].0 == "access_token"@);
            assert(fixed[i].0.len() != "access_token"@.len());
        } else {
            assert(req.query[i - fixed.len()] == all[i]);
        }
    }
}

} // verus!
