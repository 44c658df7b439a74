//! How an HTTP status and body become a JSON value or a stable error.
use crate::error::Gw3Error;
use crate::outside::{json_parsed, parse_json};
use vstd::prelude::*;

verus! {

/// What a response status stands for.
#[derive(Debug, Clone, Copy, PartialEq, Eq, Structural)]
pub enum ResponseClass {
    /// The body is the JSON answer.
    Success,
    /// Only part of the answer came back (206).
    PartialContent,
    Forbidden,
    NotFound,
    RateLimited,
    Disabled,
    /// A server error (5xx) with no kind of its own.
    Upstream,
    /// Any other status.
    Unexpected,
}

/// The official API: 200 carries the answer; 206 (partial content), 403,
/// 404, 429 and 503 have kinds of their own; other 5xx are upstream failures.
pub open spec fn api_status_class(status: u16) -> ResponseClass {
    if status == 200 {
        ResponseClass::Success
    } else if status == 206 {
        ResponseClass::PartialContent
    } else if status == 403 {
        ResponseClass::Forbidden
    } else if status == 404 {
        ResponseClass::NotFound
    } else if status == 429 {
        ResponseClass::RateLimited
    } else if status == 503 {
        ResponseClass::Disabled
    } else if 500 <= status <= 599 {
        ResponseClass::Upstream
    } else {
        ResponseClass::Unexpected
    }
}

/// The Wiki: 200 carries the answer, 429 is a rate limit, 5xx upstream
/// failures.
pub open spec fn wiki_status_class(status: u16) -> ResponseClass {
    if status == 200 {
        ResponseClass::Success
    } else if status == 429 {
        ResponseClass::RateLimited
    } else if 500 <= status <= 599 {
        ResponseClass::Upstream
    } else {
        ResponseClass::Unexpected
    }
}

/// The outcome that a response of class `class` with `status` and `body` has.
pub open spec fn response_outcome(
    class: ResponseClass,
    status: u16,
    body: Seq<char>,
    res: Result<serde_json::Value, Gw3Error>,
) -> bool {
    match class {
        ResponseClass::Success => match json_parsed(body) {
            Some(v) => res == Ok::<serde_json::Value, Gw3Error>(v),
            None => res matches Err(e) && e is Json,
        },
        ResponseClass::PartialContent => res matches Err(Gw3Error::PartialContent { body: b }) && b@
            == body,
        ResponseClass::Forbidden => res matches Err(Gw3Error::Forbidden { body: b }) && b@ == body,
        ResponseClass::NotFound => res matches Err(Gw3Error::NotFound { body: b }) && b@ == body,
        ResponseClass::RateLimited => res matches Err(Gw3Error::RateLimited { body: b }) && b@ == body,
        ResponseClass::Disabled => res matches Err(Gw3Error::DisabledEndpoint { body: b }) && b@ == body,
        ResponseClass::Upstream => res matches Err(Gw3Error::Upstream { status: s, body: b }) && s
            == status && b@ == body,
        ResponseClass::Unexpected => res matches Err(Gw3Error::UnexpectedStatus { status: s, body: b })
            && s == status && b@ == body,
    }
}

/// The class of an official API response status.
pub fn classify_api_status(status: u16) -> (res: ResponseClass)
    ensures
        res == api_status_class(status),
        res == ResponseClass::Success <==> status == 200,
        500 <= status <= 599 && status != 503 ==> res == ResponseClass::Upstream,
{
    if status == 200 {
        ResponseClass::Success
    } else if status == 206 {
        ResponseClass::PartialContent
    } else if status == 403 {
        ResponseClass::Forbidden
    } else if status == 404 {
        ResponseClass::NotFound
    } else if status == 429 {
        ResponseClass::RateLimited
    } else if status == 503 {
        ResponseClass::Disabled
    } else if 500 <= status && status <= 599 {
        ResponseClass::Upstream
    } else {
        ResponseClass::Unexpected
    }
}

/// The class of a Wiki response status.
pub fn classify_wiki_status(status: u16) -> (res: ResponseClass)
    ensures
        res == wiki_status_class(status),
        res == ResponseClass::Success <==> status == 200,
        500 <= status <= 599 ==> res == ResponseClass::Upstream,
{
    if status == 200 {
        ResponseClass::Success
    } else if status == 429 {
        ResponseClass::RateLimited
    } else if 500 <= status && status <= 599 {
        ResponseClass::Upstream
    } else {
        ResponseClass::Unexpected
    }
}

/// Turns a response of class `class` into the parsed body or its error.
pub fn decode_classified(class: ResponseClass, status: u16, body: String) -> (res: Result<
    serde_json::Value,
    Gw3Error,
>)
    ensures
        response_outcome(class, status, body@, res),
{
    match class {
        ResponseClass::Success => match parse_json(body.as_str()) {
            Ok(v) => Ok(v),
            Err(e) => Err(Gw3Error::Json(e)),
        },
        ResponseClass::PartialContent => Err(Gw3Error::PartialContent { body }),
        ResponseClass::Forbidden => Err(Gw3Error::Forbidden { body }),
        ResponseClass::NotFound => Err(Gw3Error::NotFound { body }),
        ResponseClass::RateLimited => Err(Gw3Error::RateLimited { body }),
        ResponseClass::Disabled => Err(Gw3Error::DisabledEndpoint { body }),
        ResponseClass::Upstream => Err(Gw3Error::Upstream { status, body }),
        ResponseClass::Unexpected => Err(Gw3Error::UnexpectedStatus { status, body }),
    }
}

/// Turns an official API response into its JSON value or a stable error.
pub fn decode_api_response(status: u16, body: String) -> (res: Result<serde_json::Value, Gw3Error>)
    ensures
        response_outcome(api_status_class(status), status, body@, res),
        res is Ok ==> status == 200,
        500 <= status <= 599 && status != 503 ==> (res matches Err(
            Gw3Error::Upstream { status: s, body: b },
        ) && s == status && b@ == body@),
{
    decode_classified(classify_api_status(status), status, body)
}

/// Turns a Wiki response into its JSON value or a stable error.
pub fn decode_wiki_response(status: u16, body: String) -> (res: Result<serde_json::Value, Gw3Error>)
    ensures
        response_outcome(wiki_status_class(status), status, body@, res),
        res is Ok ==> status == 200,
        500 <= status <= 599 ==> (res matches Err(Gw3Error::Upstream { status: s, body: b }) && s
            == status && b@ == body@),
{
    decode_classified(classify_wiki_status(status), status, body)
}

} // verus!
