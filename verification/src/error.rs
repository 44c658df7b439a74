//! The stable error kinds of the library.
use crate::outside::{
    http_error_display, http_error_text, json_error_display, json_error_text, json_value_display,
    json_value_text, url_error_display, url_error_text,
};
use crate::text::{decimal, decimal_string, owned};
use vstd::prelude::*;
use vstd::string::*;

verus! {

/// Every failure that a request can end in.
#[derive(Debug)]
pub enum Gw3Error {
    InvalidLanguage(String),
    MissingApiKey,
    InvalidPath(String),
    InvalidUrl { url: String, source: url::ParseError },
    HttpClient(reqwest::Error),
    Transport(reqwest::Error),
    Json(serde_json::Error),
    PartialContent { body: String },
    Forbidden { body: String },
    NotFound { body: String },
    RateLimited { body: String },
    DisabledEndpoint { body: String },
    Upstream { status: u16, body: String },
    UnexpectedStatus { status: u16, body: String },
    UnexpectedResponse(serde_json::Value),
    UnknownPublicEndpoint(String),
    PublicEndpointRequiresAuth { key: String, path: String },
    InactivePublicEndpoint { key: String, path: String },
    UnsupportedPublicOperation { key: String, operation: String },
    MissingPathParameter { key: String, name: String },
    UnexpectedPathParameter { key: String, name: String },
    Runtime(String),
}

/// `a` followed by `b`.
fn cat(a: &str, b: &str) -> (res: String)
    ensures
        res@ == a@ + b@,
{
    owned(a).concat(b)
}

/// `a`, `b` and `c` in turn.
fn cat3(a: &str, b: &str, c: &str) -> (res: String)
    ensures
        res@ == a@ + b@ + c@,
{
    owned(a).concat(b).concat(c)
}

/// `a` to `e` in turn.
fn cat5(a: &str, b: &str, c: &str, d: &str, e: &str) -> (res: String)
    ensures
        res@ == a@ + b@ + c@ + d@ + e@,
{
    owned(a).concat(b).concat(c).concat(d).concat(e)
}

impl Gw3Error {
    /// The message of an error: a fixed text per kind with the error's own
    /// fields set into it.
    pub open spec fn message_text(&self) -> Seq<char> {
        match self {
            Gw3Error::InvalidLanguage(l) => "invalid language `"@ + l@
                + "`; expected one of en, es, de, fr, zh"@,
            Gw3Error::MissingApiKey => "GW2_API_KEY or --api-key is required for this command"@,
            Gw3Error::InvalidPath(p) => "invalid API path `"@ + p@ + "`; expected /v2/..."@,
            Gw3Error::InvalidUrl { url, source } => "invalid URL `"@ + url@ + "`: "@
                + url_error_text(*source),
            Gw3Error::HttpClient(e) => "failed to build HTTP client: "@ + http_error_text(*e),
            Gw3Error::Transport(e) => "transport error: "@ + http_error_text(*e),
            Gw3Error::Json(e) => "JSON error: "@ + json_error_text(*e),
            Gw3Error::PartialContent { body } => "official API returned partial content: "@
                + body@,
            Gw3Error::Forbidden { body } => "forbidden by official API: "@ + body@,
            Gw3Error::NotFound { body } => "official API resource was not found: "@ + body@,
            Gw3Error::RateLimited { body } => "official API rate limit exceeded: "@ + body@,
            Gw3Error::DisabledEndpoint { body } => "official API endpoint is disabled: "@ + body@,
            Gw3Error::Upstream { status, body } => "official API upstream failure "@ + decimal(
                *status as nat,
            ) + ": "@ + body@,
            Gw3Error::UnexpectedStatus { status, body } => "unexpected HTTP status "@ + decimal(
                *status as nat,
            ) + ": "@ + body@,
            Gw3Error::UnexpectedResponse(v) => "unexpected response shape: "@ + json_value_text(*v),
            Gw3Error::UnknownPublicEndpoint(k) => "unknown public endpoint `"@ + k@ + "`"@,
            Gw3Error::PublicEndpointRequiresAuth { key, path } => "public endpoint `"@ + key@
                + "` ("@ + path@ + ") requires an API key and is not part of the public commands"@,
            Gw3Error::InactivePublicEndpoint { key, path } => "public endpoint `"@ + key@ + "` ("@
                + path@ + ") is inactive"@,
            Gw3Error::UnsupportedPublicOperation { key, operation } => "public endpoint `"@ + key@
                + "` does not support `"@ + operation@ + "`"@,
            Gw3Error::MissingPathParameter { key, name } => "public endpoint `"@ + key@
                + "` needs path parameter `"@ + name@ + "`"@,
            Gw3Error::UnexpectedPathParameter { key, name } => "public endpoint `"@ + key@
                + "` has no path parameter `"@ + name@ + "`"@,
            Gw3Error::Runtime(m) => "runtime error: "@ + m@,
        }
    }

    /// The message of this error.
    pub fn message(&self) -> (res: String)
        ensures
            res@ == self.message_text(),
    {
        match self {
            Gw3Error::InvalidLanguage(l) => cat3(
                "invalid language `",
                l.as_str(),
                "`; expected one of en, es, de, fr, zh",
            ),
            Gw3Error::MissingApiKey => owned("GW2_API_KEY or --api-key is required for this command"),
            Gw3Error::InvalidPath(p) => cat3("invalid API path `", p.as_str(), "`; expected /v2/..."),
            Gw3Error::InvalidUrl { url, source } => {
                let detail = url_error_display(source);
                cat3("invalid URL `", url.as_str(), "`: ").concat(detail.as_str())
            },
            Gw3Error::HttpClient(e) => cat(
                "failed to build HTTP client: ",
                http_error_display(e).as_str(),
            ),
            Gw3Error::Transport(e) => cat("transport error: ", http_error_display(e).as_str()),
            Gw3Error::Json(e) => cat("JSON error: ", json_error_display(e).as_str()),
            Gw3Error::PartialContent { body } => cat(
                "official API returned partial content: ",
                body.as_str(),
            ),
            Gw3Error::Forbidden { body } => cat("forbidden by official API: ", body.as_str()),
            Gw3Error::NotFound { body } => cat("official API resource was not found: ", body.as_str()),
            Gw3Error::RateLimited { body } => cat("official API rate limit exceeded: ", body.as_str()),
            Gw3Error::DisabledEndpoint { body } => cat(
                "official API endpoint is disabled: ",
                body.as_str(),
            ),
            Gw3Error::Upstream { status, body } => {
                let code = decimal_string(*status as u32);
                cat3("official API upstream failure ", code.as_str(), ": ").concat(body.as_str())
            },
            Gw3Error::UnexpectedStatus { status, body } => {
                let code = decimal_string(*status as u32);
                cat3("unexpected HTTP status ", code.as_str(), ": ").concat(body.as_str())
            },
            Gw3Error::UnexpectedResponse(v) => cat(
                "unexpected response shape: ",
                json_value_display(v).as_str(),
            ),
            Gw3Error::UnknownPublicEndpoint(k) => cat3("unknown public endpoint `", k.as_str(), "`"),
            Gw3Error::PublicEndpointRequiresAuth { key, path } => cat5(
                "public endpoint `",
                key.as_str(),
                "` (",
                path.as_str(),
                ") requires an API key and is not part of the public commands",
            ),
            Gw3Error::InactivePublicEndpoint { key, path } => cat5(
                "public endpoint `",
                key.as_str(),
                "` (",
                path.as_str(),
                ") is inactive",
            ),
            Gw3Error::UnsupportedPublicOperation { key, operation } => cat5(
                "public endpoint `",
                key.as_str(),
                "` does not support `",
                operation.as_str(),
                "`",
            ),
            Gw3Error::MissingPathParameter { key, name } => cat5(
                "public endpoint `",
                key.as_str(),
                "` needs path parameter `",
                name.as_str(),
                "`",
            ),
            Gw3Error::UnexpectedPathParameter { key, name } => cat5(
                "public endpoint `",
                key.as_str(),
                "` has no path parameter `",
                name.as_str(),
                "`",
            ),
            Gw3Error::Runtime(m) => cat("runtime error: ", m.as_str()),
        }
    }
}

} // verus!
