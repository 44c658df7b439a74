//! Declarations of the outside types that the library carries, and the
//! trusted wrappers around the outside functions that it calls.
use vstd::prelude::*;

verus! {

/// `url::ParseError`: the reason `url::Url::parse` refused a text.
#[verifier::external_type_specification]
#[verifier::external_body]
pub struct ExUrlParseError(url::ParseError);

/// `serde_json::Value`: a parsed JSON document.
#[verifier::external_type_specification]
#[verifier::external_body]
pub struct ExJsonValue(serde_json::Value);

/// `serde_json::Error`: the reason a JSON text was refused.
#[verifier::external_type_specification]
#[verifier::external_body]
pub struct ExJsonError(serde_json::Error);

/// `reqwest::Error`: a failure of the HTTP transport.
#[verifier::external_type_specification]
#[verifier::external_body]
pub struct ExHttpError(reqwest::Error);

/// What `url::Url::parse` followed by `query_pairs_mut().extend_pairs(..)`
/// makes of a target text and a list of query pairs: the URL's serialization,
/// or the parse error where the target does not parse.
pub uninterp spec fn url_with_query(target: Seq<char>, pairs: Seq<(Seq<char>, Seq<char>)>) -> Result<
    Seq<char>,
    url::ParseError,
>;

/// What `serde_json::from_str::<serde_json::Value>` makes of a text: the
/// parsed value, or `None` where the text is refused.
pub uninterp spec fn json_parsed(text: Seq<char>) -> Option<serde_json::Value>;

/// Parses `target` with `url::Url::parse`, appends `pairs` in order as
/// form-urlencoded query pairs through `Url::query_pairs_mut` and
/// `Serializer::extend_pairs` (which adds a `?` even for no pairs), and hands
/// back the serialization (`Url::as_str`). The contract claims only that the
/// outcome, the URL or the parse error, is the one that `url_with_query`
/// names for these arguments.
#[verifier::external_body]
pub(crate) fn url_with_query_pairs(target: &str, pairs: &Vec<(String, String)>) -> (res: Result<
    String,
    url::ParseError,
>)
    ensures
        match res {
            Ok(s) => url_with_query(target@, crate::text::pairs_view(pairs@)) == Ok::<
                Seq<char>,
                url::ParseError,
            >(s@),
            Err(e) => url_with_query(target@, crate::text::pairs_view(pairs@)) == Err::<
                Seq<char>,
                url::ParseError,
            >(e),
        },
{
    let mut url = url::Url::parse(target)?;
    url.query_pairs_mut().extend_pairs(pairs.iter());
    Ok(url.as_str().to_string())
}

/// Parses a JSON text with `serde_json::from_str::<serde_json::Value>`. The
/// contract claims that the outcome is the one that `json_parsed` names for
/// this text: the value it names, or a refusal where it names none.
#[verifier::external_body]
pub(crate) fn parse_json(text: &str) -> (res: Result<serde_json::Value, serde_json::Error>)
    ensures
        match res {
            Ok(v) => json_parsed(text@) == Some(v),
            Err(_) => json_parsed(text@) is None,
        },
{
    serde_json::from_str(text)
}

/// The elements that a `serde_json::Value` holds as a collection: those of
/// its `Array` variant in order, or `None` for any other variant.
pub uninterp spec fn json_array_elements(value: serde_json::Value) -> Option<Seq<serde_json::Value>>;

/// Tells the variants of a `serde_json::Value` apart by matching on
/// `Value::Array`: the vector that an `Array` holds, or the value itself,
/// unchanged, for any other variant.
#[verifier::external_body]
pub(crate) fn json_array_items(value: serde_json::Value) -> (res: Result<
    Vec<serde_json::Value>,
    serde_json::Value,
>)
    ensures
        match res {
            Ok(items) => json_array_elements(value) == Some(items@),
            Err(other) => json_array_elements(value) is None && other == value,
        },
{
    match value {
        serde_json::Value::Array(items) => Ok(items),
        other => Err(other),
    }
}

/// Wraps values into `serde_json::Value::Array`, which then holds exactly
/// those values in order.
#[verifier::external_body]
pub(crate) fn json_array(items: Vec<serde_json::Value>) -> (res: serde_json::Value)
    ensures
        json_array_elements(res) == Some(items@),
{
    serde_json::Value::Array(items)
}

/// The text that the `Display` of a `url::ParseError` writes.
pub uninterp spec fn url_error_text(error: url::ParseError) -> Seq<char>;

/// The text that the `Display` of a `reqwest::Error` writes.
pub uninterp spec fn http_error_text(error: reqwest::Error) -> Seq<char>;

/// The text that the `Display` of a `serde_json::Error` writes.
pub uninterp spec fn json_error_text(error: serde_json::Error) -> Seq<char>;

/// The text that the `Display` of a `serde_json::Value` writes (its compact
/// serialization).
pub uninterp spec fn json_value_text(value: serde_json::Value) -> Seq<char>;

/// Renders a `url::ParseError` through its `Display` (`ToString::to_string`);
/// the contract claims only that the text is the one `url_error_text` names.
#[verifier::external_body]
pub(crate) fn url_error_display(error: &url::ParseError) -> (res: String)
    ensures
        res@ == url_error_text(*error),
{
    error.to_string()
}

/// Renders a `reqwest::Error` through its `Display`; the contract claims only
/// that the text is the one `http_error_text` names.
#[verifier::external_body]
pub(crate) fn http_error_display(error: &reqwest::Error) -> (res: String)
    ensures
        res@ == http_error_text(*error),
{
    error.to_string()
}

/// Renders a `serde_json::Error` through its `Display`; the contract claims
/// only that the text is the one `json_error_text` names.
#[verifier::external_body]
pub(crate) fn json_error_display(error: &serde_json::Error) -> (res: String)
    ensures
        res@ == json_error_text(*error),
{
    error.to_string()
}

/// Renders a `serde_json::Value` through its `Display`; the contract claims
/// only that the text is the one `json_value_text` names.
#[verifier::external_body]
pub(crate) fn json_value_display(value: &serde_json::Value) -> (res: String)
    ensures
        res@ == json_value_text(*value),
{
    value.to_string()
}

} // verus!
