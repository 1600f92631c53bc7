//! The boundary to the outside crates: the HTTP client, the URL type, the
//! JSON parser for responses, and the atomic cell.
//!
//! Every function here only makes one outside call and converts its arguments
//! and result; its contract is what the called crate's source shows.

use vstd::prelude::*;

verus! {

#[verifier::external_type_specification]
#[verifier::external_body]
pub struct ExUrl(url::Url);

#[verifier::external_type_specification]
#[verifier::external_body]
pub struct ExUrlParseError(url::ParseError);

#[verifier::external_type_specification]
#[verifier::external_body]
pub struct ExReqwestError(reqwest::Error);

#[verifier::external_type_specification]
#[verifier::external_body]
pub struct ExClient(reqwest::blocking::Client);

#[verifier::external_type_specification]
#[verifier::external_body]
pub struct ExRequestBuilder(reqwest::blocking::RequestBuilder);

#[verifier::external_type_specification]
#[verifier::external_body]
pub struct ExResponse(reqwest::blocking::Response);

#[verifier::external_type_specification]
#[verifier::external_body]
pub struct ExStatusCode(reqwest::StatusCode);

#[verifier::external_type_specification]
#[verifier::external_body]
pub struct ExValue(serde_json::Value);

#[verifier::external_type_specification]
#[verifier::external_body]
#[verifier::reject_recursive_types(T)]
pub struct ExAtomic<T>(atomic::Atomic<T>);

// Names for what the URL calls return. Each is the result of one function of
// its arguments alone: parsing and RFC-3986 joining consult nothing else.
pub uninterp spec fn url_parse_of(input: Seq<char>) -> Result<url::Url, url::ParseError>;

pub uninterp spec fn url_join_of(base: url::Url, input: Seq<char>) -> Result<
    url::Url,
    url::ParseError,
>;

/// Relies on `url::Url::parse`: parses an absolute URL from text, or reports
/// why the text is not one; the same text always parses the same way.
#[verifier::external_body]
pub(crate) fn url_parse(input: &str) -> (r: Result<url::Url, url::ParseError>)
    ensures
        r == url_parse_of(input@),
{
    url::Url::parse(input)
}

/// Relies on `url::Url::join`: resolves `input` against `base`, so a leading
/// slash replaces the base's path; the same pair always joins the same way.
#[verifier::external_body]
pub(crate) fn url_join(base: &url::Url, input: &str) -> (r: Result<url::Url, url::ParseError>)
    ensures
        r == url_join_of(*base, input@),
{
    base.join(input)
}

/// Relies on `reqwest::blocking::Client::new`: a client with default settings,
/// safe to share across threads. Documented to panic when the TLS backend or
/// the system resolver cannot initialize, or when called inside an async
/// runtime: environmental conditions that no argument rules out.
#[verifier::external_body]
pub(crate) fn client_new() -> reqwest::blocking::Client {
    reqwest::blocking::Client::new()
}

/// Relies on `reqwest::blocking::Client::post`: starts building a POST request
/// to the given URL.
#[verifier::external_body]
pub(crate) fn client_post(
    client: &reqwest::blocking::Client,
    url: &url::Url,
) -> reqwest::blocking::RequestBuilder {
    client.post(url.as_str())
}

/// Relies on `reqwest::blocking::RequestBuilder::header`: records the header
/// pair on the request being built.
#[verifier::external_body]
pub(crate) fn request_header(
    builder: reqwest::blocking::RequestBuilder,
    key: &str,
    value: &str,
) -> reqwest::blocking::RequestBuilder {
    builder.header(key, value)
}

/// Relies on `reqwest::blocking::RequestBuilder::body`: records the request
/// body being sent.
#[verifier::external_body]
pub(crate) fn request_body(
    builder: reqwest::blocking::RequestBuilder,
    body: String,
) -> reqwest::blocking::RequestBuilder {
    builder.body(body)
}

/// Relies on `reqwest::blocking::RequestBuilder::send`: one HTTP attempt,
/// whose outcome depends on the network and the remote server. Shares
/// `client_new`'s documented panic when called inside an async runtime.
#[verifier::external_body]
pub(crate) fn request_send(
    builder: reqwest::blocking::RequestBuilder,
) -> Result<reqwest::blocking::Response, reqwest::Error> {
    builder.send()
}

/// Relies on `reqwest::blocking::Response::status`: the response's HTTP status
/// code.
#[verifier::external_body]
pub(crate) fn response_status(response: &reqwest::blocking::Response) -> reqwest::StatusCode {
    response.status()
}

/// Relies on `reqwest::StatusCode::is_success`: whether the code lies in the
/// 2xx range.
#[verifier::external_body]
pub(crate) fn status_is_success(status: &reqwest::StatusCode) -> bool {
    status.is_success()
}

/// Relies on `reqwest::blocking::Response::text`: reads the whole response
/// body as text.
#[verifier::external_body]
pub(crate) fn response_text(response: reqwest::blocking::Response) -> Result<
    String,
    reqwest::Error,
> {
    response.text()
}

/// Relies on `reqwest::Error::without_url`: the same failure with any URL
/// removed from it.
#[verifier::external_body]
pub(crate) fn strip_url(error: reqwest::Error) -> reqwest::Error {
    error.without_url()
}

/// Relies on the `Display` rendering of `reqwest::Error`.
#[verifier::external_body]
pub(crate) fn reqwest_error_text(error: &reqwest::Error) -> String {
    format!("{}", error)
}

/// Relies on the `Display` rendering of `url::ParseError`.
#[verifier::external_body]
pub(crate) fn parse_error_text(error: &url::ParseError) -> String {
    format!("{}", error)
}

// Names for what the JSON reading calls return. Each is the result of one
// function of its arguments alone: `serde_json::from_str` is deterministic
// (its object maps are ordered, not seeded), and `get`, `as_bool` and
// `as_str` read a value without consulting anything else.
pub uninterp spec fn parsed_json(text: Seq<char>) -> Option<serde_json::Value>;

pub uninterp spec fn json_member(value: serde_json::Value, key: Seq<char>) -> Option<
    serde_json::Value,
>;

pub uninterp spec fn json_bool(value: serde_json::Value) -> Option<bool>;

pub uninterp spec fn json_str(value: serde_json::Value) -> Option<Seq<char>>;

/// Relies on `serde_json::from_str`: a parsed value when the text is valid
/// JSON, and nothing otherwise; the same text always parses to the same
/// value.
#[verifier::external_body]
pub(crate) fn parse_json(text: &str) -> (r: Option<serde_json::Value>)
    ensures
        r == parsed_json(text@),
{
    serde_json::from_str::<serde_json::Value>(text).ok()
}

/// Relies on `serde_json::Value::get`: the named member when the value is an
/// object that has it, and nothing otherwise.
#[verifier::external_body]
pub(crate) fn json_get<'a>(value: &'a serde_json::Value, key: &str) -> (r: Option<
    &'a serde_json::Value,
>)
    ensures
        (r matches Some(m) ==> json_member(*value, key@) == Some(*m)),
        (r is None ==> json_member(*value, key@) is None),
{
    value.get(key)
}

/// Relies on `serde_json::Value::as_bool`: the value when it is a boolean, and
/// nothing otherwise.
#[verifier::external_body]
pub(crate) fn json_as_bool(value: &serde_json::Value) -> (r: Option<bool>)
    ensures
        r == json_bool(*value),
{
    value.as_bool()
}

/// Relies on `serde_json::Value::as_str`: the text when the value is a string,
/// and nothing otherwise.
#[verifier::external_body]
pub(crate) fn json_as_str(value: &serde_json::Value) -> (r: Option<String>)
    ensures
        (r matches Some(s) ==> json_str(*value) == Some(s@)),
        (r is None ==> json_str(*value) is None),
{
    match value.as_str() {
        Some(s) => Some(s.to_string()),
        None => None,
    }
}

/// Relies on `atomic::Atomic::new`: a cell holding the given word.
#[verifier::external_body]
pub(crate) fn atomic_new(value: u32) -> atomic::Atomic<u32> {
    atomic::Atomic::new(value)
}

/// Relies on `atomic::Atomic::load`: some word a store put into the cell,
/// without tearing; which one depends on thread timing.
#[verifier::external_body]
pub(crate) fn atomic_load(cell: &atomic::Atomic<u32>) -> u32 {
    cell.load(core::sync::atomic::Ordering::Relaxed)
}

/// Relies on `atomic::Atomic::store`: puts the word into the cell, without
/// tearing.
#[verifier::external_body]
pub(crate) fn atomic_store(cell: &atomic::Atomic<u32>, value: u32) {
    cell.store(value, core::sync::atomic::Ordering::Relaxed)
}

} // verus!
