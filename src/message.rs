//! The bodies that the service sends and receives.
use vstd::prelude::*;

verus! {

/// Text of the root banner.
pub open spec fn banner_text() -> Seq<char> {
    "🚀 Super Fast Rust Server!"@
}

/// Status word of a health report.
pub open spec fn healthy_text() -> Seq<char> {
    "OK"@
}

/// Fixed message of a greeting.
pub open spec fn greeting_text() -> Seq<char> {
    "Hello from Rust!"@
}

/// Title of the reply to a request that no route takes.
pub open spec fn not_found_title() -> Seq<char> {
    "Not found"@
}

/// Explanation in the reply to a request that no route takes.
pub open spec fn not_found_text() -> Seq<char> {
    "The requested resource was not found"@
}

/// Title of the reply to a request that a route takes but cannot read.
pub open spec fn bad_request_title() -> Seq<char> {
    "Bad request"@
}

/// Explanation in the reply to a query string that cannot be decoded.
pub open spec fn bad_query_text() -> Seq<char> {
    "The query string could not be decoded"@
}

/// Explanation in the reply to an echo request without a usable body.
pub open spec fn bad_body_text() -> Seq<char> {
    "The body must be a JSON object with a string field named message"@
}

/// Report of a health check: a fixed status and the time it was made.
pub struct HealthResponse {
    pub status: String,
    /// Seconds since the Unix epoch.
    pub timestamp: u64,
}

/// A greeting, carrying the caller's name when one was given.
pub struct HelloResponse {
    pub message: String,
    pub name: Option<String>,
}

/// The body that the echo route takes and gives back.
pub struct EchoRequest {
    pub message: String,
}

/// Body of an error reply: a short title and an explanation.
pub struct ErrorBody {
    pub error: String,
    pub message: String,
}

/// The banner that the root route answers with.
pub fn banner() -> (r: String)
    ensures
        r@ == banner_text(),
{
    "🚀 Super Fast Rust Server!".to_owned()
}

/// A health report made at `timestamp` (seconds since the Unix epoch).
pub fn health(timestamp: u64) -> (r: HealthResponse)
    ensures
        r.status@ == healthy_text(),
        r.timestamp == timestamp,
{
    HealthResponse { status: "OK".to_owned(), timestamp }
}

/// A greeting for `name`, or an anonymous one.
pub fn greeting(name: Option<String>) -> (r: HelloResponse)
    ensures
        r.message@ == greeting_text(),
        r.name == name,
{
    HelloResponse { message: "Hello from Rust!".to_owned(), name }
}

/// The echo route gives its payload back unchanged.
pub fn echo(payload: EchoRequest) -> (r: EchoRequest)
    ensures
        r == payload,
{
    payload
}

/// Body of the reply to a request that no route takes.
pub fn not_found() -> (r: ErrorBody)
    ensures
        r.error@ == not_found_title(),
        r.message@ == not_found_text(),
{
    ErrorBody {
        error: "Not found".to_owned(),
        message: "The requested resource was not found".to_owned(),
    }
}

/// Body of the reply to a query string that cannot be decoded.
pub fn bad_query() -> (r: ErrorBody)
    ensures
        r.error@ == bad_request_title(),
        r.message@ == bad_query_text(),
{
    ErrorBody {
        error: "Bad request".to_owned(),
        message: "The query string could not be decoded".to_owned(),
    }
}

/// Body of the reply to an echo request without a usable body.
pub fn bad_body() -> (r: ErrorBody)
    ensures
        r.error@ == bad_request_title(),
        r.message@ == bad_body_text(),
{
    ErrorBody {
        error: "Bad request".to_owned(),
        message: "The body must be a JSON object with a string field named message".to_owned(),
    }
}

} // verus!
