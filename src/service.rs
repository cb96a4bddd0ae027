//! A request in, a reply out: the whole of what the service decides.
use vstd::prelude::*;

use crate::message::{
    bad_body, bad_body_text, bad_query, bad_query_text, bad_request_title, banner, banner_text,
    echo, greeting, greeting_text, health, healthy_text, not_found, not_found_text,
    not_found_title, EchoRequest, ErrorBody, HealthResponse, HelloResponse,
};
use crate::query::{
    decoded_pairs, last_value, lookup, opt_text, pairs_view, parse_query, QueryError,
};
use crate::router::{route, route_of, Method, Route};

verus! {

/// Status of a reply that carries what was asked for.
pub const STATUS_OK: u16 = 200;

/// Status of a reply to a request that a route takes but cannot read.
pub const STATUS_BAD_REQUEST: u16 = 400;

/// Status of a reply to a request that no route takes.
pub const STATUS_NOT_FOUND: u16 = 404;

/// A request as the handlers see it.
pub struct Request {
    pub method: Method,
    /// The path of the URL, without its query.
    pub path: String,
    /// The query of the URL, without the `?`; empty where there is none.
    pub query: String,
    /// The body read as an echo payload, or `None` where it is missing or is
    /// not one.
    pub payload: Option<EchoRequest>,
    /// The time at which the request is handled, in seconds since the Unix epoch.
    pub timestamp: u64,
}

/// What a reply carries.
pub enum Payload {
    /// Plain text.
    Text(String),
    Health(HealthResponse),
    Hello(HelloResponse),
    Echo(EchoRequest),
    Error(ErrorBody),
}

/// A reply: its status code and what it carries.
pub struct Reply {
    pub status: u16,
    pub payload: Payload,
}

/// A request as values.
pub struct RequestView {
    pub method: Method,
    pub path: Seq<char>,
    pub query: Seq<char>,
    pub payload: Option<Seq<char>>,
    pub timestamp: u64,
}

/// What a reply carries, as values.
pub enum PayloadView {
    Text(Seq<char>),
    Health { status: Seq<char>, timestamp: u64 },
    Hello { message: Seq<char>, name: Option<Seq<char>> },
    Echo { message: Seq<char> },
    Error { error: Seq<char>, message: Seq<char> },
}

/// A reply as values.
pub struct ReplyView {
    pub status: u16,
    pub payload: PayloadView,
}

impl View for Request {
    type V = RequestView;

    open spec fn view(&self) -> RequestView {
        RequestView {
            method: self.method,
            path: self.path@,
            query: self.query@,
            payload: match self.payload {
                Some(p) => Some(p.message@),
                None => None,
            },
            timestamp: self.timestamp,
        }
    }
}

impl View for Payload {
    type V = PayloadView;

    open spec fn view(&self) -> PayloadView {
        match self {
            Payload::Text(t) => PayloadView::Text(t@),
            Payload::Health(h) => PayloadView::Health { status: h.status@, timestamp: h.timestamp },
            Payload::Hello(h) => PayloadView::Hello { message: h.message@, name: opt_text(h.name) },
            Payload::Echo(e) => PayloadView::Echo { message: e.message@ },
            Payload::Error(e) => PayloadView::Error { error: e.error@, message: e.message@ },
        }
    }
}

impl View for Reply {
    type V = ReplyView;

    open spec fn view(&self) -> ReplyView {
        ReplyView { status: self.status, payload: self.payload@ }
    }
}

/// Key of the query pair that holds the caller's name.
pub open spec fn name_key() -> Seq<char> {
    "name"@
}

/// The greeting for a query whose pairs are `pairs`.
pub open spec fn greeting_for(pairs: Seq<(Seq<char>, Seq<char>)>) -> PayloadView {
    PayloadView::Hello { message: greeting_text(), name: last_value(pairs, name_key()) }
}

/// The reply that each request gets.
pub open spec fn reply_to(req: RequestView) -> ReplyView {
    match route_of(req.method, req.path) {
        Route::Root => ReplyView { status: STATUS_OK, payload: PayloadView::Text(banner_text()) },
        Route::Health => ReplyView {
            status: STATUS_OK,
            payload: PayloadView::Health { status: healthy_text(), timestamp: req.timestamp },
        },
        Route::Hello => match decoded_pairs(req.query) {
            Some(pairs) => ReplyView { status: STATUS_OK, payload: greeting_for(pairs) },
            None => ReplyView {
                status: STATUS_BAD_REQUEST,
                payload: PayloadView::Error { error: bad_request_title(), message: bad_query_text() },
            },
        },
        Route::Echo => match req.payload {
            Some(m) => ReplyView { status: STATUS_OK, payload: PayloadView::Echo { message: m } },
            None => ReplyView {
                status: STATUS_BAD_REQUEST,
                payload: PayloadView::Error { error: bad_request_title(), message: bad_body_text() },
            },
        },
        Route::NotFound => ReplyView {
            status: STATUS_NOT_FOUND,
            payload: PayloadView::Error { error: not_found_title(), message: not_found_text() },
        },
    }
}

/// The greeting for a query already decoded into `pairs`: it names the caller
/// where a pair has the key `name`, with the value of the last such pair.
pub fn hello_from_pairs(pairs: &Vec<(String, String)>) -> (r: HelloResponse)
    ensures
        Payload::Hello(r)@ == greeting_for(pairs_view(pairs@)),
{
    let name = lookup(pairs, "name");
    greeting(name)
}

/// The greeting for the query string `query`.
pub fn hello(query: &str) -> (r: Result<HelloResponse, QueryError>)
    ensures
        match decoded_pairs(query@) {
            Some(pairs) => r matches Ok(h) && Payload::Hello(h)@ == greeting_for(pairs),
            None => r == Err::<HelloResponse, QueryError>(QueryError::Undecodable),
        },
{
    match parse_query(query) {
        Ok(pairs) => Ok(hello_from_pairs(&pairs)),
        Err(e) => Err(e),
    }
}

/// Handles one request. The reply depends on the request alone: the service
/// keeps no state from one request to the next.
pub fn handle(req: Request) -> (r: Reply)
    ensures
        r@ == reply_to(req@),
{
    let Request { method, path, query, payload, timestamp } = req;
    match route(method, path.as_str()) {
        Route::Root => Reply { status: STATUS_OK, payload: Payload::Text(banner()) },
        Route::Health => Reply { status: STATUS_OK, payload: Payload::Health(health(timestamp)) },
        Route::Hello => match hello(query.as_str()) {
            Ok(h) => Reply { status: STATUS_OK, payload: Payload::Hello(h) },
            Err(_) => Reply { status: STATUS_BAD_REQUEST, payload: Payload::Error(bad_query()) },
        },
        Route::Echo => match payload {
            Some(p) => Reply { status: STATUS_OK, payload: Payload::Echo(echo(p)) },
            None => Reply { status: STATUS_BAD_REQUEST, payload: Payload::Error(bad_body()) },
        },
        Route::NotFound => Reply { status: STATUS_NOT_FOUND, payload: Payload::Error(not_found()) },
    }
}

} // verus!
