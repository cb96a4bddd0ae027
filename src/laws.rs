//! What holds of every request: the service's behaviour stated over `reply_to`,
//! which `handle` meets.
use vstd::prelude::*;

use crate::message::{
    bad_body_text, bad_request_title, banner_text, greeting_text, healthy_text, not_found_text,
    not_found_title,
};
use crate::query::{decoded_pairs, last_value};
use crate::router::Method;
use crate::service::{
    name_key, reply_to, PayloadView, ReplyView, RequestView, STATUS_BAD_REQUEST, STATUS_NOT_FOUND,
    STATUS_OK,
};

verus! {

/// The last pair with a key is the one whose value counts.
pub proof fn last_value_is_last_match(
    pairs: Seq<(Seq<char>, Seq<char>)>,
    key: Seq<char>,
    i: int,
)
    requires
        0 <= i < pairs.len(),
        pairs[i].0 == key,
        forall|j: int| i < j < pairs.len() ==> pairs[j].0 != key,
    ensures
        last_value(pairs, key) == Some(pairs[i].1),
    decreases pairs.len(),
{
    if i < pairs.len() - 1 {
        let rest = pairs.drop_last();
        assert forall|j: int| i < j < rest.len() implies rest[j].0 != key by {
            assert(rest[j] == pairs[j]);
        }
        last_value_is_last_match(rest, key, i);
    }
}

/// A key that no pair has has no value.
pub proof fn last_value_of_absent_key(pairs: Seq<(Seq<char>, Seq<char>)>, key: Seq<char>)
    requires
        forall|j: int| 0 <= j < pairs.len() ==> pairs[j].0 != key,
    ensures
        last_value(pairs, key) is None,
    decreases pairs.len(),
{
    if pairs.len() > 0 {
        let rest = pairs.drop_last();
        assert forall|j: int| 0 <= j < rest.len() implies rest[j].0 != key by {
            assert(rest[j] == pairs[j]);
        }
        last_value_of_absent_key(rest, key);
    }
}

/// `GET /` answers with the banner.
pub proof fn root_gives_banner(req: RequestView)
    requires
        req.method == Method::Get,
        req.path == "/"@,
    ensures
        reply_to(req) == (ReplyView { status: STATUS_OK, payload: PayloadView::Text(banner_text()) }),
{
}

/// `GET /health` answers with status OK and the time at which the request was
/// handled.
pub proof fn health_reports_ok(req: RequestView)
    requires
        req.method == Method::Get,
        req.path == "/health"@,
    ensures
        reply_to(req) == (ReplyView {
            status: STATUS_OK,
            payload: PayloadView::Health { status: healthy_text(), timestamp: req.timestamp },
        }),
{
    reveal_strlit("/");
    reveal_strlit("/health");
    assert("/health"@ != "/"@) by {
        assert("/health"@.len() != "/"@.len());
    }
}

/// `GET /hello` with a `name` in its query greets that name exactly as it was
/// decoded, the last one where the query gives several.
pub proof fn hello_greets_given_name(
    req: RequestView,
    pairs: Seq<(Seq<char>, Seq<char>)>,
    i: int,
)
    requires
        req.method == Method::Get,
        req.path == "/hello"@,
        decoded_pairs(req.query) == Some(pairs),
        0 <= i < pairs.len(),
        pairs[i].0 == name_key(),
        forall|j: int| i < j < pairs.len() ==> pairs[j].0 != name_key(),
    ensures
        reply_to(req) == (ReplyView {
            status: STATUS_OK,
            payload: PayloadView::Hello { message: greeting_text(), name: Some(pairs[i].1) },
        }),
{
    hello_route(req);
    last_value_is_last_match(pairs, name_key(), i);
}

/// `GET /hello` whose query has no `name` gives a greeting without a name.
pub proof fn hello_without_name_is_anonymous(req: RequestView, pairs: Seq<(Seq<char>, Seq<char>)>)
    requires
        req.method == Method::Get,
        req.path == "/hello"@,
        decoded_pairs(req.query) == Some(pairs),
        forall|j: int| 0 <= j < pairs.len() ==> pairs[j].0 != name_key(),
    ensures
        reply_to(req) == (ReplyView {
            status: STATUS_OK,
            payload: PayloadView::Hello { message: greeting_text(), name: None },
        }),
{
    hello_route(req);
    last_value_of_absent_key(pairs, name_key());
}

proof fn hello_route(req: RequestView)
    requires
        req.path == "/hello"@,
    ensures
        req.path != "/"@,
        req.path != "/health"@,
{
    reveal_strlit("/");
    reveal_strlit("/health");
    reveal_strlit("/hello");
    assert("/hello"@ != "/"@) by {
        assert("/hello"@.len() != "/"@.len());
    }
    assert("/hello"@ != "/health"@) by {
        assert("/hello"@[3] != "/health"@[3]);
    }
}

/// `POST /echo` with a payload gives it back unchanged, so that echoing the
/// reply once more gives the same reply again.
pub proof fn echo_gives_payload_back(first: RequestView, second: RequestView, message: Seq<char>)
    requires
        first.method == Method::Post,
        first.path == "/echo"@,
        first.payload == Some(message),
        second.method == Method::Post,
        second.path == "/echo"@,
        reply_to(first).payload matches PayloadView::Echo { message: m } && second.payload == Some(
            m,
        ),
    ensures
        reply_to(first) == (ReplyView { status: STATUS_OK, payload: PayloadView::Echo { message } }),
        reply_to(second) == reply_to(first),
{
}

/// `POST /echo` whose body is missing or is no echo payload gets a client error.
pub proof fn echo_without_payload_is_client_error(req: RequestView)
    requires
        req.method == Method::Post,
        req.path == "/echo"@,
        req.payload is None,
    ensures
        400 <= reply_to(req).status < 500,
        reply_to(req) == (ReplyView {
            status: STATUS_BAD_REQUEST,
            payload: PayloadView::Error { error: bad_request_title(), message: bad_body_text() },
        }),
{
}

/// A request that matches no route, by method or by path, gets the not-found
/// reply.
pub proof fn unrouted_is_not_found(req: RequestView)
    requires
        !(req.method == Method::Get && (req.path == "/"@ || req.path == "/health"@ || req.path
            == "/hello"@)),
        !(req.method == Method::Post && req.path == "/echo"@),
    ensures
        reply_to(req) == (ReplyView {
            status: STATUS_NOT_FOUND,
            payload: PayloadView::Error { error: not_found_title(), message: not_found_text() },
        }),
{
}

} // verus!
