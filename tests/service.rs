use fast_server::message::{
    bad_body, banner, echo, greeting, health, not_found, EchoRequest, ErrorBody,
};
use fast_server::query::{lookup, parse_query, QueryError};
use fast_server::router::{route, Method, Route};
use fast_server::service::{handle, hello, hello_from_pairs, Payload, Reply, Request};

fn request(method: Method, path: &str, query: &str, payload: Option<&str>, timestamp: u64) -> Request {
    Request {
        method,
        path: path.to_string(),
        query: query.to_string(),
        payload: payload.map(|m| EchoRequest { message: m.to_string() }),
        timestamp,
    }
}

fn greeted_name(query: &str) -> Option<String> {
    let reply = handle(request(Method::Get, "/hello", query, None, 0));
    assert_eq!(reply.status, 200);
    match reply.payload {
        Payload::Hello(h) => {
            assert_eq!(h.message, "Hello from Rust!");
            h.name
        }
        _ => panic!("expected a greeting"),
    }
}

fn echoed(message: &str) -> Reply {
    handle(request(Method::Post, "/echo", "", Some(message), 0))
}

fn expect_error(reply: Reply, status: u16, error: &str, message: &str) {
    assert_eq!(reply.status, status);
    match reply.payload {
        Payload::Error(ErrorBody { error: e, message: m }) => {
            assert_eq!(e, error);
            assert_eq!(m, message);
        }
        _ => panic!("expected an error body"),
    }
}

#[test]
fn root_gives_banner_text() {
    let reply = handle(request(Method::Get, "/", "", None, 0));
    assert_eq!(reply.status, 200);
    match reply.payload {
        Payload::Text(t) => assert_eq!(t, "🚀 Super Fast Rust Server!"),
        _ => panic!("expected text"),
    }
    assert_eq!(banner(), "🚀 Super Fast Rust Server!");
}

#[test]
fn health_reports_ok_and_current_time() {
    let now = std::time::SystemTime::now()
        .duration_since(std::time::UNIX_EPOCH)
        .unwrap()
        .as_secs();
    let reply = handle(request(Method::Get, "/health", "", None, now));
    assert_eq!(reply.status, 200);
    match reply.payload {
        Payload::Health(h) => {
            assert_eq!(h.status, "OK");
            assert!(h.timestamp >= now && h.timestamp <= now + 5);
        }
        _ => panic!("expected a health report"),
    }
}

#[test]
fn health_keeps_given_timestamp() {
    let h = health(1_700_000_000);
    assert_eq!(h.status, "OK");
    assert_eq!(h.timestamp, 1_700_000_000);
    let h = health(u64::MAX);
    assert_eq!(h.timestamp, u64::MAX);
}

#[test]
fn hello_greets_name_exactly() {
    assert_eq!(greeted_name("name=Alice"), Some("Alice".to_string()));
    assert_eq!(greeted_name("name=Alice%20Smith"), Some("Alice Smith".to_string()));
    assert_eq!(greeted_name("name=+Bob+"), Some(" Bob ".to_string()));
    assert_eq!(greeted_name("name=MiXeD"), Some("MiXeD".to_string()));
    assert_eq!(greeted_name("name=%C3%A9t%C3%A9"), Some("été".to_string()));
    assert_eq!(greeted_name("name=%22quoted%22"), Some("\"quoted\"".to_string()));
}

#[test]
fn hello_accepts_empty_name() {
    assert_eq!(greeted_name("name="), Some(String::new()));
    assert_eq!(greeted_name("name"), Some(String::new()));
}

#[test]
fn hello_without_name_is_anonymous() {
    assert_eq!(greeted_name(""), None);
    assert_eq!(greeted_name("other=1"), None);
    assert_eq!(greeted_name("Name=Alice"), None);
}

#[test]
fn hello_last_name_wins() {
    assert_eq!(greeted_name("name=a&name=b"), Some("b".to_string()));
    assert_eq!(greeted_name("name=a&x=1"), Some("a".to_string()));
}

#[test]
fn hello_from_decoded_pairs() {
    let pairs = vec![
        ("x".to_string(), "1".to_string()),
        ("name".to_string(), "Zoë".to_string()),
    ];
    let h = hello_from_pairs(&pairs);
    assert_eq!(h.message, "Hello from Rust!");
    assert_eq!(h.name, Some("Zoë".to_string()));
    assert_eq!(hello_from_pairs(&Vec::new()).name, None);
    let h = hello("name=Zo%C3%AB").unwrap();
    assert_eq!(h.name, Some("Zoë".to_string()));
}

#[test]
fn query_is_decoded_into_pairs() {
    let pairs = parse_query("a=1&b=%20x&c+d=e%26f").unwrap();
    assert_eq!(
        pairs,
        vec![
            ("a".to_string(), "1".to_string()),
            ("b".to_string(), " x".to_string()),
            ("c d".to_string(), "e&f".to_string()),
        ]
    );
    assert_eq!(parse_query("").unwrap(), Vec::<(String, String)>::new());
    assert_ne!(parse_query("a=1"), Err(QueryError::Undecodable));
}

#[test]
fn lookup_takes_last_value() {
    let pairs = vec![
        ("k".to_string(), "1".to_string()),
        ("j".to_string(), "2".to_string()),
        ("k".to_string(), "3".to_string()),
    ];
    assert_eq!(lookup(&pairs, "k"), Some("3".to_string()));
    assert_eq!(lookup(&pairs, "j"), Some("2".to_string()));
    assert_eq!(lookup(&pairs, "K"), None);
    assert_eq!(lookup(&Vec::new(), "k"), None);
}

#[test]
fn echo_gives_message_back() {
    for message in ["hello", "", "héllo wörld 🚀", "say \"hi\"", "back\\slash\nnewline"] {
        let reply = echoed(message);
        assert_eq!(reply.status, 200);
        match reply.payload {
            Payload::Echo(e) => assert_eq!(e.message, message),
            _ => panic!("expected an echo"),
        }
    }
}

#[test]
fn echo_twice_is_unchanged() {
    let first = match echoed("twice").payload {
        Payload::Echo(e) => e.message,
        _ => panic!("expected an echo"),
    };
    let second = match echoed(&first).payload {
        Payload::Echo(e) => e.message,
        _ => panic!("expected an echo"),
    };
    assert_eq!(second, "twice");
    assert_eq!(echo(EchoRequest { message: "x".to_string() }).message, "x");
}

#[test]
fn echo_without_payload_is_bad_request() {
    let reply = handle(request(Method::Post, "/echo", "", None, 0));
    assert!(reply.status >= 400 && reply.status < 500);
    expect_error(
        reply,
        400,
        "Bad request",
        "The body must be a JSON object with a string field named message",
    );
    let b = bad_body();
    assert_eq!(b.error, "Bad request");
}

#[test]
fn unknown_path_is_not_found() {
    expect_error(
        handle(request(Method::Get, "/nonexistent-path", "", None, 0)),
        404,
        "Not found",
        "The requested resource was not found",
    );
    let n = not_found();
    assert_eq!(n.error, "Not found");
    assert_eq!(n.message, "The requested resource was not found");
}

#[test]
fn wrong_method_or_near_path_is_not_found() {
    let cases = [
        (Method::Post, "/"),
        (Method::Get, "/echo"),
        (Method::Post, "/health"),
        (Method::Other, "/hello"),
        (Method::Get, "/health/"),
        (Method::Get, "/HELLO"),
        (Method::Get, ""),
        (Method::Post, "/echo/x"),
    ];
    for (method, path) in cases {
        expect_error(
            handle(request(method, path, "", Some("m"), 0)),
            404,
            "Not found",
            "The requested resource was not found",
        );
    }
}

#[test]
fn routes_by_method_and_path() {
    assert_eq!(route(Method::Get, "/"), Route::Root);
    assert_eq!(route(Method::Get, "/health"), Route::Health);
    assert_eq!(route(Method::Get, "/hello"), Route::Hello);
    assert_eq!(route(Method::Post, "/echo"), Route::Echo);
    assert_eq!(route(Method::Post, "/hello"), Route::NotFound);
    assert_eq!(route(Method::Other, "/"), Route::NotFound);
}

#[test]
fn method_names_are_exact() {
    assert_eq!(Method::from_name("GET"), Method::Get);
    assert_eq!(Method::from_name("POST"), Method::Post);
    assert_eq!(Method::from_name("get"), Method::Other);
    assert_eq!(Method::from_name("PUT"), Method::Other);
    assert_eq!(Method::from_name(""), Method::Other);
}

#[test]
fn greeting_keeps_name() {
    assert_eq!(greeting(Some("n".to_string())).name, Some("n".to_string()));
    assert_eq!(greeting(None).name, None);
}

#[test]
fn interleaved_requests_do_not_interfere() {
    let a = echoed("first");
    let b = handle(request(Method::Get, "/hello", "name=second", None, 0));
    let c = echoed("third");
    let d = handle(request(Method::Get, "/hello", "", None, 0));
    match (a.payload, b.payload, c.payload, d.payload) {
        (Payload::Echo(a), Payload::Hello(b), Payload::Echo(c), Payload::Hello(d)) => {
            assert_eq!(a.message, "first");
            assert_eq!(b.name, Some("second".to_string()));
            assert_eq!(c.message, "third");
            assert_eq!(d.name, None);
        }
        _ => panic!("unexpected reply kinds"),
    }
}
