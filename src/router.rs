//! Which handler a request reaches, and the reply that it gets.
use vstd::prelude::*;

verus! {

/// The request methods that the routes tell apart.
#[derive(Debug, PartialEq, Eq, Structural, Clone, Copy)]
pub enum Method {
    Get,
    Post,
    /// Any method that no route answers to.
    Other,
}

/// The method that a method name stands for; names are case-sensitive.
pub open spec fn method_named(name: Seq<char>) -> Method {
    if name == "GET"@ {
        Method::Get
    } else if name == "POST"@ {
        Method::Post
    } else {
        Method::Other
    }
}

/// Whether two strings hold the same characters.
fn same_text(a: &str, b: &str) -> (r: bool)
    ensures
        r == (a@ == b@),
{
    a.to_owned() == b.to_owned()
}

impl Method {
    /// The method called `name` ("GET", "POST", ...).
    pub fn from_name(name: &str) -> (r: Method)
        ensures
            r == method_named(name@),
    {
        if same_text(name, "GET") {
            Method::Get
        } else if same_text(name, "POST") {
            Method::Post
        } else {
            Method::Other
        }
    }
}

/// The handlers, one per route, and the fallback.
#[derive(Debug, PartialEq, Eq, Structural, Clone, Copy)]
pub enum Route {
    Root,
    Health,
    Hello,
    Echo,
    NotFound,
}

/// The route table: a path must match exactly, and with the method given there.
pub open spec fn route_of(method: Method, path: Seq<char>) -> Route {
    if method == Method::Get && path == "/"@ {
        Route::Root
    } else if method == Method::Get && path == "/health"@ {
        Route::Health
    } else if method == Method::Get && path == "/hello"@ {
        Route::Hello
    } else if method == Method::Post && path == "/echo"@ {
        Route::Echo
    } else {
        Route::NotFound
    }
}

/// The route that a request with `method` and `path` takes.
pub fn route(method: Method, path: &str) -> (r: Route)
    ensures
        r == route_of(method, path@),
{
    match method {
        Method::Get => {
            if same_text(path, "/") {
                Route::Root
            } else if same_text(path, "/health") {
                Route::Health
            } else if same_text(path, "/hello") {
                Route::Hello
            } else {
                Route::NotFound
            }
        },
        Method::Post => {
            if same_text(path, "/echo") {
                Route::Echo
            } else {
                Route::NotFound
            }
        },
        Method::Other => Route::NotFound,
    }
}

} // verus!
