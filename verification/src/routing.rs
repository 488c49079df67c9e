//! The router: a pure map from a request path to a fully determined response.

use vstd::prelude::*;
use vstd::string::*;
use crate::clock;
use crate::json;
use crate::responses;

verus! {

broadcast use vstd::string::group_string_axioms;

/// The routes the service defines, plus the fallback for everything else.
#[derive(Clone, Copy, Debug, PartialEq, Eq, Structural)]
pub enum Route {
    Root,
    HealthCheck,
    UserList,
    NotFound,
}

/// Which route a request path selects.
pub open spec fn route_of(path: Seq<char>) -> Route {
    if path == "/"@ {
        Route::Root
    } else if path == "/health"@ {
        Route::HealthCheck
    } else if path == "/api/users"@ {
        Route::UserList
    } else {
        Route::NotFound
    }
}

/// The status code of each route: every defined route answers 200, anything
/// else gets the not-found fallback.
pub open spec fn status_of(route: Route) -> u16 {
    match route {
        Route::Root => 200,
        Route::HealthCheck => 200,
        Route::UserList => 200,
        Route::NotFound => 404,
    }
}

/// The JSON body of each route, given the timestamp the health route embeds.
/// The fallback has an empty body.
pub open spec fn body_of(route: Route, timestamp: Seq<char>) -> Seq<char> {
    match route {
        Route::Root => json::message_body(crate::spec_greeting()),
        Route::HealthCheck => json::health_body("healthy"@, timestamp),
        Route::UserList => json::users_body(),
        Route::NotFound => Seq::empty(),
    }
}

/// A response as the service surface defines it: a status code, a JSON body,
/// and the three permissive cross-origin headers every response carries.
pub struct Response {
    pub status: u16,
    pub body: String,
    pub allow_origin: String,
    pub allow_methods: String,
    pub allow_headers: String,
}

/// Character-for-character string comparison.
pub fn str_eq(a: &str, b: &str) -> (r: bool)
    ensures
        r == (a@ == b@),
{
    let a_len = a.unicode_len();
    let b_len = b.unicode_len();
    if a_len != b_len {
        return false;
    }
    let mut i: usize = 0;
    while i < a_len
        invariant
            a_len == a@.len(),
            b_len == b@.len(),
            a_len == b_len,
            i <= a_len,
            forall|j: int| 0 <= j < i ==> a@[j] == b@[j],
        decreases a_len - i,
    {
        if a.get_char(i) != b.get_char(i) {
            return false;
        }
        i = i + 1;
    }
    proof {
        assert(a@ =~= b@);
    }
    true
}

/// Matches a request path against the defined routes.
pub fn match_route(path: &str) -> (r: Route)
    ensures
        r == route_of(path@),
{
    if str_eq(path, "/") {
        Route::Root
    } else if str_eq(path, "/health") {
        Route::HealthCheck
    } else if str_eq(path, "/api/users") {
        Route::UserList
    } else {
        Route::NotFound
    }
}

/// Builds the response for a request path, given the timestamp to embed in
/// the health body. The whole response is determined by the two arguments:
/// the status by the route, the body by the route and the timestamp, and the
/// cross-origin headers are permissive on every response.
pub fn respond(path: &str, timestamp: &str) -> (r: Response)
    ensures
        r.status == status_of(route_of(path@)),
        r.body@ == body_of(route_of(path@), timestamp@),
        r.allow_origin@ == "*"@,
        r.allow_methods@ == "*"@,
        r.allow_headers@ == "*"@,
{
    let route = match_route(path);
    let status: u16 = match route {
        Route::Root => 200,
        Route::HealthCheck => 200,
        Route::UserList => 200,
        Route::NotFound => 404,
    };
    let body: String = match route {
        Route::Root => json::message_json(&responses::root()),
        Route::HealthCheck => {
            let h = responses::health_with_timestamp(String::from_str(timestamp));
            json::health_json(&h)
        },
        Route::UserList => json::users_json(&responses::get_users()),
        Route::NotFound => String::new(),
    };
    Response {
        status,
        body,
        allow_origin: String::from_str("*"),
        allow_methods: String::from_str("*"),
        allow_headers: String::from_str("*"),
    }
}

/// Builds the response for a request path, reading the wall clock for the
/// health route's timestamp. The status and the headers are determined by
/// the path alone; the body is the one `respond` gives for some timestamp of
/// the clock's shape.
pub fn handle(path: &str) -> (r: Response)
    ensures
        r.status == status_of(route_of(path@)),
        r.allow_origin@ == "*"@,
        r.allow_methods@ == "*"@,
        r.allow_headers@ == "*"@,
        exists|ts: Seq<char>|
            clock::rfc3339_shaped(ts) && r.body@ == #[trigger] body_of(route_of(path@), ts),
{
    let now = clock::now_rfc3339();
    let r = respond(path, now.as_str());
    proof {
        assert(clock::rfc3339_shaped(now@) && r.body@ == body_of(route_of(path@), now@));
    }
    r
}

/// Law: the root route answers 200, and its body is exactly the greeting
/// object, whatever the timestamp.
pub proof fn lemma_root_route(ts: Seq<char>)
    ensures
        status_of(route_of("/"@)) == 200,
        body_of(route_of("/"@), ts) == "{\"message\":\"Axum skeleton API is running!\"}"@,
{
    reveal_strlit("Axum skeleton API is running!");
    reveal_strlit("{\"message\":\"");
    reveal_strlit("\"}");
    reveal_strlit("{\"message\":\"Axum skeleton API is running!\"}");
    assert forall|i: int| 0 <= i < crate::spec_greeting().len() implies json::unescaped_char(
        #[trigger] crate::spec_greeting()[i],
    ) by {}
    json::lemma_escape_identity(crate::spec_greeting());
    assert(body_of(route_of("/"@), ts) =~= "{\"message\":\"Axum skeleton API is running!\"}"@);
}

/// Law: the health route answers 200 and, for any timestamp of the clock's
/// shape, its body is exactly the health object with the non-empty timestamp
/// embedded verbatim.
pub proof fn lemma_health_route(ts: Seq<char>)
    requires
        clock::rfc3339_shaped(ts),
    ensures
        status_of(route_of("/health"@)) == 200,
        body_of(route_of("/health"@), ts) == "{\"status\":\"healthy\",\"timestamp\":\""@ + ts
            + "\"}"@,
        ts.len() > 0,
{
    reveal_strlit("/");
    reveal_strlit("/health");
    reveal_strlit("healthy");
    reveal_strlit("{\"status\":\"");
    reveal_strlit("\",\"timestamp\":\"");
    reveal_strlit("\"}");
    reveal_strlit("{\"status\":\"healthy\",\"timestamp\":\"");
    assert("/"@.len() == 1);
    assert("/health"@.len() == 7);
    assert("/health"@ != "/"@);
    assert(route_of("/health"@) == Route::HealthCheck);
    assert forall|i: int| 0 <= i < "healthy"@.len() implies json::unescaped_char(
        #[trigger] "healthy"@[i],
    ) by {}
    json::lemma_escape_identity("healthy"@);
    assert forall|i: int| 0 <= i < ts.len() implies json::unescaped_char(#[trigger] ts[i]) by {
        assert(clock::rfc3339_char(ts[i]));
    }
    json::lemma_escape_identity(ts);
    assert(body_of(route_of("/health"@), ts) =~= "{\"status\":\"healthy\",\"timestamp\":\""@ + ts
        + "\"}"@);
}

/// Law: the user-listing route answers 200 with the empty listing as its
/// body, independent of the timestamp and so of how often it is asked.
pub proof fn lemma_users_route(ts1: Seq<char>, ts2: Seq<char>)
    ensures
        status_of(route_of("/api/users"@)) == 200,
        body_of(route_of("/api/users"@), ts1) == "{\"users\":[]}"@,
        body_of(route_of("/api/users"@), ts1) == body_of(route_of("/api/users"@), ts2),
{
    reveal_strlit("/");
    reveal_strlit("/health");
    reveal_strlit("/api/users");
    assert("/"@.len() == 1);
    assert("/health"@.len() == 7);
    assert("/api/users"@.len() == 10);
    assert(route_of("/api/users"@) == Route::UserList);
}

/// Law: a path that selects no defined route answers 404.
pub proof fn lemma_unknown_route(path: Seq<char>, ts: Seq<char>)
    requires
        path != "/"@,
        path != "/health"@,
        path != "/api/users"@,
    ensures
        status_of(route_of(path)) == 404,
        body_of(route_of(path), ts) == Seq::<char>::empty(),
{
}

} // verus!

