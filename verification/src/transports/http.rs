//! The queueing HTTP transport: where a request goes, by method and path,
//! and what it is answered.
use crate::json::{json_text, Json};
use crate::mcp::server::{initialize, initialize_result};
use crate::text::str_eq;
use vstd::prelude::*;

verus! {

/// Where the queueing transport sends a request.
#[derive(Clone, Copy, Debug, PartialEq, Eq, Structural)]
pub enum Route {
    /// The body is a message to be queued for the server.
    Enqueue,
    /// The capabilities are asked for.
    Capabilities,
    /// Nothing is served here.
    NotFound,
}

/// What became of a body that was posted to be queued.
#[derive(Clone, Copy, Debug, PartialEq, Eq, Structural)]
pub enum Posted {
    /// The body could not be read.
    Unreadable,
    /// The body is no UTF-8 text.
    NotUtf8,
    /// The body is no message of the protocol.
    NotJson,
    /// The body was a message and is now in the queue.
    Queued,
}

/// What the transport answers a request.
#[derive(Debug)]
pub struct Answer {
    /// The HTTP status.
    pub status: u16,
    /// Whether the body is JSON; it is plain text otherwise.
    pub json: bool,
    pub body: String,
}

/// Where a request with the given method and path goes.
pub open spec fn route_of(method: Seq<char>, path: Seq<char>) -> Route {
    if method == "POST"@ && path == "/mcp/tools/call"@ {
        Route::Enqueue
    } else if method == "GET"@ && path == "/mcp/capabilities"@ {
        Route::Capabilities
    } else {
        Route::NotFound
    }
}

/// The body that acknowledges a queued message.
pub const QUEUED: &'static str = "{\"status\": \"queued\"}";

/// The status, the kind of body and the body that answer a request. What
/// became of the posted body matters only where a body is to be queued.
pub open spec fn answer_to(route: Route, posted: Posted) -> (int, bool, Seq<char>) {
    match route {
        Route::Enqueue => match posted {
            Posted::Unreadable => (400, false, "Failed to read body"@),
            Posted::NotUtf8 => (400, false, "Invalid UTF-8"@),
            Posted::NotJson => (400, false, "Invalid JSON"@),
            Posted::Queued => (200, true, QUEUED@),
        },
        Route::Capabilities => (200, true, json_text(initialize_result(None))),
        Route::NotFound => (404, false, "Not Found"@),
    }
}

/// The queueing HTTP transport's decisions.
pub struct HttpTransport;

impl HttpTransport {
    /// Where a request with the given method and path goes.
    pub fn route(method: &str, path: &str) -> (route: Route)
        ensures
            route == route_of(method@, path@),
    {
        if str_eq(method, "POST") && str_eq(path, "/mcp/tools/call") {
            Route::Enqueue
        } else if str_eq(method, "GET") && str_eq(path, "/mcp/capabilities") {
            Route::Capabilities
        } else {
            Route::NotFound
        }
    }

    /// The body that answers a request for the capabilities.
    pub fn capabilities() -> (body: Json)
        ensures
            body@ == initialize_result(None),
    {
        initialize(None)
    }

    /// What a request is answered.
    pub fn answer(route: Route, posted: Posted) -> (answer: Answer)
        ensures
            (answer.status as int, answer.json, answer.body@) == answer_to(route, posted),
    {
        match route {
            Route::Enqueue => match posted {
                Posted::Unreadable => Answer {
                    status: 400,
                    json: false,
                    body: "Failed to read body".to_owned(),
                },
                Posted::NotUtf8 => Answer {
                    status: 400,
                    json: false,
                    body: "Invalid UTF-8".to_owned(),
                },
                Posted::NotJson => Answer {
                    status: 400,
                    json: false,
                    body: "Invalid JSON".to_owned(),
                },
                Posted::Queued => Answer { status: 200, json: true, body: QUEUED.to_owned() },
            },
            Route::Capabilities => Answer {
                status: 200,
                json: true,
                body: Self::capabilities().to_text(),
            },
            Route::NotFound => Answer { status: 404, json: false, body: "Not Found".to_owned() },
        }
    }
}

} // verus!
