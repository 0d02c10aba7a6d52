//! The line-oriented binding: one decoded message in, at most one response
//! out.
use crate::calendar::{Instant, InstantView};
use crate::handlers::mcp::{envelope, McpHandlers};
use crate::json::{json_reading, optional_view, Json, JsonView, NESTING_LIMIT};
use crate::mcp::messages::{decoded, params_of, Decoded, JsonRpcError};
use crate::mcp::server::{dispatch_at, method_outcome};
use crate::models::error_envelope;
use crate::time_tools::TimeToolsHandler;
use crate::tools::text_or;
use vstd::prelude::*;
use vstd::string::*;

verus! {

/// The line-oriented binding.
pub struct StdioHandler;

/// The identifier to answer to: the member `id`, or zero where there is none.
pub open spec fn id_or_zero(request: JsonView) -> JsonView {
    match request.member("id"@) {
        Some(id) => id,
        None => JsonView::Int(0),
    }
}

/// The response to a request as if the clock read `now`. A request that
/// names no method is answered as one that names an unknown method.
pub open spec fn request_response(request: JsonView, now: InstantView) -> JsonView {
    envelope(
        id_or_zero(request),
        method_outcome(
            text_or(request.str_member("method"@), Seq::empty()),
            params_of(request),
            now,
        ),
    )
}

/// The response that a decoded message is owed, as if the clock read `now`.
/// A request is answered with its outcome; a document that has an identifier
/// but names no method, as an invalid request; a notification is never
/// answered, whatever method it names.
pub open spec fn response_to(message: JsonView, now: InstantView) -> Option<JsonView> {
    match decoded(message) {
        Decoded::Request { id, method, params } => Some(
            envelope(id, method_outcome(method, params, now)),
        ),
        Decoded::Invalid { id } => Some(error_envelope(id, -32600, "Invalid Request"@)),
        Decoded::Notification { .. } => None,
        Decoded::Unanswerable => None,
    }
}

/// A message without an identifier is never answered, whatever method it
/// names; one with an identifier always is.
pub proof fn lemma_answered_iff_identified(message: JsonView, now: InstantView)
    ensures
        response_to(message, now) is Some <==> message.member("id"@) is Some,
{
}

/// The parameters of a message: the member `params`, unless it is `null`.
fn params(message: &Json) -> (found: Option<&Json>)
    ensures
        match found {
            Some(bag) => params_of(message@) == Some(bag@),
            None => params_of(message@) is None,
        },
{
    match message.get("params") {
        Some(Json::Null) => None,
        Some(bag) => Some(bag),
        None => None,
    }
}

/// Whether `std`'s `char::is_whitespace` holds of a character.
pub uninterp spec fn white_space(c: char) -> bool;

/// Whether a line holds nothing but white space.
pub open spec fn blank(line: Seq<char>) -> bool {
    forall|i: int| 0 <= i < line.len() ==> white_space(#[trigger] line[i])
}

/// `char::is_whitespace`: whether the character has Unicode's property
/// `White_Space`.
#[verifier::external_body]
fn is_white_space(c: char) -> (yes: bool)
    ensures
        yes == white_space(c),
{
    c.is_whitespace()
}

impl StdioHandler {
    /// Whether a line holds nothing but white space. Such a line carries no
    /// message and is passed over.
    pub fn is_blank(line: &str) -> (yes: bool)
        ensures
            yes == blank(line@),
    {
        let length = line.unicode_len();
        let mut i: usize = 0;
        while i < length
            invariant
                length == line@.len(),
                i <= length,
                forall|j: int| 0 <= j < i ==> white_space(#[trigger] line@[j]),
            decreases length - i,
        {
            if !is_white_space(line.get_char(i)) {
                return false;
            }
            i += 1;
        }
        true
    }

    /// Answers a request as if the clock read `now`.
    pub fn handle_request_at(request: &Json, now: &Instant) -> (response: Json)
        ensures
            response@ == request_response(request@, now@),
    {
        proof {
            reveal_strlit("");
            assert(""@ =~= Seq::<char>::empty());
        }
        let method = match request.get_str("method") {
            Some(method) => method,
            None => "",
        };
        let id = match request.get("id") {
            Some(id) => id.clone(),
            None => Json::Int(0),
        };
        McpHandlers::respond(id, dispatch_at(&TimeToolsHandler::new(), method, params(request), now))
    }

    /// Answers a request. The clock is read once.
    pub fn handle_request(request: &Json) -> (response: Json)
        ensures
            exists|now: InstantView|
                now.representable() && response@ == #[trigger] request_response(request@, now),
    {
        let now = Instant::now();
        proof {
            use_type_invariant(&now);
        }
        Self::handle_request_at(request, &now)
    }

    /// The response that a decoded message is owed, as if the clock read
    /// `now`.
    pub fn respond_at(message: &Json, now: &Instant) -> (response: Option<Json>)
        ensures
            optional_view(response) == response_to(message@, now@),
    {
        let id = match message.get("id") {
            Some(id) => id,
            None => {
                return None;
            },
        };
        match message.get_str("method") {
            Some(method) => Some(
                McpHandlers::respond(
                    id.clone(),
                    dispatch_at(&TimeToolsHandler::new(), method, params(message), now),
                ),
            ),
            None => Some(
                McpHandlers::respond(id.clone(), Err(JsonRpcError::invalid_request())),
            ),
        }
    }

    /// The response that a decoded message is owed. The clock is read once.
    pub fn respond(message: &Json) -> (response: Option<Json>)
        ensures
            exists|now: InstantView|
                now.representable() && optional_view(response) == #[trigger] response_to(
                    message@,
                    now,
                ),
    {
        let now = Instant::now();
        proof {
            use_type_invariant(&now);
        }
        Self::respond_at(message, &now)
    }

    /// The line that answers a decoded message, if it is owed one: the
    /// response as compact JSON text. The clock is read once.
    pub fn respond_line(message: &Json) -> (line: Option<String>)
        ensures
            exists|now: InstantView|
                now.representable() && line_view(line) == #[trigger] response_line(message@, now),
    {
        let now = Instant::now();
        proof {
            use_type_invariant(&now);
        }
        let line = match Self::respond_at(message, &now) {
            Some(response) => Some(response.to_text()),
            None => None,
        };
        assert(line_view(line) == response_line(message@, now@));
        line
    }
}

/// What becomes of a line that the transport read.
#[derive(Debug, PartialEq, Eq)]
pub enum Line {
    /// The line holds nothing but white space and is passed over.
    Blank,
    /// The line is no JSON document: it is passed over, and worth a note in
    /// the log.
    Malformed,
    /// The line holds a message that is owed no response.
    Silent,
    /// The line holds a message that is answered with this line.
    Reply(String),
}

/// What becomes of a line, as a mathematical value.
pub enum LineView {
    Blank,
    Malformed,
    Silent,
    Reply(Seq<char>),
}

impl View for Line {
    type V = LineView;

    open spec fn view(&self) -> LineView {
        match self {
            Line::Blank => LineView::Blank,
            Line::Malformed => LineView::Malformed,
            Line::Silent => LineView::Silent,
            Line::Reply(text) => LineView::Reply(text@),
        }
    }
}

/// What becomes of a line as if the clock read `now`. A line that cannot be
/// decoded is never answered, and neither is one that holds a notification.
pub open spec fn line_outcome(line: Seq<char>, now: InstantView) -> LineView {
    if blank(line) {
        LineView::Blank
    } else {
        match json_reading(line, NESTING_LIMIT as nat) {
            None => LineView::Malformed,
            Some(message) => match response_line(message, now) {
                Some(text) => LineView::Reply(text),
                None => LineView::Silent,
            },
        }
    }
}

impl StdioHandler {
    /// Deals with one line as if the clock read `now`: decodes it, and
    /// answers the message that it holds.
    pub fn handle_line_at(line: &str, now: &Instant) -> (outcome: Line)
        ensures
            outcome@ == line_outcome(line@, now@),
    {
        if Self::is_blank(line) {
            return Line::Blank;
        }
        let message = match Json::parse(line) {
            Some(message) => message,
            None => {
                return Line::Malformed;
            },
        };
        match Self::respond_at(&message, now) {
            Some(response) => Line::Reply(response.to_text()),
            None => Line::Silent,
        }
    }

    /// Deals with one line. The clock is read once.
    pub fn handle_line(line: &str) -> (outcome: Line)
        ensures
            exists|now: InstantView|
                now.representable() && outcome@ == #[trigger] line_outcome(line@, now),
    {
        let now = Instant::now();
        proof {
            use_type_invariant(&now);
        }
        Self::handle_line_at(line, &now)
    }
}

/// The characters of an optional line.
pub open spec fn line_view(line: Option<String>) -> Option<Seq<char>> {
    match line {
        Some(text) => Some(text@),
        None => None,
    }
}

/// The line that answers a decoded message, as if the clock read `now`.
pub open spec fn response_line(message: JsonView, now: InstantView) -> Option<Seq<char>> {
    match response_to(message, now) {
        Some(response) => Some(crate::json::json_text(response)),
        None => None,
    }
}

} // verus!
