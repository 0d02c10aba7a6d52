//! Tokens, errors and response envelopes shared by the transports.
use crate::calendar::{Instant, InstantView};
use crate::json::{Json, JsonView};
use crate::tools::ToolError;
use vstd::prelude::*;

verus! {

/// The identifier of the protocol that every envelope carries.
pub const JSONRPC_VERSION: &'static str = "2.0";

/// What the token table knows of a bearer token.
pub struct TokenInfo {
    pub user_id: String,
    pub scopes: Vec<String>,
    pub expires_at: Instant,
}

impl TokenInfo {
    /// Whether the token has expired at the instant `now`: it has from the
    /// instant of its expiry on.
    pub fn is_expired_at(&self, now: &Instant) -> (expired: bool)
        ensures
            expired == self.expires_at@.not_after(now@),
    {
        self.expires_at.not_after(now)
    }

    /// Whether the token has expired by the system clock's reading.
    pub fn is_expired(&self) -> (expired: bool)
        ensures
            exists|now: InstantView|
                now.representable() && expired == #[trigger] self.expires_at@.not_after(now),
    {
        let now = Instant::now();
        proof {
            use_type_invariant(&now);
        }
        self.is_expired_at(&now)
    }
}

/// The body of a request to the HTTP binding.
pub struct McpRequest {
    pub name: Option<String>,
    pub arguments: Option<Json>,
    pub uri: Option<String>,
}

/// An error with the code under which the protocol reports it.
#[derive(Debug)]
pub struct McpError {
    pub code: i32,
    pub message: String,
}

/// The HTTP status that answers an error of the given code.
pub open spec fn status_for(code: int) -> int {
    if code == 401 {
        401
    } else if code == 400 || code == -32602 {
        400
    } else if code == 404 || code == -32601 {
        404
    } else {
        500
    }
}

/// An error as a JSON object: its code, then its message.
pub open spec fn error_document(code: int, message: Seq<char>) -> JsonView {
    JsonView::Object(seq![("code"@, JsonView::Int(code)), ("message"@, JsonView::Str(message))])
}

impl McpError {
    /// An error with the given code and message.
    pub fn new(code: i32, message: &str) -> (error: McpError)
        ensures
            error.code == code,
            error.message@ == message@,
    {
        McpError { code, message: message.to_owned() }
    }

    /// Missing or invalid parameters: code -32602.
    pub fn invalid_params(message: &str) -> (error: McpError)
        ensures
            error.code == -32602,
            error.message@ == message@,
    {
        McpError::new(-32602, message)
    }

    /// An unknown method or tool: code -32601.
    pub fn method_not_found(message: &str) -> (error: McpError)
        ensures
            error.code == -32601,
            error.message@ == message@,
    {
        McpError::new(-32601, message)
    }

    /// An internal or unclassified failure: code -32603.
    pub fn internal_error(message: &str) -> (error: McpError)
        ensures
            error.code == -32603,
            error.message@ == message@,
    {
        McpError::new(-32603, message)
    }

    /// The HTTP status that answers the error.
    pub fn http_status(&self) -> (status: u16)
        ensures
            status == status_for(self.code as int),
    {
        if self.code == 401 {
            401
        } else if self.code == 400 || self.code == -32602 {
            400
        } else if self.code == 404 || self.code == -32601 {
            404
        } else {
            500
        }
    }

    /// The error as a JSON object.
    pub fn to_json(&self) -> (document: Json)
        ensures
            document@ == error_document(self.code as int, self.message@),
    {
        Json::object2("code", Json::Int(self.code as i64), "message", Json::string(self.message.as_str()))
    }
}

impl From<ToolError> for McpError {
    /// A failure of the engine as an internal error that keeps the
    /// explanation.
    fn from(error: ToolError) -> (converted: McpError) {
        McpError { code: -32603, message: error.message }
    }
}

impl vstd::std_specs::convert::FromSpecImpl<ToolError> for McpError {
    open spec fn obeys_from_spec() -> bool {
        true
    }

    open spec fn from_spec(error: ToolError) -> McpError {
        McpError { code: -32603i32, message: error.message }
    }
}

/// What the functions of the transports return.
pub type McpResult<T> = Result<T, McpError>;

/// A response envelope: the request's identifier with either a result or an
/// error.
pub struct McpResponse<T> {
    pub jsonrpc: String,
    pub id: Json,
    pub result: Option<T>,
    pub error: Option<McpError>,
}

/// The envelope of a successful response.
pub open spec fn success_envelope(id: JsonView, result: JsonView) -> JsonView {
    JsonView::Object(
        seq![("id"@, id), ("jsonrpc"@, JsonView::Str(JSONRPC_VERSION@)), ("result"@, result)],
    )
}

/// The envelope of a failed response.
pub open spec fn error_envelope(id: JsonView, code: int, message: Seq<char>) -> JsonView {
    JsonView::Object(
        seq![
            ("error"@, error_document(code, message)),
            ("id"@, id),
            ("jsonrpc"@, JsonView::Str(JSONRPC_VERSION@)),
        ],
    )
}

impl<T> McpResponse<T> {
    /// Whether the envelope holds a result or an error, and not both.
    pub open spec fn well_formed(&self) -> bool {
        &&& self.jsonrpc@ == JSONRPC_VERSION@
        &&& (self.result is Some) != (self.error is Some)
    }

    /// The envelope that answers the request `id` with `result`.
    pub fn success(id: Json, result: T) -> (response: McpResponse<T>)
        ensures
            response.well_formed(),
            response.id == id,
            response.result == Some(result),
            response.error is None,
    {
        McpResponse { jsonrpc: JSONRPC_VERSION.to_owned(), id, result: Some(result), error: None }
    }

    /// The envelope that answers the request `id` with `error`.
    pub fn error(id: Json, error: McpError) -> (response: McpResponse<()>)
        ensures
            response.well_formed(),
            response.id == id,
            response.result is None,
            response.error == Some(error),
    {
        McpResponse { jsonrpc: JSONRPC_VERSION.to_owned(), id, result: None, error: Some(error) }
    }
}

/// The envelope that carries `result` back to the request `id`.
pub fn success_json(id: Json, result: Json) -> (envelope: Json)
    ensures
        envelope@ == success_envelope(id@, result@),
{
    Json::object3("id", id, "jsonrpc", Json::string(JSONRPC_VERSION), "result", result)
}

/// The envelope that carries an error back to the request `id`.
pub fn error_json(id: Json, error: &McpError) -> (envelope: Json)
    ensures
        envelope@ == error_envelope(id@, error.code as int, error.message@),
{
    Json::object3("error", error.to_json(), "id", id, "jsonrpc", Json::string(JSONRPC_VERSION))
}

/// The envelope that carries neither a result nor an error.
pub open spec fn bare_envelope(id: JsonView) -> JsonView {
    JsonView::Object(seq![("id"@, id), ("jsonrpc"@, JsonView::Str(JSONRPC_VERSION@))])
}

impl McpResponse<Json> {
    /// The envelope as a JSON object: a member that is absent is left out.
    /// Where both are there, the result is what is carried.
    pub fn to_json(&self) -> (envelope: Json)
        ensures
            envelope@ == match (self.result, self.error) {
                (Some(result), _) => success_envelope(self.id@, result@),
                (None, Some(error)) => error_envelope(
                    self.id@,
                    error.code as int,
                    error.message@,
                ),
                (None, None) => bare_envelope(self.id@),
            },
    {
        match &self.result {
            Some(result) => success_json(self.id.clone(), result.clone()),
            None => match &self.error {
                Some(error) => error_json(self.id.clone(), error),
                None => Json::object2("id", self.id.clone(), "jsonrpc", Json::string(JSONRPC_VERSION)),
            },
        }
    }
}

impl McpResponse<()> {
    /// The envelope of a response without a result, as a JSON object.
    pub fn to_json(&self) -> (envelope: Json)
        ensures
            envelope@ == match self.error {
                Some(error) => error_envelope(self.id@, error.code as int, error.message@),
                None => bare_envelope(self.id@),
            },
    {
        match &self.error {
            Some(error) => error_json(self.id.clone(), error),
            None => Json::object2("id", self.id.clone(), "jsonrpc", Json::string(JSONRPC_VERSION)),
        }
    }
}

} // verus!
