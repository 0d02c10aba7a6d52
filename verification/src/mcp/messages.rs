//! The messages of the protocol and the error codes it reports.
use crate::json::{optional_view, Json, JsonView};
use crate::models::{error_document, JSONRPC_VERSION};
use vstd::prelude::*;

verus! {

/// Any message of the protocol. Every message is tagged with the protocol's
/// identifier.
#[derive(Debug)]
pub enum Message {
    JsonRpc(JsonRpcMessage),
}

/// A message by its role.
#[derive(Debug)]
pub enum JsonRpcMessage {
    Request(Request),
    Response(Response),
    Notification(Notification),
}

/// A call that expects an answer. The identifier is handed back as it came.
#[derive(Debug)]
pub struct Request {
    pub id: Json,
    pub method: String,
    pub params: Option<Json>,
}

/// The answer to a request: its identifier with a result or an error.
#[derive(Debug)]
pub struct Response {
    pub id: Json,
    pub result: Option<Json>,
    pub error: Option<JsonRpcError>,
}

/// A message that expects no answer.
#[derive(Debug)]
pub struct Notification {
    pub method: String,
    pub params: Option<Json>,
}

/// An error as the protocol reports it.
#[derive(Debug)]
pub struct JsonRpcError {
    pub code: i32,
    pub message: String,
    pub data: Option<Json>,
}

/// An error as a mathematical value.
pub struct RpcErrorView {
    pub code: int,
    pub message: Seq<char>,
}

impl JsonRpcError {
    /// Whether this is the error of the given code and message, without data.
    pub open spec fn is(&self, code: int, message: Seq<char>) -> bool {
        &&& self.code == code
        &&& self.message@ == message
        &&& self.data is None
    }

    /// The error of the given code and message, without data.
    pub fn new(code: i32, message: &str) -> (error: JsonRpcError)
        ensures
            error.is(code as int, message@),
    {
        JsonRpcError { code, message: message.to_owned(), data: None }
    }

    /// Input that cannot be decoded as a message.
    pub fn parse_error() -> (error: JsonRpcError)
        ensures
            error.is(-32700, "Parse error"@),
    {
        JsonRpcError::new(-32700, "Parse error")
    }

    /// A message that is no valid request.
    pub fn invalid_request() -> (error: JsonRpcError)
        ensures
            error.is(-32600, "Invalid Request"@),
    {
        JsonRpcError::new(-32600, "Invalid Request")
    }

    /// A method that the server does not know.
    pub fn method_not_found() -> (error: JsonRpcError)
        ensures
            error.is(-32601, "Method not found"@),
    {
        JsonRpcError::new(-32601, "Method not found")
    }

    /// Parameters that are missing or invalid.
    pub fn invalid_params() -> (error: JsonRpcError)
        ensures
            error.is(-32602, "Invalid params"@),
    {
        JsonRpcError::new(-32602, "Invalid params")
    }

    /// A failure inside the server.
    pub fn internal_error() -> (error: JsonRpcError)
        ensures
            error.is(-32603, "Internal error"@),
    {
        JsonRpcError::new(-32603, "Internal error")
    }

    /// A time zone that the registry does not hold.
    pub fn invalid_timezone() -> (error: JsonRpcError)
        ensures
            error.is(-32000, "Invalid timezone"@),
    {
        JsonRpcError::new(-32000, "Invalid timezone")
    }

    /// A timestamp in no known format.
    pub fn invalid_timestamp() -> (error: JsonRpcError)
        ensures
            error.is(-32001, "Invalid timestamp format"@),
    {
        JsonRpcError::new(-32001, "Invalid timestamp format")
    }

    /// A conversion between time zones that failed.
    pub fn timezone_conversion_error() -> (error: JsonRpcError)
        ensures
            error.is(-32002, "Timezone conversion error"@),
    {
        JsonRpcError::new(-32002, "Timezone conversion error")
    }

    /// The error as a JSON object: code, data where there is any, message.
    pub open spec fn document(&self) -> JsonView {
        match self.data {
            Some(data) => JsonView::Object(
                seq![
                    ("code"@, JsonView::Int(self.code as int)),
                    ("data"@, data@),
                    ("message"@, JsonView::Str(self.message@)),
                ],
            ),
            None => error_document(self.code as int, self.message@),
        }
    }

    /// The error as a JSON object.
    pub fn to_json(&self) -> (document: Json)
        ensures
            document@ == self.document(),
    {
        match &self.data {
            Some(data) => Json::object3(
                "code",
                Json::Int(self.code as i64),
                "data",
                data.clone(),
                "message",
                Json::string(self.message.as_str()),
            ),
            None => Json::object2(
                "code",
                Json::Int(self.code as i64),
                "message",
                Json::string(self.message.as_str()),
            ),
        }
    }
}

impl Response {
    /// Whether the response holds a result or an error, and not both.
    pub open spec fn well_formed(&self) -> bool {
        (self.result is Some) != (self.error is Some)
    }

    /// The response that carries `result` back to the request `id`.
    pub fn success(id: Json, result: Json) -> (response: Response)
        ensures
            response.well_formed(),
            response.id == id,
            response.result == Some(result),
    {
        Response { id, result: Some(result), error: None }
    }

    /// The response that carries `error` back to the request `id`.
    pub fn failure(id: Json, error: JsonRpcError) -> (response: Response)
        ensures
            response.well_formed(),
            response.id == id,
            response.error == Some(error),
    {
        Response { id, result: None, error: Some(error) }
    }

    /// The response on the wire: the identifier, the protocol's tag, and the
    /// one of result and error that is there.
    pub open spec fn document(&self) -> JsonView {
        match (self.result, self.error) {
            (Some(result), _) => JsonView::Object(
                seq![
                    ("id"@, self.id@),
                    ("jsonrpc"@, JsonView::Str(JSONRPC_VERSION@)),
                    ("result"@, result@),
                ],
            ),
            (None, Some(error)) => JsonView::Object(
                seq![
                    ("error"@, error.document()),
                    ("id"@, self.id@),
                    ("jsonrpc"@, JsonView::Str(JSONRPC_VERSION@)),
                ],
            ),
            (None, None) => JsonView::Object(
                seq![("id"@, self.id@), ("jsonrpc"@, JsonView::Str(JSONRPC_VERSION@))],
            ),
        }
    }

    /// The response on the wire.
    pub fn to_json(&self) -> (document: Json)
        ensures
            document@ == self.document(),
    {
        match &self.result {
            Some(result) => Json::object3(
                "id",
                self.id.clone(),
                "jsonrpc",
                Json::string(JSONRPC_VERSION),
                "result",
                result.clone(),
            ),
            None => match &self.error {
                Some(error) => Json::object3(
                    "error",
                    error.to_json(),
                    "id",
                    self.id.clone(),
                    "jsonrpc",
                    Json::string(JSONRPC_VERSION),
                ),
                None => Json::object2(
                    "id",
                    self.id.clone(),
                    "jsonrpc",
                    Json::string(JSONRPC_VERSION),
                ),
            },
        }
    }
}

/// What a decoded JSON document is as a message of the protocol.
pub enum Decoded {
    /// A request: it has an identifier and names a method.
    Request { id: JsonView, method: Seq<char>, params: Option<JsonView> },
    /// A notification: it names a method and has no identifier.
    Notification { method: Seq<char>, params: Option<JsonView> },
    /// No valid request, though it has an identifier to answer to.
    Invalid { id: JsonView },
    /// Nothing that can be answered.
    Unanswerable,
}

/// The parameters of a message: the member `params`, unless it is `null`.
pub open spec fn params_of(message: JsonView) -> Option<JsonView> {
    match message.member("params"@) {
        Some(JsonView::Null) => None,
        Some(params) => Some(params),
        None => None,
    }
}

/// Reads a JSON document as a message. What has the member `id` is a request,
/// or is invalid where it names no method; what has none is a notification,
/// or nothing at all.
pub open spec fn decoded(message: JsonView) -> Decoded {
    match (message.member("id"@), message.str_member("method"@)) {
        (Some(id), Some(method)) => Decoded::Request { id, method, params: params_of(message) },
        (Some(id), None) => Decoded::Invalid { id },
        (None, Some(method)) => Decoded::Notification { method, params: params_of(message) },
        (None, None) => Decoded::Unanswerable,
    }
}

impl Message {
    /// The message as a mathematical value, where it is a request or a
    /// notification.
    pub open spec fn incoming(&self) -> Decoded {
        match self {
            Message::JsonRpc(JsonRpcMessage::Request(request)) => Decoded::Request {
                id: request.id@,
                method: request.method@,
                params: optional_view(request.params),
            },
            Message::JsonRpc(JsonRpcMessage::Notification(notification)) => Decoded::Notification {
                method: notification.method@,
                params: optional_view(notification.params),
            },
            Message::JsonRpc(JsonRpcMessage::Response(_)) => Decoded::Unanswerable,
        }
    }

    /// Reads a JSON document as a request or a notification. `Err` holds the
    /// identifier of a document that is no valid request; `Ok(None)` stands
    /// for a document that is neither and has no identifier.
    pub fn decode(document: &Json) -> (result: Result<Option<Message>, Json>)
        ensures
            match result {
                Ok(Some(message)) => message.incoming() == decoded(document@) && !(decoded(
                    document@,
                ) is Unanswerable),
                Ok(None) => decoded(document@) is Unanswerable,
                Err(id) => decoded(document@) == (Decoded::Invalid { id: id@ }),
            },
    {
        let params = match document.get("params") {
            Some(Json::Null) => None,
            Some(params) => Some(params.clone()),
            None => None,
        };
        match (document.get("id"), document.get_str("method")) {
            (Some(id), Some(method)) => Ok(
                Some(
                    Message::JsonRpc(
                        JsonRpcMessage::Request(
                            Request { id: id.clone(), method: method.to_owned(), params },
                        ),
                    ),
                ),
            ),
            (Some(id), None) => Err(id.clone()),
            (None, Some(method)) => Ok(
                Some(
                    Message::JsonRpc(
                        JsonRpcMessage::Notification(
                            Notification { method: method.to_owned(), params },
                        ),
                    ),
                ),
            ),
            (None, None) => Ok(None),
        }
    }
}

} // verus!
