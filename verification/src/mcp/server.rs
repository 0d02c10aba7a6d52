//! The protocol dispatcher: from a method and its parameters to a result or
//! an error, and from a message to its response.
use crate::calendar::{Instant, InstantView};
use crate::config::{
    DEFAULT_PROTOCOL_VERSION, FALLBACK_PROTOCOL_VERSION, SERVER_NAME, SERVER_VERSION,
};
use crate::json::{items_view, json_text, optional_view, Json, JsonView};
use crate::mcp::messages::{Decoded, JsonRpcError, JsonRpcMessage, Message, Request, Response, RpcErrorView,
};
use crate::mcp::{
    announced_capabilities, Prompt, PromptHandler, PromptView, Resource, ResourceHandler,
    ResourceView, ServerCapabilities, Tool, ToolHandler, ToolView, Transport, TransportError,
};
use crate::text::str_eq;
use crate::time_tools::{
    prompt_catalog, prompt_outcome, prompts_view, resource_catalog, resource_outcome,
    resources_view, tool_catalog, tool_outcome, tools_view, TimeToolsHandler,
};
use crate::tools::ToolErrorKind;
use vstd::prelude::*;

verus! {

/// What a method gives back: a result or an error.
pub type MethodOutcome = Result<JsonView, RpcErrorView>;

/// An error as an outcome.
pub open spec fn rpc_failure(code: int, message: Seq<char>) -> MethodOutcome {
    Err(RpcErrorView { code, message })
}

/// What a function of the dispatcher returned, as an outcome. An error with
/// data stands for no outcome of a method, since no method attaches any.
pub open spec fn rpc_outcome(result: Result<Json, JsonRpcError>) -> MethodOutcome {
    match result {
        Ok(value) => Ok(value@),
        Err(error) => Err(RpcErrorView { code: error.code as int, message: error.message@ }),
    }
}

/// The version agreed with a client that asks for `client`: the fallback
/// version where the client asks for it by name, the preferred version in
/// every other case.
pub open spec fn negotiated_version(client: Option<Seq<char>>) -> Seq<char> {
    if client == Some(FALLBACK_PROTOCOL_VERSION@) {
        FALLBACK_PROTOCOL_VERSION@
    } else {
        DEFAULT_PROTOCOL_VERSION@
    }
}

/// The version that the parameters of `initialize` ask for.
pub open spec fn requested_version(params: Option<JsonView>) -> Option<Seq<char>> {
    match params {
        Some(bag) => bag.str_member("protocolVersion"@),
        None => None,
    }
}

/// The result of `initialize`.
pub open spec fn initialize_result(params: Option<JsonView>) -> JsonView {
    JsonView::Object(
        seq![
            ("capabilities"@, announced_capabilities()),
            ("protocolVersion"@, JsonView::Str(negotiated_version(requested_version(params)))),
            (
                "serverInfo"@,
                JsonView::Object(
                    seq![
                        ("name"@, JsonView::Str(SERVER_NAME@)),
                        ("version"@, JsonView::Str(SERVER_VERSION@)),
                    ],
                ),
            ),
        ],
    )
}

/// A list of descriptors under one member.
pub open spec fn listing(key: Seq<char>, documents: Seq<JsonView>) -> JsonView {
    JsonView::Object(seq![(key, JsonView::Array(documents))])
}

/// The tools as the protocol lists them.
pub open spec fn tool_documents(tools: Seq<ToolView>) -> Seq<JsonView> {
    Seq::new(tools.len(), |i: int| tools[i].document())
}

/// The resources as the protocol lists them.
pub open spec fn resource_documents(resources: Seq<ResourceView>) -> Seq<JsonView> {
    Seq::new(resources.len(), |i: int| resources[i].document())
}

/// The prompts as the protocol lists them.
pub open spec fn prompt_documents(prompts: Seq<PromptView>) -> Seq<JsonView> {
    Seq::new(prompts.len(), |i: int| prompts[i].document())
}

/// The result of a tool call: the tool's document as one piece of text.
pub open spec fn tool_content(document: JsonView) -> JsonView {
    JsonView::Object(
        seq![
            (
                "content"@,
                JsonView::Array(
                    seq![
                        JsonView::Object(
                            seq![
                                ("text"@, JsonView::Str(json_text(document))),
                                ("type"@, JsonView::Str("text"@)),
                            ],
                        ),
                    ],
                ),
            ),
        ],
    )
}

/// The result of reading a resource: its document as JSON text, under its
/// address.
pub open spec fn resource_contents(uri: Seq<char>, document: JsonView) -> JsonView {
    JsonView::Object(
        seq![
            (
                "contents"@,
                JsonView::Array(
                    seq![
                        JsonView::Object(
                            seq![
                                ("mimeType"@, JsonView::Str("application/json"@)),
                                ("text"@, JsonView::Str(json_text(document))),
                                ("uri"@, JsonView::Str(uri)),
                            ],
                        ),
                    ],
                ),
            ),
        ],
    )
}

/// The arguments of a call: the member `arguments` of its parameters, or
/// `null` where there is none.
pub open spec fn call_arguments(params: JsonView) -> JsonView {
    match params.member("arguments"@) {
        Some(arguments) => arguments,
        None => JsonView::Null,
    }
}

/// The outcome of `tools/call`. A tool that is not on offer is reported as a
/// method that is not found; any other failure of a tool as an internal
/// error that carries the tool's explanation.
pub open spec fn tools_call_outcome(params: Option<JsonView>, now: InstantView) -> MethodOutcome {
    match params {
        None => rpc_failure(-32602, "Missing params"@),
        Some(bag) => match bag.str_member("name"@) {
            None => rpc_failure(-32602, "Missing tool name"@),
            Some(name) => match tool_outcome(name, call_arguments(bag), now) {
                Ok(document) => Ok(tool_content(document)),
                Err(error) => if error.kind == ToolErrorKind::UnknownTool {
                    rpc_failure(-32601, error.message)
                } else {
                    rpc_failure(-32603, error.message)
                },
            },
        },
    }
}

/// The text member of the parameters, where there are parameters.
pub open spec fn text_param(params: Option<JsonView>, key: Seq<char>) -> Option<Seq<char>> {
    match params {
        Some(bag) => bag.str_member(key),
        None => None,
    }
}

/// The outcome of `resources/read`.
pub open spec fn resources_read_outcome(params: Option<JsonView>) -> MethodOutcome {
    match text_param(params, "uri"@) {
        None => rpc_failure(-32602, "Missing URI"@),
        Some(uri) => match resource_outcome(uri) {
            Ok(document) => Ok(resource_contents(uri, document)),
            Err(_) => rpc_failure(-32602, "Unknown resource"@),
        },
    }
}

/// The arguments of a prompt: the member `arguments` of the parameters.
pub open spec fn prompt_arguments(params: Option<JsonView>) -> Option<JsonView> {
    match params {
        Some(bag) => bag.member("arguments"@),
        None => None,
    }
}

/// The outcome of `prompts/get`.
pub open spec fn prompts_get_outcome(params: Option<JsonView>, now: InstantView) -> MethodOutcome {
    match text_param(params, "name"@) {
        None => rpc_failure(-32602, "Missing prompt name"@),
        Some(name) => match prompt_outcome(name, prompt_arguments(params), now) {
            Ok(document) => Ok(document),
            Err(_) => rpc_failure(-32602, "Unknown prompt"@),
        },
    }
}

/// What each method of the protocol gives back at the instant `now`. A
/// method that the protocol does not have is not found.
pub open spec fn method_outcome(method: Seq<char>, params: Option<JsonView>, now: InstantView) -> MethodOutcome {
    if method == "initialize"@ {
        Ok(initialize_result(params))
    } else if method == "tools/list"@ {
        Ok(listing("tools"@, tool_documents(tool_catalog())))
    } else if method == "tools/call"@ {
        tools_call_outcome(params, now)
    } else if method == "resources/list"@ {
        Ok(listing("resources"@, resource_documents(resource_catalog())))
    } else if method == "resources/read"@ {
        resources_read_outcome(params)
    } else if method == "prompts/list"@ {
        Ok(listing("prompts"@, prompt_documents(prompt_catalog())))
    } else if method == "prompts/get"@ {
        prompts_get_outcome(params, now)
    } else {
        rpc_failure(-32601, "Method not found"@)
    }
}

/// The view of optional parameters.
pub open spec fn params_view(params: Option<&Json>) -> Option<JsonView> {
    match params {
        Some(bag) => Some(bag@),
        None => None,
    }
}

/// The version agreed with a client that asks for `client`.
pub fn negotiate_version(client: Option<&str>) -> (version: &'static str)
    ensures
        version@ == negotiated_version(
            match client {
                Some(asked) => Some(asked@),
                None => None,
            },
        ),
{
    match client {
        Some(asked) => if str_eq(asked, FALLBACK_PROTOCOL_VERSION) {
            FALLBACK_PROTOCOL_VERSION
        } else {
            DEFAULT_PROTOCOL_VERSION
        },
        None => DEFAULT_PROTOCOL_VERSION,
    }
}

/// A client that asks for the fallback version by name is given it; one that
/// asks for anything else, or for nothing, is given the preferred version.
/// The two versions differ.
pub proof fn lemma_versions_differ()
    ensures
        DEFAULT_PROTOCOL_VERSION@ != FALLBACK_PROTOCOL_VERSION@,
        negotiated_version(Some(FALLBACK_PROTOCOL_VERSION@)) == FALLBACK_PROTOCOL_VERSION@,
        negotiated_version(None) == DEFAULT_PROTOCOL_VERSION@,
        forall|asked: Seq<char>|
            asked != FALLBACK_PROTOCOL_VERSION@ ==> #[trigger] negotiated_version(Some(asked))
                == DEFAULT_PROTOCOL_VERSION@,
{
    reveal_strlit("2025-03-26");
    reveal_strlit("2025-06-18");
    assert(DEFAULT_PROTOCOL_VERSION@[6] != FALLBACK_PROTOCOL_VERSION@[6]);
}

/// The result of `initialize` for the given parameters.
pub fn initialize(params: Option<&Json>) -> (result: Json)
    ensures
        result@ == initialize_result(params_view(params)),
{
    let asked = match params {
        Some(bag) => bag.get_str("protocolVersion"),
        None => None,
    };
    let fixed = ServerCapabilities::fixed();
    proof {
        ServerCapabilities::lemma_fixed_document(fixed);
    }
    let capabilities = fixed.to_json();
    Json::object3(
        "capabilities",
        capabilities,
        "protocolVersion",
        Json::string(negotiate_version(asked)),
        "serverInfo",
        Json::object2("name", Json::string(SERVER_NAME), "version", Json::string(SERVER_VERSION)),
    )
}

/// The tools as the protocol lists them, under the member `tools`.
pub fn list_tools(tools: &Vec<Tool>) -> (result: Json)
    ensures
        result@ == listing("tools"@, tool_documents(tools_view(*tools))),
{
    Json::object1("tools", tool_array(tools))
}

/// The tools as the protocol lists them.
pub fn tool_array(tools: &Vec<Tool>) -> (result: Json)
    ensures
        result@ == JsonView::Array(tool_documents(tools_view(*tools))),
{
    let mut documents: Vec<Json> = Vec::new();
    let mut i: usize = 0;
    while i < tools.len()
        invariant
            i <= tools.len(),
            documents.len() == i,
            forall|j: int| 0 <= j < i ==> documents[j]@ == tools[j]@.document(),
        decreases tools.len() - i,
    {
        documents.push(tools[i].to_json());
        i += 1;
    }
    assert(items_view(documents) =~= tool_documents(tools_view(*tools)));
    Json::Array(documents)
}

/// The resources as the protocol lists them, under the member `resources`.
pub fn list_resources(resources: &Vec<Resource>) -> (result: Json)
    ensures
        result@ == listing("resources"@, resource_documents(resources_view(*resources))),
{
    let mut documents: Vec<Json> = Vec::new();
    let mut i: usize = 0;
    while i < resources.len()
        invariant
            i <= resources.len(),
            documents.len() == i,
            forall|j: int| 0 <= j < i ==> documents[j]@ == resources[j]@.document(),
        decreases resources.len() - i,
    {
        documents.push(resources[i].to_json());
        i += 1;
    }
    assert(items_view(documents) =~= resource_documents(resources_view(*resources)));
    Json::object1("resources", Json::Array(documents))
}

/// The prompts as the protocol lists them, under the member `prompts`.
pub fn list_prompts(prompts: &Vec<Prompt>) -> (result: Json)
    ensures
        result@ == listing("prompts"@, prompt_documents(prompts_view(*prompts))),
{
    let mut documents: Vec<Json> = Vec::new();
    let mut i: usize = 0;
    while i < prompts.len()
        invariant
            i <= prompts.len(),
            documents.len() == i,
            forall|j: int| 0 <= j < i ==> documents[j]@ == prompts[j]@.document(),
        decreases prompts.len() - i,
    {
        documents.push(prompts[i].to_json());
        i += 1;
    }
    assert(items_view(documents) =~= prompt_documents(prompts_view(*prompts)));
    Json::object1("prompts", Json::Array(documents))
}

/// An error without data.
fn refuse(code: i32, message: &str) -> (result: Result<Json, JsonRpcError>)
    ensures
        rpc_outcome(result) == rpc_failure(code as int, message@),
        result is Err,
        result->Err_0.data is None,
{
    Err(JsonRpcError::new(code, message))
}

/// Calls the tool that the parameters name, as if the clock read `now`.
pub fn call_tool(handler: &TimeToolsHandler, params: Option<&Json>, now: &Instant) -> (result:
    Result<Json, JsonRpcError>)
    ensures
        rpc_outcome(result) == tools_call_outcome(params_view(params), now@),
        result matches Err(error) ==> error.data is None,
{
    let bag = match params {
        Some(bag) => bag,
        None => {
            return refuse(-32602, "Missing params");
        },
    };
    let name = match bag.get_str("name") {
        Some(name) => name,
        None => {
            return refuse(-32602, "Missing tool name");
        },
    };
    let outcome = match bag.get("arguments") {
        Some(arguments) => handler.handle_tool_call_at(name, arguments, now),
        None => handler.handle_tool_call_at(name, &Json::Null, now),
    };
    match outcome {
        Ok(document) => Ok(
            Json::object1(
                "content",
                Json::single(
                    Json::object2(
                        "text",
                        Json::Str(document.to_text()),
                        "type",
                        Json::string("text"),
                    ),
                ),
            ),
        ),
        Err(error) => match error.kind {
            ToolErrorKind::UnknownTool => refuse(-32601, error.message.as_str()),
            _ => refuse(-32603, error.message.as_str()),
        },
    }
}

/// Reads the resource that the parameters name.
pub fn read_resource(handler: &TimeToolsHandler, params: Option<&Json>) -> (result: Result<
    Json,
    JsonRpcError,
>)
    ensures
        rpc_outcome(result) == resources_read_outcome(params_view(params)),
        result matches Err(error) ==> error.data is None,
{
    let asked = match params {
        Some(bag) => bag.get_str("uri"),
        None => None,
    };
    let uri = match asked {
        Some(uri) => uri,
        None => {
            return refuse(-32602, "Missing URI");
        },
    };
    match handler.read_resource(uri) {
        Ok(document) => Ok(
            Json::object1(
                "contents",
                Json::single(
                    Json::object3(
                        "mimeType",
                        Json::string("application/json"),
                        "text",
                        Json::Str(document.to_text()),
                        "uri",
                        Json::string(uri),
                    ),
                ),
            ),
        ),
        Err(_) => refuse(-32602, "Unknown resource"),
    }
}

/// Renders the prompt that the parameters name, as if the clock read `now`.
pub fn get_prompt(handler: &TimeToolsHandler, params: Option<&Json>, now: &Instant) -> (result:
    Result<Json, JsonRpcError>)
    ensures
        rpc_outcome(result) == prompts_get_outcome(params_view(params), now@),
        result matches Err(error) ==> error.data is None,
{
    let asked = match params {
        Some(bag) => bag.get_str("name"),
        None => None,
    };
    let name = match asked {
        Some(name) => name,
        None => {
            return refuse(-32602, "Missing prompt name");
        },
    };
    let arguments = match params {
        Some(bag) => bag.get("arguments"),
        None => None,
    };
    match handler.get_prompt_at(name, arguments, now) {
        Ok(document) => Ok(document),
        Err(_) => refuse(-32602, "Unknown prompt"),
    }
}

/// Runs the method `method` on `params`, as if the clock read `now`.
pub fn dispatch_at(
    handler: &TimeToolsHandler,
    method: &str,
    params: Option<&Json>,
    now: &Instant,
) -> (result: Result<Json, JsonRpcError>)
    ensures
        rpc_outcome(result) == method_outcome(method@, params_view(params), now@),
        result matches Err(error) ==> error.data is None,
{
    if str_eq(method, "initialize") {
        Ok(initialize(params))
    } else if str_eq(method, "tools/list") {
        Ok(list_tools(&handler.list_tools()))
    } else if str_eq(method, "tools/call") {
        call_tool(handler, params, now)
    } else if str_eq(method, "resources/list") {
        Ok(list_resources(&handler.list_resources()))
    } else if str_eq(method, "resources/read") {
        read_resource(handler, params)
    } else if str_eq(method, "prompts/list") {
        Ok(list_prompts(&handler.list_prompts()))
    } else if str_eq(method, "prompts/get") {
        get_prompt(handler, params, now)
    } else {
        refuse(-32601, "Method not found")
    }
}

/// The response that answers the request `id` with an outcome.
pub open spec fn answers(response: Response, id: JsonView, outcome: MethodOutcome) -> bool {
    &&& response.id@ == id
    &&& match outcome {
        Ok(result) => response.result matches Some(r) && r@ == result && response.error is None,
        Err(error) => {
            &&& response.result is None
            &&& response.error matches Some(e) && e.is(error.code, error.message)
        },
    }
}

/// What happened when the server was asked to serve one more message.
#[derive(Debug)]
pub enum Served {
    /// A message came and was dealt with.
    Handled,
    /// A message came, but its response could not be sent.
    SendFailed(TransportError),
    /// The client is gone.
    Closed,
    /// No message could be received.
    ReceiveFailed(TransportError),
}

impl Served {
    /// Whether the server should go on serving: it should unless the client
    /// is gone or the transport cannot receive.
    pub fn goes_on(&self) -> (yes: bool)
        ensures
            yes == (self is Handled || self is SendFailed),
    {
        match self {
            Served::Handled => true,
            Served::SendFailed(_) => true,
            Served::Closed => false,
            Served::ReceiveFailed(_) => false,
        }
    }
}

/// A response as the message that carries it.
pub open spec fn response_message(response: Response) -> Message {
    Message::JsonRpc(JsonRpcMessage::Response(response))
}

/// What dealing with one message comes to, from the transport before to the
/// transport after and to what is returned. A request is answered: for some
/// reading of the clock, the response that the request is owed at that
/// instant is handed to the transport in one call of `send_message`, and what
/// that call returned is returned. Any other message is let pass: the
/// transport is not touched, and nothing fails.
pub open spec fn handles<T: Transport>(
    before: T,
    message: Message,
    after: T,
    sent: Result<(), TransportError>,
) -> bool {
    match message.incoming() {
        Decoded::Request { id, method, params } => exists|now: InstantView, response: Response|
            #![trigger now.representable(), response_message(response)]
            {
                &&& now.representable()
                &&& response.well_formed()
                &&& answers(response, id, method_outcome(method, params, now))
                &&& T::sends(&before, &response_message(response), &after, sent)
            },
        _ => sent is Ok && after == before,
    }
}

/// What one round of serving comes to once a message was sent or not.
pub open spec fn served_for(sent: Result<(), TransportError>) -> Served {
    match sent {
        Ok(()) => Served::Handled,
        Err(error) => Served::SendFailed(error),
    }
}

/// What dealing with what the transport received comes to. A message is
/// handled, and the round goes by whether its response could be sent; the end
/// of the stream and a failure to receive end the serving without the
/// transport being touched.
pub open spec fn serves<T: Transport>(
    before: T,
    received: Result<Option<Message>, TransportError>,
    after: T,
    served: Served,
) -> bool {
    match received {
        Ok(Some(message)) => exists|sent: Result<(), TransportError>|
            #[trigger] handles(before, message, after, sent) && served == served_for(sent),
        Ok(None) => served is Closed && after == before,
        Err(error) => served == Served::ReceiveFailed(error) && after == before,
    }
}

/// What one round of serving comes to: one call of `receive_message`, and
/// then what was received is dealt with.
pub open spec fn serves_next<T: Transport>(before: T, after: T, served: Served) -> bool {
    exists|between: T, received: Result<Option<Message>, TransportError>|
        #![trigger T::receives(&before, &between, received)]
        T::receives(&before, &between, received) && serves(between, received, after, served)
}

/// A server bound to one transport.
pub struct McpServer<T: Transport> {
    transport: T,
    time_handler: TimeToolsHandler,
}

impl<T: Transport> McpServer<T> {
    /// The transport that the server talks over.
    pub closed spec fn transport(&self) -> T {
        self.transport
    }

    /// A server that talks over `transport`.
    pub fn new(transport: T) -> (server: Self)
        ensures
            server.transport() == transport,
    {
        McpServer { transport, time_handler: TimeToolsHandler::new() }
    }

    /// The response to `request`, as if the clock read `now`. Every request
    /// has one, with the request's identifier and either a result or an
    /// error.
    pub fn handle_request_at(&self, request: Request, now: &Instant) -> (response: Response)
        ensures
            response.well_formed(),
            answers(
                response,
                request.id@,
                method_outcome(request.method@, optional_view(request.params), now@),
            ),
    {
        let outcome = dispatch_at(
            &self.time_handler,
            request.method.as_str(),
            request.params.as_ref(),
            now,
        );
        match outcome {
            Ok(result) => Response::success(request.id, result),
            Err(error) => Response::failure(request.id, error),
        }
    }

    /// The response to `request`. The clock is read once.
    pub fn handle_request(&self, request: Request) -> (response: Response)
        ensures
            response.well_formed(),
            exists|now: InstantView|
                now.representable() && answers(
                    response,
                    request.id@,
                    #[trigger] method_outcome(
                        request.method@,
                        optional_view(request.params),
                        now,
                    ),
                ),
    {
        let now = Instant::now();
        proof {
            use_type_invariant(&now);
        }
        self.handle_request_at(request, &now)
    }

    /// The response that `message` is owed, as if the clock read `now`: one
    /// for a request, none for a notification or a response. A notification
    /// gets none whatever method it names.
    pub fn reply_at(&self, message: Message, now: &Instant) -> (reply: Option<Response>)
        ensures
            match message.incoming() {
                Decoded::Request { id, method, params } => reply matches Some(response)
                    && response.well_formed() && answers(
                    response,
                    id,
                    method_outcome(method, params, now@),
                ),
                _ => reply is None,
            },
    {
        match message {
            Message::JsonRpc(JsonRpcMessage::Request(request)) => Some(
                self.handle_request_at(request, now),
            ),
            Message::JsonRpc(JsonRpcMessage::Notification(_)) => None,
            Message::JsonRpc(JsonRpcMessage::Response(_)) => None,
        }
    }

    /// Deals with one message: a request is answered over the transport,
    /// anything else is let pass without the transport being touched. The
    /// clock is read once.
    pub fn handle_message(&mut self, message: Message) -> (sent: Result<(), TransportError>)
        ensures
            handles(old(self).transport(), message, final(self).transport(), sent),
    {
        let ghost before = self.transport;
        let ghost incoming = message.incoming();
        let now = Instant::now();
        match self.reply_at(message, &now) {
            Some(response) => {
                let ghost answer = response;
                let outgoing = Message::JsonRpc(JsonRpcMessage::Response(response));
                let sent = self.transport.send_message(&outgoing);
                proof {
                    assert(outgoing == response_message(answer));
                    assert(now@.representable() && answer.well_formed() && answers(
                        answer,
                        incoming->Request_id,
                        method_outcome(incoming->Request_method, incoming->Request_params, now@),
                    ) && T::sends(&before, &response_message(answer), &self.transport, sent));
                }
                sent
            },
            None => Ok(()),
        }
    }

    /// Deals with what the transport received: a message is handled, the end
    /// of the stream and a failure to receive end the serving. Only a request
    /// makes the server touch the transport, and only its response can fail
    /// to be sent.
    pub fn serve(&mut self, received: Result<Option<Message>, TransportError>) -> (served: Served)
        ensures
            serves(old(self).transport(), received, final(self).transport(), served),
    {
        match received {
            Ok(Some(message)) => {
                let sent = self.handle_message(message);
                assert(handles(old(self).transport(), message, self.transport(), sent));
                match sent {
                    Ok(()) => Served::Handled,
                    Err(error) => Served::SendFailed(error),
                }
            },
            Ok(None) => Served::Closed,
            Err(error) => Served::ReceiveFailed(error),
        }
    }

    /// Waits for one message and deals with it: the transport is asked once
    /// for the next message, and what it gives is dealt with.
    pub fn serve_next(&mut self) -> (served: Served)
        ensures
            serves_next(old(self).transport(), final(self).transport(), served),
    {
        let received = self.transport.receive_message();
        let ghost between = self.transport;
        let served = self.serve(received);
        assert(T::receives(&old(self).transport(), &between, received) && serves(
            between,
            received,
            self.transport(),
            served,
        ));
        served
    }
}

} // verus!
