use serde_json::Value;
use time_mcp_server::calendar::Instant;
use time_mcp_server::config::{DEFAULT_PROTOCOL_VERSION, FALLBACK_PROTOCOL_VERSION};
use time_mcp_server::handlers::mcp::McpHandlers;
use time_mcp_server::handlers::stdio::{Line, StdioHandler};
use time_mcp_server::json::{Json, JsonObject};
use time_mcp_server::mcp::messages::{
    JsonRpcError, JsonRpcMessage, Message, Notification, Request, Response,
};
use time_mcp_server::mcp::server::{negotiate_version, McpServer, Served};
use time_mcp_server::mcp::{
    PromptHandler, ResourceHandler, ServerCapabilities, ToolHandler, Transport, TransportError,
};
use time_mcp_server::time_tools::TimeToolsHandler;
use time_mcp_server::tools::ToolErrorKind;
use time_mcp_server::transports::http::{HttpTransport, Posted, Route};

fn bag(pairs: &[(&str, &str)]) -> Json {
    let mut object = JsonObject::new();
    for (key, value) in pairs {
        object = object.with_str(key, value);
    }
    object.into_json()
}

fn parsed(document: &Json) -> Value {
    serde_json::from_str(&document.to_text()).unwrap()
}

fn at(secs: i64) -> Instant {
    Instant::from_unix(secs).unwrap()
}

fn request(id: Json, method: &str, params: Option<Json>) -> Json {
    let mut object = JsonObject::new().with_str("jsonrpc", "2.0").with("id", id).with_str("method", method);
    if let Some(params) = params {
        object = object.with("params", params);
    }
    object.into_json()
}

fn respond(message: &Json) -> Option<Value> {
    StdioHandler::respond_at(message, &at(1_672_574_400)).map(|response| parsed(&response))
}

struct Scripted {
    incoming: Vec<Result<Option<Message>, TransportError>>,
    sent: Vec<Value>,
    refuse_sends: bool,
}

impl Transport for Scripted {
    fn send_message(&mut self, message: &Message) -> Result<(), TransportError> {
        if self.refuse_sends {
            return Err(TransportError { message: "pipe closed".to_string() });
        }
        match message {
            Message::JsonRpc(JsonRpcMessage::Response(response)) => {
                self.sent.push(parsed(&response.to_json()));
            }
            other => panic!("only responses are sent, not {:?}", other),
        }
        Ok(())
    }

    fn receive_message(&mut self) -> Result<Option<Message>, TransportError> {
        if self.incoming.is_empty() {
            Ok(None)
        } else {
            self.incoming.remove(0)
        }
    }
}

#[test]
fn test_initialize_negotiates_the_version() {
    let fallback = parsed(&McpHandlers::handle_initialize(
        Json::Int(1),
        Some(bag(&[("protocolVersion", "2025-06-18")])),
    ));
    assert_eq!(fallback["result"]["protocolVersion"], "2025-06-18");
    assert_eq!(fallback["id"], 1);
    assert_eq!(fallback["jsonrpc"], "2.0");
    assert!(fallback.get("error").is_none());

    for params in [
        None,
        Some(Json::Null),
        Some(bag(&[])),
        Some(bag(&[("protocolVersion", "anything-else")])),
        Some(bag(&[("protocolVersion", "2025-03-26")])),
        Some(bag(&[("protocolVersion", "2025-06-18 ")])),
        Some(bag(&[("protocolVersion", "2099-01-01")])),
        Some(JsonObject::new().with_int("protocolVersion", 20250618).into_json()),
    ] {
        let response = parsed(&McpHandlers::handle_initialize(Json::Int(2), params));
        assert_eq!(response["result"]["protocolVersion"], "2025-03-26");
    }
    assert_eq!(negotiate_version(Some(FALLBACK_PROTOCOL_VERSION)), FALLBACK_PROTOCOL_VERSION);
    assert_eq!(negotiate_version(Some("1.0")), DEFAULT_PROTOCOL_VERSION);
    assert_eq!(negotiate_version(None), DEFAULT_PROTOCOL_VERSION);
}

#[test]
fn test_initialize_announces_capabilities_and_identity() {
    let response = McpHandlers::handle_initialize(Json::string("abc"), None);
    assert_eq!(
        response.to_text(),
        "{\"id\":\"abc\",\"jsonrpc\":\"2.0\",\"result\":{\"capabilities\":{\"prompts\":{\"listChanged\":false},\"resources\":{\"listChanged\":false,\"subscribe\":false},\"tools\":{\"listChanged\":false}},\"protocolVersion\":\"2025-03-26\",\"serverInfo\":{\"name\":\"time-mcp-server\",\"version\":\"1.0.0\"}}}"
    );
    assert_eq!(
        ServerCapabilities::fixed().to_json().to_text(),
        "{\"prompts\":{\"listChanged\":false},\"resources\":{\"listChanged\":false,\"subscribe\":false},\"tools\":{\"listChanged\":false}}"
    );
    let bare = ServerCapabilities { tools: None, resources: None, prompts: None };
    assert_eq!(bare.to_json().to_text(), "{}");
}

#[test]
fn test_the_identifier_is_echoed_verbatim() {
    let ids = [
        Json::Int(7),
        Json::Int(-1),
        Json::string("req-1"),
        Json::Null,
        Json::Real("1.5".to_string()),
        Json::Array(vec![Json::Int(1), Json::string("x")]),
        bag(&[("nested", "id")]),
    ];
    for id in ids {
        let response = StdioHandler::respond_at(&request(id.clone(), "tools/list", None), &at(0)).unwrap();
        assert_eq!(response.get("id"), Some(&id));
        let failed = StdioHandler::respond_at(&request(id.clone(), "no/such", None), &at(0)).unwrap();
        assert_eq!(failed.get("id"), Some(&id));
    }
}

#[test]
fn test_every_request_gets_a_result_or_an_error_and_not_both() {
    let methods = [
        "initialize", "tools/list", "tools/call", "resources/list", "resources/read",
        "prompts/list", "prompts/get", "initialized", "", "tools", "TOOLS/LIST",
    ];
    for method in methods {
        for params in [None, Some(bag(&[("name", "list_timezones"), ("uri", "time_formats")]))] {
            let response = respond(&request(Json::Int(3), method, params)).unwrap();
            let object = response.as_object().unwrap();
            assert!(object.contains_key("result") != object.contains_key("error"), "for {}", method);
            assert_eq!(response["jsonrpc"], "2.0");
            assert_eq!(response["id"], 3);
        }
    }
}

#[test]
fn test_notifications_are_never_answered() {
    for method in ["initialized", "tools/list", "tools/call", "no/such/method", ""] {
        let notification =
            JsonObject::new().with_str("jsonrpc", "2.0").with_str("method", method).into_json();
        assert!(StdioHandler::respond(&notification).is_none());
        assert!(StdioHandler::respond_line(&notification).is_none());
    }
    assert!(StdioHandler::respond(&Json::Null).is_none());
    assert!(StdioHandler::respond(&bag(&[("jsonrpc", "2.0")])).is_none());
    assert!(StdioHandler::respond(&Json::Array(vec![])).is_none());
}

#[test]
fn test_a_document_with_an_id_but_no_method_is_an_invalid_request() {
    let no_method = JsonObject::new().with_int("id", 9).into_json();
    let response = respond(&no_method).unwrap();
    assert_eq!(response["error"]["code"], -32600);
    assert_eq!(response["error"]["message"], "Invalid Request");
    assert_eq!(response["id"], 9);

    let numeric_method = JsonObject::new().with_int("id", 9).with_int("method", 1).into_json();
    assert_eq!(respond(&numeric_method).unwrap()["error"]["code"], -32600);
}

#[test]
fn test_unknown_methods_are_not_found() {
    for method in ["ping", "initialized", "tools/List", "tools/call/"] {
        let response = respond(&request(Json::Int(1), method, None)).unwrap();
        assert_eq!(response["error"]["code"], -32601);
        assert_eq!(response["error"]["message"], "Method not found");
    }
}

#[test]
fn test_handle_request_answers_without_id_or_method() {
    let response = parsed(&StdioHandler::handle_request(&bag(&[("method", "tools/list")])));
    assert_eq!(response["id"], 0);
    assert!(response["result"]["tools"].is_array());
    let response = parsed(&StdioHandler::handle_request(&Json::Null));
    assert_eq!(response["id"], 0);
    assert_eq!(response["error"]["code"], -32601);
}

#[test]
fn test_tools_list_holds_the_six_tools() {
    let response = parsed(&McpHandlers::handle_tools_list(Json::Int(1)));
    let tools = response["result"]["tools"].as_array().unwrap();
    let names: Vec<&str> = tools.iter().map(|t| t["name"].as_str().unwrap()).collect();
    assert_eq!(
        names,
        vec![
            "get_current_time", "convert_timezone", "calculate_duration", "format_time",
            "get_timezone_info", "list_timezones",
        ]
    );
    for tool in tools {
        assert!(tool["description"].is_string());
        assert_eq!(tool["inputSchema"]["type"], "object");
        assert!(tool["inputSchema"]["properties"].is_object());
    }
    assert_eq!(tools[1]["inputSchema"]["required"][0], "timestamp");
    assert_eq!(tools[1]["inputSchema"]["required"][2], "to_timezone");
    assert!(tools[0]["inputSchema"].get("required").is_none());
    assert_eq!(tools[0]["inputSchema"]["properties"]["format"]["enum"][3], "custom");
    assert_eq!(tools[0]["inputSchema"]["properties"]["timezone"]["default"], "UTC");
    assert_eq!(tools[2]["inputSchema"]["properties"]["units"]["default"], "seconds");
    assert_eq!(parsed(&McpHandlers::get_tool_definitions()), response["result"]["tools"]);
}

#[test]
fn test_the_catalog_names_what_the_engine_reads() {
    let handler = TimeToolsHandler::new();
    let expected: [(&str, &[&str], &[&str]); 6] = [
        ("get_current_time", &["custom_format", "format", "timezone"], &[]),
        ("convert_timezone", &["from_timezone", "timestamp", "to_timezone"], &["timestamp", "from_timezone", "to_timezone"]),
        ("calculate_duration", &["end_time", "start_time", "units"], &["start_time", "end_time"]),
        ("format_time", &["custom_format", "format", "timestamp", "timezone"], &["timestamp", "format"]),
        ("get_timezone_info", &["timezone"], &["timezone"]),
        ("list_timezones", &["region"], &[]),
    ];
    let tools = handler.list_tools();
    assert_eq!(tools.len(), 6);
    for (tool, (name, fields, required)) in tools.iter().zip(expected) {
        assert_eq!(tool.name, name);
        let schema = parsed(&tool.input_schema);
        let listed: Vec<&str> = schema["properties"].as_object().unwrap().keys().map(|k| k.as_str()).collect();
        assert_eq!(listed, fields);
        let needed: Vec<&str> = match schema.get("required") {
            Some(names) => names.as_array().unwrap().iter().map(|n| n.as_str().unwrap()).collect(),
            None => vec![],
        };
        assert_eq!(needed, required);
        for argument in required {
            let mut pairs: Vec<(&str, &str)> = fields.iter().map(|p| (*p, "0")).collect();
            pairs.retain(|(key, _)| key != argument);
            let error = handler.handle_tool_call_at(name, &bag(&pairs), &at(0)).unwrap_err();
            assert_eq!(error.kind, ToolErrorKind::MissingParameter, "{} without {}", name, argument);
        }
    }
}

#[test]
fn test_tools_call_wraps_the_result_as_text() {
    let params = JsonObject::new()
        .with_str("name", "calculate_duration")
        .with("arguments", bag(&[("start_time", "0"), ("end_time", "5400")]))
        .into_json();
    let response = parsed(&McpHandlers::handle_tools_call(Json::Int(4), Some(params)));
    assert_eq!(response["result"]["content"].as_array().unwrap().len(), 1);
    assert_eq!(response["result"]["content"][0]["type"], "text");
    assert_eq!(
        response["result"]["content"][0]["text"],
        "{\"duration\":{\"hours\":1,\"human_readable\":\"5400 seconds\",\"minutes\":90,\"total_seconds\":5400}}"
    );
}

#[test]
fn test_tools_call_failures() {
    let missing = parsed(&McpHandlers::handle_tools_call(Json::Int(1), None));
    assert_eq!(missing["error"]["code"], -32602);
    assert_eq!(missing["error"]["message"], "Missing params");
    assert!(missing.get("result").is_none());

    let nameless = parsed(&McpHandlers::handle_tools_call(Json::Int(1), Some(bag(&[]))));
    assert_eq!(nameless["error"]["code"], -32602);
    assert_eq!(nameless["error"]["message"], "Missing tool name");

    let unknown = parsed(&McpHandlers::handle_tools_call(Json::Int(1), Some(bag(&[("name", "get_weather")]))));
    assert_eq!(unknown["error"]["code"], -32601);
    assert_eq!(unknown["error"]["message"], "Tool not found: get_weather");

    let failing = JsonObject::new()
        .with_str("name", "get_current_time")
        .with("arguments", bag(&[("timezone", "Mars/Base")]))
        .into_json();
    let failed = parsed(&McpHandlers::handle_tools_call(Json::Int(1), Some(failing)));
    assert_eq!(failed["error"]["code"], -32603);
    assert_eq!(failed["error"]["message"], "Invalid timezone: Mars/Base");

    let no_arguments = parsed(&McpHandlers::handle_tools_call(Json::Int(1), Some(bag(&[("name", "convert_timezone")]))));
    assert_eq!(no_arguments["error"]["code"], -32603);
    assert_eq!(no_arguments["error"]["message"], "timestamp required");
}

#[test]
fn test_execute_tool_writes_json_text() {
    let text = McpHandlers::execute_tool("list_timezones", bag(&[("region", "Europe/Lon")])).unwrap();
    assert_eq!(text, "{\"count\":1,\"timezones\":[\"Europe/London\"]}");
    let error = McpHandlers::execute_tool("nothing", Json::Null).unwrap_err();
    assert_eq!(error.kind, ToolErrorKind::UnknownTool);
    assert_eq!(error.to_string(), "Tool not found: nothing");
    let text = McpHandlers::execute_tool_at("get_current_time", &bag(&[("format", "unix")]), &at(77)).unwrap();
    assert_eq!(text, "{\"timestamp\":77,\"timezone\":\"UTC\"}");
}

#[test]
fn test_resources_list_and_read() {
    let listed = parsed(&McpHandlers::handle_resources_list(Json::Int(1)));
    let resources = listed["result"]["resources"].as_array().unwrap();
    assert_eq!(resources.len(), 2);
    assert_eq!(resources[0]["uri"], "timezone_database");
    assert_eq!(resources[0]["mimeType"], "application/json");
    assert_eq!(resources[1]["uri"], "time_formats");
    assert_eq!(resources[1]["name"], "Time Formats");

    let read = parsed(&McpHandlers::handle_resources_read(Json::Int(1), Some(bag(&[("uri", "timezone_database")]))));
    let contents = &read["result"]["contents"][0];
    assert_eq!(contents["uri"], "timezone_database");
    assert_eq!(contents["mimeType"], "application/json");
    let database: Value = serde_json::from_str(contents["text"].as_str().unwrap()).unwrap();
    assert_eq!(database["total_count"], 597);
    assert_eq!(database["timezones"].as_array().unwrap().len(), 597);

    let formats = parsed(&McpHandlers::handle_resources_read(Json::Int(1), Some(bag(&[("uri", "time_formats")]))));
    let document: Value = serde_json::from_str(formats["result"]["contents"][0]["text"].as_str().unwrap()).unwrap();
    assert_eq!(document["locale_specific_formats"]["iso"], "%Y-%m-%d %H:%M:%S");
    assert_eq!(document["iso8601_examples"][2], "2025-08-17T14:30:00-04:00");
    assert_eq!(document["rfc3339_examples"].as_array().unwrap().len(), 2);
    assert_eq!(document["custom_format_strings"]["examples"][1], "%B %d, %Y at %I:%M %p");
    assert_eq!(parsed(&McpHandlers::get_time_formats_resource()), document);
}

#[test]
fn test_resources_read_failures() {
    for params in [None, Some(Json::Null), Some(bag(&[])), Some(JsonObject::new().with_int("uri", 1).into_json())] {
        let response = parsed(&McpHandlers::handle_resources_read(Json::Int(1), params));
        assert_eq!(response["error"]["code"], -32602);
        assert_eq!(response["error"]["message"], "Missing URI");
    }
    let unknown = parsed(&McpHandlers::handle_resources_read(Json::Int(1), Some(bag(&[("uri", "weather")]))));
    assert_eq!(unknown["error"]["code"], -32602);
    assert_eq!(unknown["error"]["message"], "Unknown resource");
    let error = TimeToolsHandler::new().read_resource("weather").unwrap_err();
    assert_eq!(error.kind, ToolErrorKind::UnknownResource);
    assert_eq!(error.message, "Unknown resource: weather");
}

#[test]
fn test_prompts_list_and_get() {
    let listed = parsed(&McpHandlers::handle_prompts_list(Json::Int(1)));
    assert_eq!(
        listed["result"].to_string(),
        "{\"prompts\":[{\"arguments\":[{\"description\":\"The user's time-related question\",\"name\":\"user_query\",\"required\":true}],\"description\":\"Template for helping users with time-related queries\",\"name\":\"time_query_assistant\"}]}"
    );

    let params = JsonObject::new()
        .with_str("name", "time_query_assistant")
        .with("arguments", bag(&[("user_query", "When is noon in Tokyo?")]))
        .into_json();
    let got = parsed(&McpHandlers::handle_prompts_get_at(Json::Int(1), Some(params), &at(1_672_574_400)));
    assert_eq!(got["result"]["description"], "Assistant for time-related queries");
    assert_eq!(got["result"]["messages"][0]["role"], "system");
    assert_eq!(got["result"]["messages"][0]["content"]["type"], "text");
    assert_eq!(
        got["result"]["messages"][0]["content"]["text"],
        "You are a time query assistant. Help the user with their time-related question: 'When is noon in Tokyo?'. Current UTC time: 2023-01-01T12:00:00+00:00. You have access to comprehensive timezone conversion and time formatting tools."
    );

    let general = parsed(&McpHandlers::handle_prompts_get(Json::Int(1), Some(bag(&[("name", "time_query_assistant")]))));
    assert!(general["result"]["messages"][0]["content"]["text"]
        .as_str()
        .unwrap()
        .contains("question: 'general time query'. Current UTC time: "));
}

#[test]
fn test_prompts_get_failures() {
    let nameless = parsed(&McpHandlers::handle_prompts_get(Json::Int(1), None));
    assert_eq!(nameless["error"]["code"], -32602);
    assert_eq!(nameless["error"]["message"], "Missing prompt name");
    let unknown = parsed(&McpHandlers::handle_prompts_get(Json::Int(1), Some(bag(&[("name", "poem")]))));
    assert_eq!(unknown["error"]["code"], -32602);
    assert_eq!(unknown["error"]["message"], "Unknown prompt");
    let error = TimeToolsHandler::new().get_prompt("poem", None).unwrap_err();
    assert_eq!(error.kind, ToolErrorKind::UnknownPrompt);
    assert_eq!(error.message, "Unknown prompt: poem");
}

#[test]
fn test_error_constructors_carry_their_codes() {
    let errors = [
        (JsonRpcError::parse_error(), -32700, "Parse error"),
        (JsonRpcError::invalid_request(), -32600, "Invalid Request"),
        (JsonRpcError::method_not_found(), -32601, "Method not found"),
        (JsonRpcError::invalid_params(), -32602, "Invalid params"),
        (JsonRpcError::internal_error(), -32603, "Internal error"),
        (JsonRpcError::invalid_timezone(), -32000, "Invalid timezone"),
        (JsonRpcError::invalid_timestamp(), -32001, "Invalid timestamp format"),
        (JsonRpcError::timezone_conversion_error(), -32002, "Timezone conversion error"),
    ];
    for (error, code, message) in errors {
        assert_eq!(error.code, code);
        assert_eq!(error.message, message);
        assert!(error.data.is_none());
        assert_eq!(parsed(&error.to_json())["code"], code);
    }
    let with_data = JsonRpcError { code: 1, message: "m".to_string(), data: Some(Json::Int(2)) };
    assert_eq!(with_data.to_json().to_text(), "{\"code\":1,\"data\":2,\"message\":\"m\"}");
}

#[test]
fn test_decode_tells_requests_from_notifications() {
    let decoded = Message::decode(&request(Json::Int(1), "tools/list", Some(Json::Null))).unwrap().unwrap();
    match decoded {
        Message::JsonRpc(JsonRpcMessage::Request(request)) => {
            assert_eq!(request.id, Json::Int(1));
            assert_eq!(request.method, "tools/list");
            assert!(request.params.is_none());
        }
        other => panic!("expected a request, not {:?}", other),
    }
    let decoded = Message::decode(&bag(&[("method", "initialized")])).unwrap().unwrap();
    assert!(matches!(decoded, Message::JsonRpc(JsonRpcMessage::Notification(_))));
    assert_eq!(Message::decode(&JsonObject::new().with_int("id", 5).into_json()).unwrap_err(), Json::Int(5));
    assert!(Message::decode(&Json::Null).unwrap().is_none());
}

#[test]
fn test_responses_on_the_wire() {
    let success = Response::success(Json::Int(1), bag(&[("ok", "yes")]));
    assert_eq!(success.to_json().to_text(), "{\"id\":1,\"jsonrpc\":\"2.0\",\"result\":{\"ok\":\"yes\"}}");
    let failure = Response::failure(Json::Int(1), JsonRpcError::invalid_params());
    assert_eq!(
        failure.to_json().to_text(),
        "{\"error\":{\"code\":-32602,\"message\":\"Invalid params\"},\"id\":1,\"jsonrpc\":\"2.0\"}"
    );
}

#[test]
fn test_server_answers_requests_and_lets_notifications_pass() {
    let incoming = vec![
        Ok(Some(Message::JsonRpc(JsonRpcMessage::Request(Request {
            id: Json::Int(1),
            method: "initialize".to_string(),
            params: Some(bag(&[("protocolVersion", "2025-06-18")])),
        })))),
        Ok(Some(Message::JsonRpc(JsonRpcMessage::Notification(Notification {
            method: "no/such/method".to_string(),
            params: None,
        })))),
        Ok(Some(Message::JsonRpc(JsonRpcMessage::Response(Response::success(Json::Int(8), Json::Null))))),
        Ok(Some(Message::JsonRpc(JsonRpcMessage::Request(Request {
            id: Json::string("two"),
            method: "no/such/method".to_string(),
            params: None,
        })))),
    ];
    let transport = Scripted { incoming, sent: vec![], refuse_sends: false };
    let mut server = McpServer::new(transport);
    let mut rounds = 0;
    loop {
        let served = server.serve_next();
        if !served.goes_on() {
            assert!(matches!(served, Served::Closed));
            break;
        }
        assert!(matches!(served, Served::Handled));
        rounds += 1;
    }
    assert_eq!(rounds, 4);

    let request = Request { id: Json::Int(3), method: "tools/list".to_string(), params: None };
    let response = server.handle_request(request);
    assert_eq!(response.id, Json::Int(3));
    assert!(response.result.is_some() && response.error.is_none());
    let reply = server.reply_at(
        Message::JsonRpc(JsonRpcMessage::Notification(Notification { method: "tools/list".to_string(), params: None })),
        &at(0),
    );
    assert!(reply.is_none());
    let reply = server
        .reply_at(
            Message::JsonRpc(JsonRpcMessage::Request(Request {
                id: Json::Int(4),
                method: "resources/read".to_string(),
                params: None,
            })),
            &at(0),
        )
        .unwrap();
    assert_eq!(reply.id, Json::Int(4));
    assert!(reply.result.is_none());
    assert_eq!(reply.error.unwrap().code, -32602);
}

#[test]
fn test_server_stops_when_the_transport_fails_to_receive() {
    let incoming = vec![
        Ok(Some(Message::JsonRpc(JsonRpcMessage::Request(Request {
            id: Json::Int(1),
            method: "tools/list".to_string(),
            params: None,
        })))),
        Err(TransportError { message: "broken pipe".to_string() }),
    ];
    let mut server = McpServer::new(Scripted { incoming, sent: vec![], refuse_sends: true });
    let first = server.serve_next();
    assert!(matches!(first, Served::SendFailed(_)));
    assert!(first.goes_on());
    let second = server.serve_next();
    assert!(matches!(second, Served::ReceiveFailed(_)));
    assert!(!second.goes_on());
}

#[test]
fn test_queueing_transport_routes() {
    assert_eq!(HttpTransport::route("POST", "/mcp/tools/call"), Route::Enqueue);
    assert_eq!(HttpTransport::route("GET", "/mcp/capabilities"), Route::Capabilities);
    assert_eq!(HttpTransport::route("GET", "/mcp/tools/call"), Route::NotFound);
    assert_eq!(HttpTransport::route("POST", "/mcp/capabilities"), Route::NotFound);
    assert_eq!(HttpTransport::route("post", "/mcp/tools/call"), Route::NotFound);
    assert_eq!(HttpTransport::route("GET", "/"), Route::NotFound);
    assert_eq!(parsed(&HttpTransport::capabilities())["protocolVersion"], "2025-03-26");
}

#[test]
fn test_queueing_transport_answers() {
    let cases = [
        (Route::Enqueue, Posted::Queued, 200, true, "{\"status\": \"queued\"}"),
        (Route::Enqueue, Posted::Unreadable, 400, false, "Failed to read body"),
        (Route::Enqueue, Posted::NotUtf8, 400, false, "Invalid UTF-8"),
        (Route::Enqueue, Posted::NotJson, 400, false, "Invalid JSON"),
        (Route::NotFound, Posted::Queued, 404, false, "Not Found"),
        (Route::NotFound, Posted::NotJson, 404, false, "Not Found"),
    ];
    for (route, posted, status, json, body) in cases {
        let answer = HttpTransport::answer(route, posted);
        assert_eq!((answer.status, answer.json, answer.body.as_str()), (status, json, body));
    }
    let capabilities = HttpTransport::answer(Route::Capabilities, Posted::Unreadable);
    assert_eq!((capabilities.status, capabilities.json), (200, true));
    assert_eq!(capabilities.body, HttpTransport::capabilities().to_text());
}

#[test]
fn test_text_is_what_serde_json_writes() {
    let documents = [
        McpHandlers::handle_tools_list(Json::Int(1)),
        McpHandlers::handle_initialize(Json::string("a\"b"), None),
        McpHandlers::handle_resources_list(Json::Null),
        McpHandlers::handle_prompts_list(Json::Int(-3)),
        McpHandlers::handle_resources_read(Json::Int(1), Some(bag(&[("uri", "time_formats")]))),
        McpHandlers::handle_tools_call_at(
            Json::Int(1),
            Some(JsonObject::new().with_str("name", "get_timezone_info").with("arguments", bag(&[("timezone", "Asia/Tokyo")])).into_json()),
            &at(0),
        ),
        McpHandlers::handle_tools_call(Json::Int(1), None),
    ];
    for document in documents {
        let text = document.to_text();
        let value: Value = serde_json::from_str(&text).unwrap();
        assert_eq!(value.to_string(), text);
    }
}

#[test]
fn test_blank_lines_carry_no_message() {
    for line in ["", " ", "\n", " \t\r\n", "\u{a0}\u{2003}\n"] {
        assert!(StdioHandler::is_blank(line), "for {:?}", line);
        assert_eq!(StdioHandler::is_blank(line), line.trim().is_empty());
    }
    for line in ["{}", " {} \n", "\n.\n", "0", "\u{200b}"] {
        assert!(!StdioHandler::is_blank(line), "for {:?}", line);
        assert_eq!(StdioHandler::is_blank(line), line.trim().is_empty());
    }
}

#[test]
fn test_serve_decides_by_what_was_received() {
    let mut server = McpServer::new(Scripted { incoming: vec![], sent: vec![], refuse_sends: true });
    assert!(matches!(server.serve(Ok(None)), Served::Closed));
    let failed = server.serve(Err(TransportError { message: "reset".to_string() }));
    assert!(matches!(failed, Served::ReceiveFailed(ref e) if e.message == "reset"));
    let notification = Message::JsonRpc(JsonRpcMessage::Notification(Notification {
        method: "initialized".to_string(),
        params: None,
    }));
    assert!(matches!(server.serve(Ok(Some(notification))), Served::Handled));
    let request = Message::JsonRpc(JsonRpcMessage::Request(Request {
        id: Json::Int(1),
        method: "initialize".to_string(),
        params: None,
    }));
    assert!(matches!(server.serve(Ok(Some(request))), Served::SendFailed(_)));
}

#[test]
fn test_lines_are_decoded_and_answered() {
    let now = at(1_672_574_400);
    assert_eq!(StdioHandler::handle_line_at("", &now), Line::Blank);
    assert_eq!(StdioHandler::handle_line_at("  \r\n", &now), Line::Blank);
    for malformed in ["{", "not json\n", "{\"id\":1,}", "{} {}", "[1,2", "\"open"] {
        assert_eq!(StdioHandler::handle_line_at(malformed, &now), Line::Malformed, "for {:?}", malformed);
    }
    for silent in [
        "{\"jsonrpc\":\"2.0\",\"method\":\"initialized\"}\n",
        "{\"method\":\"no/such\",\"params\":{\"a\":[1,2,{\"b\":null}]}}",
        "null",
        "[]",
        "17",
        "\"text\"",
    ] {
        assert_eq!(StdioHandler::handle_line_at(silent, &now), Line::Silent, "for {:?}", silent);
    }
    let line = " {\"jsonrpc\": \"2.0\", \"id\": 7, \"method\": \"tools/call\", \"params\": {\"name\": \"format_time\", \"arguments\": {\"timestamp\": \"0\", \"format\": \"rfc3339\", \"timezone\": \"Asia/Tokyo\"}}}\n";
    assert_eq!(
        StdioHandler::handle_line_at(line, &now),
        Line::Reply(
            "{\"id\":7,\"jsonrpc\":\"2.0\",\"result\":{\"content\":[{\"text\":\"{\\\"formatted\\\":\\\"1970-01-01T09:00:00+09:00\\\",\\\"timezone\\\":\\\"Asia/Tokyo\\\"}\",\"type\":\"text\"}]}}"
                .to_string()
        )
    );
    let echoed = StdioHandler::handle_line_at("{\"id\":{\"k\":[1.5,\"x\",18446744073709551615]},\"method\":\"ping\"}", &now);
    assert_eq!(
        echoed,
        Line::Reply(
            "{\"error\":{\"code\":-32601,\"message\":\"Method not found\"},\"id\":{\"k\":[1.5,\"x\",18446744073709551615]},\"jsonrpc\":\"2.0\"}"
                .to_string()
        )
    );
    assert!(matches!(StdioHandler::handle_line("{\"id\":1,\"method\":\"tools/list\"}"), Line::Reply(_)));
}

#[test]
fn test_json_parse_reads_what_serde_json_reads() {
    let texts = [
        "null", "true", "false", "0", "-12", "9223372036854775807", "9223372036854775808", "1.5", "1e3", "-0.0",
        "\"\"", "\"a\\\"b\\n\\u00e9\"", "[]", "{}", "[1,[2,[3,[]]],{\"a\":{\"b\":[null]}}]",
        " { \"b\" : 1 , \"a\" : [ true ] } ", "{\"a\":1,\"a\":2}",
    ];
    for text in texts {
        let document = Json::parse(text).unwrap();
        let value: Value = serde_json::from_str(text).unwrap();
        assert_eq!(document.to_text(), value.to_string(), "for {:?}", text);
    }
    for text in ["", " ", "{", "}", "[1,]", "{\"a\"}", "nul", "01", "1 2", "'a'", "\"\\x\"", "NaN"] {
        assert!(Json::parse(text).is_none(), "for {:?}", text);
    }
    assert_eq!(Json::parse("7"), Some(Json::Int(7)));
    assert_eq!(Json::parse("7.0"), Some(Json::Real("7.0".to_string())));
    assert_eq!(Json::parse("\"7\""), Some(Json::string("7")));
    assert_eq!(Json::parse("{\"k\":\"v\"}").unwrap().get_str("k"), Some("v"));
    assert_eq!(Json::parse_within("[[1]]", 2), Some(Json::Array(vec![Json::Array(vec![Json::Int(1)])])));
    assert_eq!(Json::parse_within("[[1]]", 1), None);
    assert_eq!(Json::parse_within("[]", 0), None);
    assert_eq!(Json::parse_within("1", 0), Some(Json::Int(1)));
    let deep = format!("{}{}", "[".repeat(100), "]".repeat(100));
    assert!(Json::parse(&deep).is_some());
    let too_deep = format!("{}{}", "[".repeat(200), "]".repeat(200));
    assert!(Json::parse(&too_deep).is_none());
}

#[test]
fn test_json_parse_follows_nesting_as_far_as_serde_json() {
    for levels in [1, 2, 64, 126, 127, 128, 129, 130, 256] {
        let arrays = format!("{}{}", "[".repeat(levels), "]".repeat(levels));
        let accepted = serde_json::from_str::<Value>(&arrays).is_ok();
        assert_eq!(Json::parse(&arrays).is_some(), accepted, "for {} arrays", levels);
        let objects = format!("{}1{}", "{\"a\":".repeat(levels), "}".repeat(levels));
        let accepted = serde_json::from_str::<Value>(&objects).is_ok();
        assert_eq!(Json::parse(&objects).is_some(), accepted, "for {} objects", levels);
    }
}
