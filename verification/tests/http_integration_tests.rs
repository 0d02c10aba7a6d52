use time_mcp_server::calendar::Instant;
use time_mcp_server::config::{ServerConfig, TransportType};
use time_mcp_server::handlers::http::HttpHandler;
use time_mcp_server::json::{Json, JsonObject};
use time_mcp_server::models::McpRequest;

fn endpoints(auth_enabled: bool) -> HttpHandler {
    HttpHandler::new(ServerConfig {
        transport: TransportType::Http { host: "127.0.0.1".to_string(), port: 0 },
        host: "127.0.0.1".to_string(),
        port: 0,
        auth_enabled,
    })
}

fn parsed(body: &Json) -> serde_json::Value {
    serde_json::from_str(&body.to_text()).expect("Failed to parse json")
}

#[test]
fn test_http_server_starts_and_responds() {
    let body = HttpHandler::health_check_at(&Instant::now());
    let json = parsed(&body);
    assert_eq!(json["status"], "healthy");
}

#[test]
fn test_http_get_capabilities() {
    let handler = endpoints(false);
    let result = handler.get_capabilities_at(None, &Instant::now());
    assert!(result.is_ok());
    let json = parsed(&result.unwrap());
    assert!(json["protocolVersion"].is_string());
}

#[test]
fn test_http_call_tool() {
    let handler = endpoints(false);
    let request = McpRequest {
        name: Some("get_current_time".to_string()),
        arguments: Some(JsonObject::new().with_str("timezone", "UTC").into_json()),
        uri: None,
    };
    let result = handler.call_tool_at(None, &request, &Instant::now());
    assert!(result.is_ok());
    let json = parsed(&result.unwrap());
    assert!(json["content"][0]["text"].is_string());
}

#[test]
fn test_http_read_resource() {
    let handler = endpoints(false);
    let request =
        McpRequest { name: None, arguments: None, uri: Some("timezone_database".to_string()) };
    let result = handler.read_resource_at(None, &request, &Instant::now());
    assert!(result.is_ok());
    let json = parsed(&result.unwrap());
    assert!(json["contents"].is_array());
    assert!(json["contents"][0]["text"].is_string());
}

#[test]
fn test_http_get_prompt() {
    let handler = endpoints(false);
    let request =
        McpRequest { name: Some("time_query_assistant".to_string()), arguments: None, uri: None };
    let result = handler.get_prompt_at(None, &request, &Instant::now());
    assert!(result.is_ok());
    let json = parsed(&result.unwrap());
    assert_eq!(json["description"], "Assistant for time-related queries");
}

#[test]
fn test_http_auth_required() {
    let handler = endpoints(true);
    let result = handler.get_capabilities_at(None, &Instant::now());
    assert_eq!(result.unwrap_err(), 401);
}
