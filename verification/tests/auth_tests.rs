use time_mcp_server::auth::AuthManager;
use time_mcp_server::calendar::Instant;
use time_mcp_server::config::{ConfigError, Matches, ServerConfig, TransportType};
use time_mcp_server::handlers::http::HttpHandler;
use time_mcp_server::json::{Json, JsonObject};
use time_mcp_server::models::{McpError, McpRequest, McpResponse, TokenInfo};
use time_mcp_server::tools::{ToolError, ToolErrorKind};

fn at(secs: i64) -> Instant {
    Instant::from_unix(secs).unwrap()
}

fn token(expires_at: i64) -> TokenInfo {
    TokenInfo { user_id: "user".to_string(), scopes: vec!["read".to_string()], expires_at: at(expires_at) }
}

fn message(result: Result<(), McpError>) -> String {
    let error = result.unwrap_err();
    assert_eq!(error.code, 401);
    error.message
}

fn endpoints(auth_enabled: bool) -> HttpHandler {
    HttpHandler::new(ServerConfig {
        transport: TransportType::Stdio,
        host: "localhost".to_string(),
        port: 8080,
        auth_enabled,
    })
}

#[test]
fn test_disabled_guard_lets_everything_pass() {
    let mut auth = AuthManager::new(false);
    auth.add_token("t".to_string(), token(10));
    for header in [None, Some(""), Some("Basic abc"), Some("Bearer "), Some("Bearer t"), Some("Bearer unknown")] {
        assert!(auth.authenticate_at(header, &at(1_000)).is_ok());
    }
}

#[test]
fn test_enabled_guard_gives_each_refusal_its_own_message() {
    let mut auth = AuthManager::new(true);
    auth.add_token("fresh".to_string(), token(2_000));
    auth.add_token("stale".to_string(), token(500));
    let now = at(1_000);

    assert!(auth.authenticate_at(Some("Bearer fresh"), &now).is_ok());
    let refusals = [
        message(auth.authenticate_at(None, &now)),
        message(auth.authenticate_at(Some("Basic fresh"), &now)),
        message(auth.authenticate_at(Some("Bearer nobody"), &now)),
        message(auth.authenticate_at(Some("Bearer stale"), &now)),
    ];
    assert_eq!(
        refusals,
        ["Authorization header required", "Invalid authorization format", "Invalid token", "Token expired"]
    );
    for (i, a) in refusals.iter().enumerate() {
        for b in refusals.iter().skip(i + 1) {
            assert_ne!(a, b);
        }
    }
}

#[test]
fn test_bearer_scheme_is_matched_letter_for_letter() {
    let mut auth = AuthManager::new(true);
    auth.add_token("t".to_string(), token(2_000));
    auth.add_token("".to_string(), token(2_000));
    auth.add_token("t t".to_string(), token(2_000));
    let now = at(1_000);
    assert!(auth.authenticate_at(Some("Bearer t"), &now).is_ok());
    assert!(auth.authenticate_at(Some("Bearer "), &now).is_ok());
    assert!(auth.authenticate_at(Some("Bearer t t"), &now).is_ok());
    assert_eq!(message(auth.authenticate_at(Some("bearer t"), &now)), "Invalid authorization format");
    assert_eq!(message(auth.authenticate_at(Some("Bearer"), &now)), "Invalid authorization format");
    assert_eq!(message(auth.authenticate_at(Some(" Bearer t"), &now)), "Invalid authorization format");
    assert_eq!(message(auth.authenticate_at(Some("Bearer  t"), &now)), "Invalid token");
    assert_eq!(message(auth.authenticate_at(Some("Bearer T"), &now)), "Invalid token");
}

#[test]
fn test_a_token_expires_at_the_instant_of_its_expiry() {
    let mut auth = AuthManager::new(true);
    auth.add_token("t".to_string(), token(1_000));
    assert!(auth.authenticate_at(Some("Bearer t"), &at(999)).is_ok());
    assert_eq!(message(auth.authenticate_at(Some("Bearer t"), &at(1_000))), "Token expired");
    assert_eq!(message(auth.authenticate_at(Some("Bearer t"), &at(1_001))), "Token expired");
    assert!(!token(1_000).is_expired_at(&at(999)));
    assert!(token(1_000).is_expired_at(&at(1_000)));
}

#[test]
fn test_adding_a_token_again_replaces_what_was_known() {
    let mut auth = AuthManager::new(true);
    auth.add_token("t".to_string(), token(500));
    auth.add_token("other".to_string(), token(5_000));
    assert_eq!(message(auth.authenticate_at(Some("Bearer t"), &at(1_000))), "Token expired");
    auth.add_token("t".to_string(), token(2_000));
    assert!(auth.authenticate_at(Some("Bearer t"), &at(1_000)).is_ok());
    assert!(auth.authenticate_at(Some("Bearer other"), &at(1_000)).is_ok());
    auth.add_token("t".to_string(), token(100));
    assert_eq!(message(auth.authenticate_at(Some("Bearer t"), &at(1_000))), "Token expired");
}

#[test]
fn test_sweep_takes_out_expired_tokens_only() {
    let mut auth = AuthManager::new(true);
    for (name, expiry) in [("a", 100), ("b", 2_000), ("c", 1_000), ("d", 1_001), ("e", 50)] {
        auth.add_token(name.to_string(), token(expiry));
    }
    auth.remove_expired_tokens_at(&at(1_000));
    let later = at(1_000);
    assert_eq!(message(auth.authenticate_at(Some("Bearer a"), &later)), "Invalid token");
    assert!(auth.authenticate_at(Some("Bearer b"), &later).is_ok());
    assert_eq!(message(auth.authenticate_at(Some("Bearer c"), &later)), "Invalid token");
    assert!(auth.authenticate_at(Some("Bearer d"), &later).is_ok());
    assert_eq!(message(auth.authenticate_at(Some("Bearer e"), &later)), "Invalid token");
    auth.remove_expired_tokens_at(&at(5_000));
    assert_eq!(message(auth.authenticate_at(Some("Bearer b"), &at(0))), "Invalid token");
}

#[test]
fn test_endpoints_stand_behind_the_guard() {
    let mut handler = endpoints(true);
    handler.add_token("key".to_string(), token(2_000));
    let now = at(1_000);
    let tool = McpRequest { name: Some("list_timezones".to_string()), arguments: None, uri: None };
    let resource = McpRequest { name: None, arguments: None, uri: Some("time_formats".to_string()) };
    let prompt = McpRequest { name: Some("time_query_assistant".to_string()), arguments: None, uri: None };

    for header in [None, Some("Basic key"), Some("Bearer wrong")] {
        assert_eq!(handler.get_capabilities_at(header, &now).unwrap_err(), 401);
        assert_eq!(handler.call_tool_at(header, &tool, &now).unwrap_err(), 401);
        assert_eq!(handler.read_resource_at(header, &resource, &now).unwrap_err(), 401);
        assert_eq!(handler.get_prompt_at(header, &prompt, &now).unwrap_err(), 401);
    }
    assert!(handler.get_capabilities_at(Some("Bearer key"), &now).is_ok());
    assert!(handler.call_tool_at(Some("Bearer key"), &tool, &now).is_ok());
    assert!(handler.read_resource_at(Some("Bearer key"), &resource, &now).is_ok());
    assert!(handler.get_prompt_at(Some("Bearer key"), &prompt, &now).is_ok());
    assert_eq!(handler.get_capabilities_at(Some("Bearer key"), &at(2_000)).unwrap_err(), 401);
}

#[test]
fn test_endpoints_answer_bad_requests_with_their_status() {
    let handler = endpoints(false);
    let now = at(1_672_574_400);
    let empty = McpRequest { name: None, arguments: None, uri: None };
    assert_eq!(handler.call_tool_at(None, &empty, &now).unwrap_err(), 400);
    assert_eq!(handler.read_resource_at(None, &empty, &now).unwrap_err(), 400);
    assert_eq!(handler.get_prompt_at(None, &empty, &now).unwrap_err(), 400);

    let unknown = McpRequest { name: Some("nothing".to_string()), arguments: None, uri: Some("nothing".to_string()) };
    assert_eq!(handler.call_tool_at(None, &unknown, &now).unwrap_err(), 500);
    assert_eq!(handler.read_resource_at(None, &unknown, &now).unwrap_err(), 404);
    assert_eq!(handler.get_prompt_at(None, &unknown, &now).unwrap_err(), 404);

    let failing = McpRequest {
        name: Some("format_time".to_string()),
        arguments: Some(JsonObject::new().with_str("timestamp", "bad").with_str("format", "unix").into_json()),
        uri: None,
    };
    assert_eq!(handler.call_tool_at(None, &failing, &now).unwrap_err(), 500);

    let query = McpRequest {
        name: Some("time_query_assistant".to_string()),
        arguments: Some(JsonObject::new().with_str("user_query", "now?").into_json()),
        uri: None,
    };
    let prompt = handler.get_prompt_at(None, &query, &now).unwrap();
    assert!(prompt.to_text().contains("question: 'now?'. Current UTC time: 2023-01-01T12:00:00+00:00."));
    assert_eq!(
        HttpHandler::health_check_at(&now).to_text(),
        "{\"status\":\"healthy\",\"timestamp\":\"2023-01-01T12:00:00+00:00\",\"version\":\"1.0.0\"}"
    );
}

#[test]
fn test_settings_defaults_and_failures() {
    let none = Matches { transport: None, host: Some("h".to_string()), port: Some("1".to_string()) };
    let error = ServerConfig::from_matches(&none, Some("true")).unwrap_err();
    assert!(matches!(error, ConfigError::TransportRequired));
    assert_eq!(error.to_string(), "Transport type required");

    let odd = Matches { transport: Some("HTTP".to_string()), host: None, port: None };
    assert_eq!(ServerConfig::from_matches(&odd, None).unwrap_err().to_string(), "Invalid transport type: HTTP");

    for (port, expected) in [("3000", 3000), ("+80", 80), ("0", 0), ("65535", 65535), ("65536", 8080), ("-1", 8080), ("http", 8080), ("", 8080), ("80 ", 8080)] {
        let matches = Matches { transport: Some("http".to_string()), host: None, port: Some(port.to_string()) };
        let config = ServerConfig::from_matches(&matches, None).unwrap();
        assert_eq!(config.port, expected, "for {:?}", port);
        assert_eq!(config.host, "localhost");
        assert!(matches!(config.transport, TransportType::Http { ref host, port } if host == "localhost" && port == expected));
    }
    for (switch, expected) in [(None, false), (Some("true"), true), (Some("false"), false), (Some("TRUE"), false), (Some("1"), false), (Some(""), false)] {
        let matches = Matches { transport: Some("stdio".to_string()), host: None, port: None };
        assert_eq!(ServerConfig::from_matches(&matches, switch).unwrap().auth_enabled, expected);
    }
}

#[test]
fn test_envelopes_hold_a_result_or_an_error() {
    let success = McpResponse::success(Json::Int(1), Json::string("done"));
    assert_eq!(success.to_json().to_text(), "{\"id\":1,\"jsonrpc\":\"2.0\",\"result\":\"done\"}");
    let failure = McpResponse::<()>::error(Json::string("x"), McpError::method_not_found("Method not found"));
    assert_eq!(
        failure.to_json().to_text(),
        "{\"error\":{\"code\":-32601,\"message\":\"Method not found\"},\"id\":\"x\",\"jsonrpc\":\"2.0\"}"
    );
    let neither = McpResponse::<Json> { jsonrpc: "2.0".to_string(), id: Json::Int(1), result: None, error: None };
    assert_eq!(neither.to_json().to_text(), "{\"id\":1,\"jsonrpc\":\"2.0\"}");
    let converted: McpError = ToolError::new(ToolErrorKind::InvalidUnits, "Invalid units: eons".to_string()).into();
    assert_eq!((converted.code, converted.message.as_str()), (-32603, "Invalid units: eons"));
    for (code, status) in [(401, 401), (400, 400), (-32602, 400), (404, 404), (-32601, 404), (-32603, 500), (0, 500), (200, 500), (i32::MIN, 500)] {
        assert_eq!(McpError::new(code, "m").http_status(), status);
    }
}
