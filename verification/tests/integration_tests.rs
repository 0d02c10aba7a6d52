use time_mcp_server::handlers::stdio::StdioHandler;
use time_mcp_server::json::{Json, JsonObject};

fn call(id: i64, tool: &str, arguments: Json) -> Json {
    JsonObject::new()
        .with_str("jsonrpc", "2.0")
        .with_str("method", "tools/call")
        .with(
            "params",
            JsonObject::new().with_str("name", tool).with("arguments", arguments).into_json(),
        )
        .with_int("id", id)
        .into_json()
}

fn bag(pairs: &[(&str, &str)]) -> Json {
    let mut object = JsonObject::new();
    for (key, value) in pairs {
        object = object.with_str(key, value);
    }
    object.into_json()
}

#[test]
fn test_stdio_get_current_time() {
    let request = call(1, "get_current_time", JsonObject::new().into_json());

    let line = StdioHandler::respond_line(&request).unwrap();
    let response: serde_json::Value = serde_json::from_str(&line).unwrap();

    assert_eq!(response["jsonrpc"], "2.0");
    assert_eq!(response["id"], 1);
    assert!(response["result"]["content"][0]["text"].is_string());
}

#[test]
fn test_stdio_all_tools() {
    let tools = [
        ("get_current_time", bag(&[("timezone", "UTC")])),
        (
            "convert_timezone",
            bag(&[
                ("timestamp", "2025-08-17T10:30:00Z"),
                ("from_timezone", "UTC"),
                ("to_timezone", "America/New_York"),
            ]),
        ),
        (
            "calculate_duration",
            bag(&[
                ("start_time", "2025-08-17T10:00:00Z"),
                ("end_time", "2025-08-17T11:00:00Z"),
                ("units", "hours"),
            ]),
        ),
        ("format_time", bag(&[("timestamp", "2025-08-17T10:30:00Z"), ("format", "iso8601")])),
        ("get_timezone_info", bag(&[("timezone", "America/New_York")])),
        ("list_timezones", bag(&[("region", "America")])),
    ];

    for (tool_name, args) in tools {
        let request = call(1, tool_name, args);

        let line = StdioHandler::respond_line(&request).unwrap();
        let response: serde_json::Value = serde_json::from_str(&line).unwrap();

        assert_eq!(response["jsonrpc"], "2.0", "Tool {} failed", tool_name);
        assert_eq!(response["id"], 1);
        assert!(
            response["result"]["content"][0]["text"].is_string(),
            "Tool {} response invalid",
            tool_name
        );
    }
}
