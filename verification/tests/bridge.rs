use kicad_gateway::bridge::{
    assert_loopback, interpret_response, text_eq_ignore_ascii_case, transport_failure,
    CoreBridgeConfig, CoreBridgeError, JsonRpcErrorBody, JsonRpcRequest, JsonRpcResponse,
    MCP_PROTOCOL_VERSION,
};
use kicad_gateway::config::Endpoint;
use kicad_gateway::error::CompanionError;
use kicad_gateway::time_model::Duration;

fn endpoint(url: &str) -> Endpoint {
    Endpoint::parse(url).expect("valid url")
}

#[test]
fn loopback_hosts_are_allowed() {
    for url in [
        "http://127.0.0.1:3334/mcp",
        "http://localhost:3334/mcp",
        "http://[::1]:3334/mcp",
        "http://LOCALHOST:3334/mcp",
        "http://127.8.9.10/mcp",
    ] {
        assert!(assert_loopback(&endpoint(url)).is_ok(), "{url}");
    }
}

#[test]
fn non_loopback_hosts_are_rejected() {
    for url in [
        "http://example.com/mcp",
        "http://192.168.1.5:3334/mcp",
        "http://8.8.8.8/mcp",
    ] {
        let result = assert_loopback(&endpoint(url));
        assert!(
            matches!(result, Err(CoreBridgeError::EndpointNotAllowed { .. })),
            "{url}"
        );
    }
}

#[test]
fn client_construction_rejects_non_loopback_endpoint() {
    let config = CoreBridgeConfig::new(endpoint("http://example.com/mcp"));
    assert_eq!(config.timeout, Duration::seconds(30));
    let result = assert_loopback(&config.endpoint);
    assert_eq!(
        result,
        Err(CoreBridgeError::EndpointNotAllowed {
            endpoint: "http://example.com/mcp".to_string()
        })
    );
}

#[test]
fn responses_are_interpreted_by_status_then_body() {
    assert_eq!(
        interpret_response(false, "500 Internal Server Error", Err("ignored".to_string())),
        Err(CoreBridgeError::ProtocolError(
            "http status 500 Internal Server Error".to_string()
        ))
    );
    assert_eq!(
        interpret_response(true, "200 OK", Err("expected value".to_string())),
        Err(CoreBridgeError::ProtocolError(
            "response body was not valid JSON-RPC: expected value".to_string()
        ))
    );
    let tool_error = JsonRpcResponse {
        result: None,
        error: Some(JsonRpcErrorBody {
            code: -32000,
            message: "boom".to_string(),
        }),
    };
    assert_eq!(
        interpret_response(true, "200 OK", Ok(tool_error)),
        Err(CoreBridgeError::ToolError {
            code: Some(-32000),
            message: "boom".to_string()
        })
    );
    let ok = JsonRpcResponse {
        result: Some(serde_json::Value::Bool(true)),
        error: None,
    };
    assert_eq!(
        interpret_response(true, "200 OK", Ok(ok)),
        Ok(serde_json::Value::Bool(true))
    );
    let empty = JsonRpcResponse {
        result: None,
        error: None,
    };
    assert_eq!(
        interpret_response(true, "200 OK", Ok(empty)),
        Err(CoreBridgeError::ProtocolError(
            "response had neither result nor error".to_string()
        ))
    );
}

#[test]
fn transport_failures_are_typed() {
    assert_eq!(transport_failure(true, "x".to_string()), CoreBridgeError::Timeout);
    assert_eq!(
        transport_failure(false, "connection refused".to_string()),
        CoreBridgeError::Unreachable("connection refused".to_string())
    );
    assert_eq!(CoreBridgeError::Timeout.code(), "CORE_TIMEOUT");
    assert_eq!(
        CoreBridgeError::Unreachable(String::new()).code(),
        "CORE_UNREACHABLE"
    );
}

#[test]
fn requests_are_json_rpc_two() {
    let request = JsonRpcRequest::new("init-1", "initialize", serde_json::Value::Null);
    assert_eq!(request.jsonrpc, "2.0");
    assert_eq!(request.id, "init-1");
    assert_eq!(request.method, "initialize");
    assert_eq!(MCP_PROTOCOL_VERSION, "2025-11-25");
}

#[test]
fn ascii_case_is_ignored_only_for_ascii_letters() {
    assert!(text_eq_ignore_ascii_case("LocalHost", "localhost"));
    assert!(!text_eq_ignore_ascii_case("localhosts", "localhost"));
    assert!(!text_eq_ignore_ascii_case("ß", "SS"));
}
