use argo::error::{McpError, Span, ToolError};
use argo::mcp::{
    next_reconnect_delay, rpc_result, AuthManager, AuthStep, JsonRpcError, JsonRpcRequest, JsonRpcResponse, McpAuth,
    McpConnector, McpContent, McpTool, McpToolResult, McpToolWrapper, TokenReply,
};

fn oauth() -> McpAuth {
    McpAuth::OAuth2 {
        client_id: "id".to_string(),
        client_secret: None,
        token_url: "https://example.com/token".to_string(),
        scopes: None,
    }
}

#[test]
fn test_auth_none() {
    let manager = AuthManager::new(McpAuth::NoAuth);
    assert!(manager.cached_token.is_none());
    assert!(manager.token_expiry_ms.is_none());
}

#[test]
fn test_bearer_auth() {
    let manager = AuthManager::new(McpAuth::Bearer { token: "test-token".to_string() });
    assert!(manager.cached_token.is_none());
    assert!(matches!(manager.auth_step(0), AuthStep::Header(ref h) if h == "Bearer test-token"));
}

#[test]
fn test_token_validity_expired() {
    let mut manager = AuthManager::new(oauth());
    manager.cached_token = Some("token".to_string());
    manager.token_expiry_ms = Some(chrono::Utc::now().timestamp_millis() - 3_600_000);
    assert!(!manager.is_token_valid());
}

#[test]
fn test_token_validity_valid() {
    let mut manager = AuthManager::new(oauth());
    manager.cached_token = Some("token".to_string());
    manager.token_expiry_ms = Some(chrono::Utc::now().timestamp_millis() + 3_600_000);
    assert!(manager.is_token_valid());
}

#[test]
fn oauth_token_flow() {
    let mut manager = AuthManager::new(McpAuth::OAuth2 {
        client_id: "id".to_string(),
        client_secret: Some("s3".to_string()),
        token_url: "https://example.com/token".to_string(),
        scopes: Some(vec!["read".to_string(), "write".to_string()]),
    });
    assert!(matches!(manager.auth_step(1000), AuthStep::Refresh));
    let request = manager.token_request().unwrap();
    assert_eq!(request.token_url, "https://example.com/token");
    let params: Vec<(&str, &str)> = request.params.iter().map(|(k, v)| (k.as_str(), v.as_str())).collect();
    assert_eq!(
        params,
        vec![("grant_type", "client_credentials"), ("client_id", "id"), ("client_secret", "s3"), ("scope", "read write")]
    );
    let refused = manager.apply_token_reply(
        1000,
        TokenReply {
            success: false,
            status_text: "400 Bad Request".to_string(),
            error_text: None,
            access_token: None,
            expires_in: None,
        },
    );
    match refused {
        Err(McpError::OAuth2Error { reason }) => {
            assert_eq!(reason, "Token request failed with status 400 Bad Request: unknown error")
        }
        _ => panic!("expected an OAuth2 error"),
    }
    let ok = manager.apply_token_reply(
        1000,
        TokenReply {
            success: true,
            status_text: "200 OK".to_string(),
            error_text: None,
            access_token: Some("tok".to_string()),
            expires_in: None,
        },
    );
    assert!(ok.is_ok());
    assert_eq!(manager.token_expiry_ms, Some(1000 + 3_600_000));
    assert!(matches!(manager.auth_step(2000), AuthStep::Header(ref h) if h == "Bearer tok"));
    assert!(matches!(manager.auth_step(1000 + 3_600_000), AuthStep::Refresh));
    assert!(AuthManager::new(McpAuth::NoAuth).token_request().is_none());
}

#[test]
fn test_mcp_connector_creation() {
    let connector = McpConnector::new("https://example.com/mcp", McpAuth::Bearer { token: "test".to_string() });
    assert_eq!(connector.server_url(), "https://example.com/mcp");
    assert_eq!(connector.reconnect_delay(), Span::from_secs(1));
    assert_eq!(connector.max_reconnect_delay(), Span::from_secs(60));
    assert!(!connector.is_connected());
}

#[test]
fn test_json_rpc_request() {
    let req = JsonRpcRequest::new(1, "tools/list", None);
    assert_eq!(req.jsonrpc, "2.0");
    assert_eq!(req.method, "tools/list");
    assert!(req.params.is_none());
}

fn empty_schema() -> serde_json::Value {
    serde_json::Value::Object(serde_json::Map::new())
}

#[test]
fn test_mcp_tool_wrapper_name() {
    let tool = McpTool { name: "test_tool".to_string(), description: "A test tool".to_string(), input_schema: empty_schema() };
    let connector = McpConnector::new("http://localhost", McpAuth::NoAuth);
    let wrapper = McpToolWrapper::new(connector, tool, "test_server");
    assert_eq!(wrapper.name(), "test_tool");
    assert_eq!(wrapper.description(), "A test tool");
    assert_eq!(wrapper.input_schema(), empty_schema());
    let p = wrapper.permissions();
    assert!(p.allow_network && !p.allow_filesystem && !p.allow_subprocess);
    assert_eq!(p.max_execution_time, Span::from_secs(30));
}

#[test]
fn request_ids_count_up() {
    let mut connector = McpConnector::new("http://localhost", McpAuth::NoAuth);
    assert_eq!(connector.next_request_id(), 1);
    let req = connector.build_request("initialize", None);
    assert_eq!(req.id, 2);
    assert_eq!(connector.next_request_id(), 3);
    connector.mark_connected();
    assert!(connector.is_connected());
}

#[test]
fn rpc_responses_are_read() {
    let err = rpc_result(JsonRpcResponse {
        id: Some(1),
        result: None,
        error: Some(JsonRpcError { code: -32601, message: "Method not found".to_string() }),
    });
    match err {
        Err(McpError::ProtocolError { reason }) => assert_eq!(reason, "JSON-RPC error -32601: Method not found"),
        _ => panic!("expected a protocol error"),
    }
    let none = rpc_result(JsonRpcResponse { id: Some(1), result: None, error: None });
    assert_eq!(none.unwrap_err().to_string(), "Protocol error: No result in response");
    let ok = rpc_result(JsonRpcResponse { id: Some(1), result: Some(serde_json::Value::Bool(true)), error: None });
    assert_eq!(ok.unwrap(), serde_json::Value::Bool(true));
}

#[test]
fn reconnect_waits_double_up_to_the_cap() {
    let connector = McpConnector::new("http://localhost", McpAuth::NoAuth);
    let mut r = connector.reconnection();
    let mut waits = vec![];
    while let Some(w) = r.next_wait() {
        waits.push(w.secs);
        r.failed();
    }
    assert_eq!(waits, vec![1, 2, 4, 8, 16, 32, 60, 60, 60, 60]);
    assert_eq!(
        next_reconnect_delay(Span { secs: 0, nanos: 600_000_000 }, Span::from_secs(60)),
        Span { secs: 1, nanos: 200_000_000 }
    );
    match connector.reconnect_failed() {
        McpError::ConnectionFailed { server, reason } => {
            assert_eq!(server, "http://localhost");
            assert_eq!(reason, "Failed to reconnect after 10 attempts");
        }
        _ => panic!("expected connection failure"),
    }
}

#[test]
fn tool_results_become_output_or_errors() {
    let ok = McpToolWrapper::<()>::call_output(McpToolResult {
        content: vec![McpContent::Text { text: "hi".to_string() }],
        is_error: false,
    });
    assert_eq!(ok.unwrap().len(), 1);
    let failed = McpToolWrapper::<()>::call_output(McpToolResult {
        content: vec![
            McpContent::Text { text: "bad".to_string() },
            McpContent::Image { data: "x".to_string(), mime_type: "image/png".to_string() },
            McpContent::Text { text: "worse".to_string() },
        ],
        is_error: true,
    });
    match failed {
        Err(ToolError::ExecutionFailed { reason }) => assert_eq!(reason, "bad, worse"),
        _ => panic!("expected failure"),
    }
    let e = McpToolWrapper::<()>::call_failed(&McpError::Disconnected);
    assert_eq!(e.to_string(), "Execution failed: MCP tool call failed: Server disconnected");
}
