use argo::config::resolve_env_vars;
use argo::error::LlmError;
use argo::llm::{
    status_error, streaming_unavailable, AnthropicContent, AnthropicProvider, AnthropicResponse, AnthropicUsage,
    CompletionRequest, Message, MessageContent, OpenAiChoice, OpenAiProvider, OpenAiResponse, OpenAiUsage, Role,
    StopReason,
};
use argo::stamp::uuid_text;
use argo::text::has_text;

fn request(system: Option<&str>) -> CompletionRequest {
    CompletionRequest {
        messages: vec![
            Message { role: Role::User, content: MessageContent::Text("Hello".to_string()) },
            Message { role: Role::Tool, content: MessageContent::Text("{}".to_string()) },
            Message { role: Role::System, content: MessageContent::Text("rules".to_string()) },
        ],
        system_prompt: system.map(String::from),
        temperature_bits: Some(0.7f32.to_bits()),
        max_tokens: None,
        stop_sequences: None,
        tools: None,
    }
}

#[test]
fn statuses_map_to_provider_errors() {
    assert!(matches!(status_error(429, String::new()), Some(LlmError::RateLimited { retry_after_ms: 60000 })));
    assert!(matches!(status_error(401, String::new()), Some(LlmError::AuthenticationFailed { ref reason }) if reason == "Invalid API key"));
    match status_error(500, "boom".to_string()) {
        Some(LlmError::ProviderError { status, message }) => {
            assert_eq!(status, 500);
            assert_eq!(message, "boom");
        }
        _ => panic!("expected a provider error"),
    }
    assert!(status_error(200, String::new()).is_none());
    assert!(status_error(204, String::new()).is_none());
    assert!(matches!(streaming_unavailable(), LlmError::StreamingError { .. }));
}

#[test]
fn anthropic_request_body() {
    let p = AnthropicProvider::new("k".to_string(), "m1".to_string());
    let body = p.request_body(&request(Some("be brief")));
    assert_eq!(body.max_tokens, 8192);
    assert_eq!(body.system.as_deref(), Some("be brief"));
    let roles: Vec<&str> = body.messages.iter().map(|m| m.role.as_str()).collect();
    assert_eq!(roles, vec!["user", "user", "user"]);
    assert_eq!(body.messages[0].content, "Hello");
    assert_eq!(p.provider_name(), "anthropic");
    assert_eq!(p.context_limit(), 200_000);
    assert_eq!(p.max_output_tokens(), 8192);
}

fn block(kind: &str, text: Option<&str>, name: Option<&str>) -> AnthropicContent {
    AnthropicContent {
        content_type: kind.to_string(),
        text: text.map(String::from),
        id: name.map(|n| format!("id-{}", n)),
        name: name.map(String::from),
        input: serde_json::Value::Null,
    }
}

#[test]
fn anthropic_reply_is_read() {
    let p = AnthropicProvider::new("k".to_string(), "m1".to_string());
    let reply = AnthropicResponse {
        content: vec![
            block("text", Some("Hello "), None),
            block("tool_use", None, Some("bash")),
            block("image", Some("ignored"), None),
            block("text", Some("world"), None),
        ],
        usage: AnthropicUsage { input_tokens: 10, output_tokens: 5 },
        stop_reason: Some("tool_use".to_string()),
    };
    let r = p.completion_from(reply);
    assert_eq!(r.content, "Hello world");
    assert_eq!(r.tool_calls.len(), 1);
    assert_eq!(r.tool_calls[0].name, "bash");
    assert_eq!(r.tool_calls[0].id, "id-bash");
    assert_eq!(r.tool_calls[0].input, serde_json::Value::Null);
    assert_eq!(r.usage.total_tokens, 15);
    assert_eq!(r.stop_reason, StopReason::ToolUse);
    assert_eq!(r.model, "m1");
    let other = p.completion_from(AnthropicResponse {
        content: vec![],
        usage: AnthropicUsage { input_tokens: 0, output_tokens: 0 },
        stop_reason: Some("weird".to_string()),
    });
    assert_eq!(other.stop_reason, StopReason::EndTurn);
}

#[test]
fn openai_request_body() {
    let p = OpenAiProvider::new("key".to_string(), "gpt".to_string()).with_base_url("http://local/v1".to_string());
    assert_eq!(p.completions_url(), "http://local/v1/chat/completions");
    assert_eq!(p.authorization(), "Bearer key");
    let body = p.request_body(&request(Some("sys")));
    let roles: Vec<&str> = body.messages.iter().map(|m| m.role.as_str()).collect();
    assert_eq!(roles, vec!["system", "user", "assistant", "system"]);
    assert_eq!(body.messages[0].content.as_deref(), Some("sys"));
    assert_eq!(body.temperature_bits, Some(0.7f32.to_bits()));
    assert_eq!(p.request_body(&request(None)).messages.len(), 3);
    assert_eq!(p.context_limit(), 128_000);
    assert_eq!(p.max_output_tokens(), 16384);
}

#[test]
fn openai_reply_is_read() {
    let p = OpenAiProvider::new("key".to_string(), "gpt".to_string());
    let usage = OpenAiUsage { prompt_tokens: 3, completion_tokens: 4, total_tokens: 7 };
    let none = p.completion_from(OpenAiResponse { choices: vec![], usage });
    assert!(matches!(none, Err(LlmError::InvalidResponse { ref reason }) if reason == "No choices in response"));
    let r = p
        .completion_from(OpenAiResponse {
            choices: vec![OpenAiChoice { content: None, finish_reason: Some("length".to_string()) }],
            usage,
        })
        .unwrap();
    assert_eq!(r.content, "");
    assert_eq!(r.stop_reason, StopReason::MaxTokens);
    assert_eq!(r.usage.total_tokens, 7);
}

#[test]
fn env_references_are_expanded() {
    let vars = vec![("KEY".to_string(), "secret".to_string()), ("A".to_string(), "${KEY}".to_string())];
    assert_eq!(resolve_env_vars("api_key = \"${KEY}\"", &vars), "api_key = \"secret\"");
    assert_eq!(resolve_env_vars("${A}-${KEY}", &vars), "secret-secret");
    assert_eq!(resolve_env_vars("x ${MISSING} ${KEY}", &vars), "x ${MISSING} ${KEY}");
    assert_eq!(resolve_env_vars("open ${KEY", &vars), "open ${KEY");
    assert_eq!(resolve_env_vars("no refs", &vars), "no refs");
}

#[test]
fn uuid_text_is_hyphenated_hex() {
    assert_eq!(uuid_text(0), "00000000-0000-0000-0000-000000000000");
    let id = uuid::Uuid::new_v4();
    assert_eq!(uuid_text(id.as_u128()), id.to_string());
}

#[test]
fn substring_search() {
    let hay: Vec<char> = "find the needle".chars().collect();
    assert!(has_text(&hay, &"needle".chars().collect()));
    assert!(has_text(&hay, &vec![]));
    assert!(!has_text(&hay, &"needles".chars().collect()));
}

#[test]
fn expanding_again_changes_nothing() {
    let vars = vec![("HOME".to_string(), "/home/a".to_string()), ("X".to_string(), "${HOME}/x".to_string())];
    for input in ["${X} and ${HOME}", "${NOPE} ${X}", "plain", "${X"] {
        let once = resolve_env_vars(input, &vars);
        assert_eq!(resolve_env_vars(&once, &vars), once);
    }
}

#[test]
fn anthropic_tool_input_is_kept() {
    let p = AnthropicProvider::new("k".to_string(), "m1".to_string());
    let mut b = block("tool_use", None, Some("bash"));
    b.input = serde_json::from_str("{\"command\":\"ls\"}").unwrap();
    let r = p.completion_from(AnthropicResponse {
        content: vec![b],
        usage: AnthropicUsage { input_tokens: 1, output_tokens: 2 },
        stop_reason: None,
    });
    assert_eq!(r.tool_calls.len(), 1);
    assert_eq!(r.tool_calls[0].input["command"], "ls");
    assert_eq!(r.stop_reason, StopReason::EndTurn);
}
