use argo::cli::loop_cmd::{estimate_quality, loop_goal, quality_settings};
use argo::cli::mcp::McpCommands;
use argo::cli::memory::MemoryCommands;
use argo::cli::run::{allowed_paths, create_provider, execution_limit_secs, tool_choice, unknown_tool_warning, ToolChoice};
use argo::cli::stats::{checked_duration, duration_fits, parse_duration};
use argo::cli::tools::{available_tools, tool_info, unknown_tool, ToolsCommands};
use argo::config::{AgentConfig, AgentSection, ModelSection, PermissionsSection, QualitySection, ToolsSection};
use argo::llm::Provider;

fn config(provider: &str, model: &str, api_key: Option<&str>) -> AgentConfig {
    AgentConfig {
        agent: AgentSection { name: "test".to_string(), version: Some("0.1.0".to_string()), description: None },
        model: ModelSection {
            provider: provider.to_string(),
            model: model.to_string(),
            api_key: api_key.map(String::from),
            base_url: None,
            temperature_bits: None,
            max_tokens: None,
            context_strategy: None,
        },
        memory: None,
        heal: None,
        quality: None,
        tools: ToolsSection { enabled: vec!["bash".to_string()] },
        permissions: PermissionsSection {
            allow_network: false,
            allow_filesystem: true,
            allowed_paths: None,
            max_execution_time: None,
        },
        observe: None,
    }
}

#[test]
fn test_memory_commands_exist() {
    let cmd = MemoryCommands::List { agent: "test".to_string(), kind: None, limit: 10 };
    match cmd {
        MemoryCommands::List { agent, .. } => assert_eq!(agent, "test"),
        _ => panic!("Wrong variant"),
    }
}

#[test]
fn test_memory_search_command() {
    let cmd = MemoryCommands::Search { query: "test query".to_string(), agent: Some("agent1".to_string()), limit: 5 };
    match cmd {
        MemoryCommands::Search { query, .. } => assert_eq!(query, "test query"),
        _ => panic!("Wrong variant"),
    }
}

#[test]
fn test_memory_clear_command() {
    let cmd = MemoryCommands::Clear { agent: "test".to_string(), kind: "all".to_string(), force: false };
    match cmd {
        MemoryCommands::Clear { force, .. } => assert!(!force),
        _ => panic!("Wrong variant"),
    }
}

#[test]
fn mcp_commands_hold_their_arguments() {
    let cmd = McpCommands::Connect {
        url: "https://mcp.example.com/sse".to_string(),
        auth_type: "bearer".to_string(),
        token: Some("test-token-12345".to_string()),
    };
    assert!(matches!(cmd, McpCommands::Connect { ref auth_type, .. } if auth_type == "bearer"));
    let tools = McpCommands::Tools { url: "u".to_string(), token: None };
    assert!(matches!(tools, McpCommands::Tools { token: None, .. }));
}

#[test]
fn test_estimate_quality_empty() {
    assert_eq!(estimate_quality(""), 0);
}

#[test]
fn test_estimate_quality_basic() {
    let score = estimate_quality("Hello world");
    assert!(score > 0 && score <= 10);
}

#[test]
fn test_estimate_quality_with_code() {
    let score = estimate_quality("fn main() { assert!(true); }");
    assert!(score >= 7);
}

#[test]
fn estimate_quality_counts_bytes() {
    assert_eq!(estimate_quality(&"a".repeat(101)), 6);
    assert_eq!(estimate_quality(&"a".repeat(501)), 7);
    assert_eq!(estimate_quality(&"é".repeat(51)), 6);
    assert_eq!(estimate_quality("def f(): test"), 7);
}

#[test]
fn test_create_provider_anthropic() {
    let provider = create_provider(&config("anthropic", "sonnet-4-6", Some("${TEST_KEY}")));
    assert!(provider.is_ok());
    match provider.unwrap() {
        Provider::Anthropic(p) => {
            assert_eq!(p.api_key(), "${TEST_KEY}");
            assert_eq!(p.model_name(), "sonnet-4-6");
        }
        _ => panic!("expected anthropic"),
    }
}

#[test]
fn test_create_provider_unsupported() {
    let provider = create_provider(&config("gemini", "gemini-pro", Some("key")));
    assert!(provider.is_err());
    assert_eq!(provider.unwrap_err(), "Provider 'gemini' is not yet supported for CLI run");
}

#[test]
fn loop_provider_and_settings() {
    let err = argo::cli::loop_cmd::create_provider(&config("ollama", "m", None)).unwrap_err();
    assert_eq!(err, "Provider 'ollama' not supported for loop agent");
    match argo::cli::loop_cmd::create_provider(&config("openai", "gpt", None)).unwrap() {
        Provider::OpenAi(p) => assert_eq!(p.completions_url(), "https://api.openai.com/v1/chat/completions"),
        _ => panic!("expected openai"),
    }
    let mut c = config("openai", "gpt", None);
    assert!(quality_settings(&c).is_err());
    c.quality = Some(QualitySection { threshold_bits: None, max_iterations: Some(4), criteria: None });
    assert_eq!(quality_settings(&c).unwrap(), (0.85f32.to_bits(), 4));
    assert_eq!(loop_goal(&c), "Complete the assigned task");
}

#[test]
fn test_parse_duration_hours() {
    assert_eq!(parse_duration("24h"), chrono::Duration::hours(24).num_seconds());
}

#[test]
fn test_parse_duration_days() {
    assert_eq!(parse_duration("7d"), chrono::Duration::days(7).num_seconds());
}

#[test]
fn test_parse_duration_minutes() {
    assert_eq!(parse_duration("30min"), chrono::Duration::minutes(30).num_seconds());
}

#[test]
fn parse_duration_defaults_and_cases() {
    assert_eq!(parse_duration(" 2H "), 7200);
    assert_eq!(parse_duration("xh"), 24 * 3600);
    assert_eq!(parse_duration("d"), 7 * 86400);
    assert_eq!(parse_duration("5m"), 300);
    assert_eq!(parse_duration("+3d"), 3 * 86400);
    assert_eq!(parse_duration("soon"), 86400);
}

#[test]
fn test_tools_list() {
    let tools = available_tools();
    assert_eq!(tools.len(), 3);
    assert_eq!(tools[0].0, "bash");
}

#[test]
fn test_tools_info_bash() {
    assert!(tool_info("bash").is_some());
}

#[test]
fn test_tools_info_files() {
    assert!(tool_info("files").is_some());
}

#[test]
fn test_tools_info_http() {
    assert_eq!(tool_info("http"), Some(("Make HTTP requests with domain restrictions", "0.1.0")));
}

#[test]
fn test_tools_info_unknown() {
    assert!(tool_info("unknown").is_none());
    assert_eq!(unknown_tool("unknown"), "Unknown tool: unknown");
    assert!(matches!(ToolsCommands::Info { name: "x".to_string() }, ToolsCommands::Info { .. }));
}

#[test]
fn run_tool_registration_choices() {
    assert_eq!(tool_choice("bash"), Some(ToolChoice::Bash));
    assert_eq!(tool_choice("http"), Some(ToolChoice::Http));
    assert_eq!(tool_choice("git"), None);
    assert_eq!(unknown_tool_warning("git"), "Warning: unknown tool 'git', skipping");
    let c = config("anthropic", "m", None);
    assert_eq!(execution_limit_secs(&c.permissions), 300);
    assert_eq!(allowed_paths(&c.permissions), vec![".".to_string()]);
}

#[test]
fn duration_ranges_the_time_library_cannot_hold() {
    assert_eq!(checked_duration("2d"), Some(172800));
    assert!(!duration_fits("99999999999999999h"));
    assert_eq!(checked_duration("99999999999999999h"), None);
    assert!(duration_fits("18446744073709551615h"));
    assert_eq!(checked_duration("18446744073709551615h"), Some(-3600));
}
