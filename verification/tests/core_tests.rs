use argo::config::{AgentConfig, AgentSection, ModelSection, PermissionsSection, QualityCriterion as ConfigCriterion, QualitySection, ToolsSection};
use argo::error::{AgentError, LlmError, Span};
use argo::execution::{exhausted, missing_tool, Execution, MAX_ITERATIONS};
use argo::llm::{Role, ToolDefinition};
use argo::loop_agent::{IterationOutcome, LoopAction, LoopAgent};
use argo::message::{QualityRubric, QualityScore, TaskResult, DEFAULT_MAX_ITERATIONS, DEFAULT_THRESHOLD_BITS};
use argo::orchestrator::{OrchestratorActor, SubTask, SubTaskStatus};
use argo::pool::{AgentPool, MemoryMode};
use argo::spawn::AgentSpawner;

fn config_with(provider: &str, model: &str, temperature: Option<f32>, max_tokens: Option<usize>) -> AgentConfig {
    AgentConfig {
        agent: AgentSection { name: "test".to_string(), version: None, description: None },
        model: ModelSection {
            provider: provider.to_string(),
            model: model.to_string(),
            api_key: None,
            base_url: None,
            temperature_bits: temperature.map(|t| t.to_bits()),
            max_tokens,
            context_strategy: None,
        },
        memory: None,
        heal: None,
        quality: None,
        tools: ToolsSection { enabled: vec!["bash".to_string()] },
        permissions: PermissionsSection {
            allow_network: false,
            allow_filesystem: true,
            allowed_paths: None,
            max_execution_time: None,
        },
        observe: None,
    }
}

#[test]
fn test_memory_mode_from_str() {
    assert_eq!(MemoryMode::from_str("shared"), MemoryMode::Shared);
    assert_eq!(MemoryMode::from_str("isolated"), MemoryMode::Isolated);
    assert_eq!(MemoryMode::from_str("persistent"), MemoryMode::Persistent);
    assert_eq!(MemoryMode::from_str("unknown"), MemoryMode::Persistent);
}

#[test]
fn test_memory_mode_case_insensitive() {
    assert_eq!(MemoryMode::from_str("SHARED"), MemoryMode::Shared);
    assert_eq!(MemoryMode::from_str("Isolated"), MemoryMode::Isolated);
}

#[test]
fn test_quality_rubric_defaults() {
    let rubric = QualityRubric {
        criteria: vec![],
        threshold_bits: DEFAULT_THRESHOLD_BITS,
        max_iterations: DEFAULT_MAX_ITERATIONS,
    };
    assert_eq!(f32::from_bits(rubric.threshold_bits), 0.85);
    assert_eq!(rubric.max_iterations, 20);
}

#[test]
fn test_quality_score_threshold() {
    let score = QualityScore {
        overall_bits: 0.9f32.to_bits(),
        criteria_scores: vec![],
        meets_threshold: true,
        iteration: 1,
    };
    assert!(score.meets_threshold);
    assert!(f32::from_bits(score.overall_bits) >= 0.85);
}

#[test]
fn test_quality_score_below_threshold() {
    let score = QualityScore {
        overall_bits: 0.5f32.to_bits(),
        criteria_scores: vec![],
        meets_threshold: false,
        iteration: 1,
    };
    assert!(!score.meets_threshold);
}

#[test]
fn test_sub_task_status_default() {
    let st = SubTask { task_id: 7, goal: "test".to_string(), context: None, status: SubTaskStatus::Pending };
    assert_eq!(st.status, SubTaskStatus::Pending);
}

#[test]
fn test_sub_task_transitions() {
    let mut st = SubTask { task_id: 7, goal: "test".to_string(), context: None, status: SubTaskStatus::Pending };
    st.status = SubTaskStatus::Assigned;
    assert_eq!(st.status, SubTaskStatus::Assigned);
    st.status = SubTaskStatus::Completed;
    assert_eq!(st.status, SubTaskStatus::Completed);
}

#[test]
fn test_default_child_config_fields() {
    let spawner: AgentSpawner<u8> = AgentSpawner::new(vec![1], "sonnet-4-6");
    let config = spawner.default_child_config("test-child");
    assert_eq!(config.agent.name, "test-child");
    assert_eq!(config.model.provider, "anthropic");
    assert_eq!(config.model.model, "sonnet-4-6");
    assert_eq!(config.model.temperature_bits.map(f32::from_bits), Some(0.2));
    assert_eq!(config.model.max_tokens, Some(4096));
    assert_eq!(config.tools.enabled, vec!["bash".to_string(), "files".to_string()]);
    assert!(!config.permissions.allow_network && config.permissions.allow_filesystem);
}

#[test]
fn test_agent_error_display() {
    let err = AgentError::LlmRateLimit { retry_after: Span::from_secs(5), provider: "anthropic".to_string() };
    assert!(err.to_string().contains("rate limited"));
}

#[test]
fn agent_error_texts_render_durations() {
    let err = AgentError::LlmRateLimit { retry_after: Span::from_millis(1500), provider: "p".to_string() };
    assert_eq!(err.to_string(), "LLM rate limited, retry after 1.5s");
    let timeout = AgentError::ToolTimeout { name: "bash".to_string(), elapsed: Span::from_secs(30) };
    assert!(timeout.to_string().ends_with("30s"));
}

#[test]
fn run_ids_are_uuids() {
    let id = "550e8400-e29b-41d4-a716-446655440000";
    let n = argo::stamp::parse_run_id(id).unwrap();
    assert_eq!(argo::stamp::uuid_text(n), id);
    let err = argo::stamp::parse_run_id("not-a-uuid").unwrap_err();
    assert!(err.starts_with("Invalid run ID 'not-a-uuid': "));
}

#[test]
fn test_llm_error_to_agent_error() {
    let llm_err = LlmError::RateLimited { retry_after_ms: 5000 };
    let agent_err = AgentError::from_llm(llm_err);
    match agent_err {
        AgentError::LlmRateLimit { retry_after, .. } => {
            assert_eq!(retry_after, Span::from_millis(5000));
        }
        _ => panic!("Expected LlmRateLimit"),
    }
}

#[test]
fn test_config_validation() {
    let config = config_with("anthropic", "sonnet-4-6", Some(0.5), Some(4096));
    assert!(config.validate().is_ok());
}

#[test]
fn test_config_validation_bad_provider() {
    let config = config_with("invalid", "model", None, None);
    assert!(config.validate().is_err());
}

#[test]
fn config_validation_edges() {
    assert!(config_with("openai", "m", Some(2.0), None).validate().is_ok());
    assert!(config_with("openai", "m", Some(2.5), None).validate().is_err());
    assert!(config_with("openai", "m", Some(-0.1), None).validate().is_err());
    assert!(config_with("openai", "m", None, Some(0)).validate().is_err());
    let mut no_tools = config_with("ollama", "m", None, None);
    no_tools.tools.enabled.clear();
    assert!(no_tools.validate().is_err());
}

#[test]
fn pool_hands_providers_out_in_turn() {
    let mut pool = AgentPool::new(3, config_with("anthropic", "m", None, None), vec!["a", "b"], MemoryMode::Shared);
    assert_eq!(pool.worker_count(), 3);
    assert_eq!(*pool.memory_mode(), MemoryMode::Shared);
    assert_eq!(*pool.next_llm_provider(), "a");
    assert_eq!(*pool.next_llm_provider(), "b");
    assert_eq!(*pool.next_llm_provider(), "a");
}

#[test]
fn spawner_reports_child_results() {
    let ok = AgentSpawner::<u8>::child_outcome("c1".to_string(), TaskResult::Success { output: "done".to_string() });
    assert_eq!(ok.unwrap(), "done");
    let partial = AgentSpawner::<u8>::child_outcome(
        "c1".to_string(),
        TaskResult::Partial { output: "half".to_string(), reason: "slow".to_string() },
    );
    assert_eq!(partial.unwrap(), "[partial: slow] half");
    let failed = AgentSpawner::<u8>::child_outcome("c1".to_string(), TaskResult::Failed { error: AgentError::ContextCorrupted });
    match failed {
        Err(AgentError::SubAgentFailed { agent_id, error }) => {
            assert_eq!(agent_id, "c1");
            assert!(matches!(*error, AgentError::ContextCorrupted));
        }
        _ => panic!("expected a sub-agent failure"),
    }
    let none: AgentSpawner<u8> = AgentSpawner::new(vec![], "m");
    assert!(none.first_provider().is_err());
    let id = none.new_child_id();
    assert_eq!(id.len(), 36);
    assert_eq!(&id[14..15], "4");
}

#[test]
fn execution_runs_until_a_reply_without_tools() {
    let mut run = Execution::start("coder", "write a test");
    let tools: Vec<ToolDefinition> = vec![];
    let request = run.next_request(Some(0.5f32.to_bits()), Some(100), &tools).unwrap();
    assert_eq!(request.messages.len(), 1);
    assert_eq!(request.messages[0].role, Role::User);
    assert!(request.tools.is_none());
    assert!(request.system_prompt.unwrap().starts_with("You are an AI agent named coder. Your goal: write a test"));
    assert!(run.record_reply("calling a tool".to_string(), 1).is_none());
    run.record_tool_output("{\"ok\":true}".to_string());
    let request = run.next_request(None, None, &tools).unwrap();
    assert_eq!(request.messages.len(), 3);
    assert_eq!(request.messages[2].role, Role::Tool);
    match run.record_reply("all done".to_string(), 0) {
        Some(TaskResult::Success { output }) => assert_eq!(output, "all done"),
        _ => panic!("expected success"),
    }
    assert!(run.next_request(None, None, &tools).is_none());
    assert_eq!(run.iterations(), 2);
}

#[test]
fn execution_stops_after_its_rounds() {
    let mut run = Execution::start("a", "g");
    let tools: Vec<ToolDefinition> = vec![];
    let mut rounds = 0;
    while run.next_request(None, None, &tools).is_some() {
        run.record_reply("again".to_string(), 1);
        run.record_tool_output("null".to_string());
        rounds += 1;
    }
    assert_eq!(rounds, MAX_ITERATIONS);
    assert!(matches!(exhausted(), TaskResult::Failed { error: AgentError::InfiniteLoop { iteration_count: 20 } }));
    assert_eq!(missing_tool("grep").to_string(), "Execution failed: Tool 'grep' not found");
}

#[test]
fn loop_agent_decisions() {
    let mut config = config_with("anthropic", "m", None, None);
    config.quality = Some(QualitySection {
        threshold_bits: Some(0.9f32.to_bits()),
        max_iterations: Some(3),
        criteria: Some(vec![ConfigCriterion { name: "c".to_string(), weight_bits: 1.0f32.to_bits(), description: "d".to_string() }]),
    });
    let agent = LoopAgent::from_config(config);
    assert!(agent.needs_scoring());
    assert_eq!(agent.rubric().max_iterations, 3);
    assert_eq!(agent.rubric().criteria[0].name, "c");
    let judged = |m| IterationOutcome::Completed { meets_threshold: Some(m) };
    assert_eq!(agent.after_iteration(1, judged(false)), LoopAction::Continue);
    assert_eq!(agent.after_iteration(1, judged(true)), LoopAction::Accept { success: true });
    assert_eq!(agent.after_iteration(3, judged(false)), LoopAction::Accept { success: false });
    assert_eq!(agent.after_iteration(2, IterationOutcome::Errored), LoopAction::Continue);
    assert_eq!(agent.after_iteration(3, IterationOutcome::Errored), LoopAction::GiveUp);
    let plain = LoopAgent::from_config(config_with("anthropic", "m", None, None));
    assert!(!plain.needs_scoring());
    assert_eq!(plain.rubric().threshold_bits, 0.85f32.to_bits());
    assert_eq!(plain.rubric().max_iterations, 20);
    assert_eq!(
        plain.after_iteration(1, IterationOutcome::Completed { meets_threshold: None }),
        LoopAction::Accept { success: true }
    );
}

#[test]
fn orchestrator_combines_results() {
    let mut orch = OrchestratorActor::new(config_with("anthropic", "m", None, None));
    match orch.aggregate_results() {
        TaskResult::Failed { error: AgentError::OrchestratorFailed { reason } } => assert_eq!(reason, "No results collected"),
        _ => panic!("expected failure"),
    }
    let ids = orch.register_sub_goals(&vec!["a".to_string(), "b".to_string()]);
    assert_eq!(ids.len(), 2);
    assert_eq!(ids[1].1, "b");
    orch.record_result(ids[0].0, Ok(TaskResult::Success { output: "one".to_string() }));
    orch.record_result(ids[1].0, Ok(TaskResult::Partial { output: "two".to_string(), reason: "cut".to_string() }));
    match orch.aggregate_results() {
        TaskResult::Success { output } => assert_eq!(output, "one\n\n[partial: cut] two"),
        _ => panic!("expected success"),
    }
    orch.record_result(ids[1].0, Err(AgentError::ContextCorrupted));
    match orch.aggregate_results() {
        TaskResult::Partial { output, reason } => {
            assert_eq!(output, "one\n\n[failed: Context corrupted]");
            assert_eq!(reason, "Some sub-tasks failed or returned partial results");
        }
        _ => panic!("expected partial"),
    }
}

#[test]
fn orchestrator_reads_decompositions() {
    let goals = OrchestratorActor::sub_goals_from_reply("[\"x\", \"y\"]", "goal");
    assert_eq!(goals, vec!["x".to_string(), "y".to_string()]);
    let fallback = OrchestratorActor::sub_goals_from_reply("not json", "goal");
    assert_eq!(fallback, vec!["goal".to_string()]);
    let request = OrchestratorActor::decomposition_request("ship it");
    assert_eq!(request.max_tokens, Some(1024));
    assert_eq!(request.temperature_bits.map(f32::from_bits), Some(0.3));
}
