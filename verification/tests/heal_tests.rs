use argo::classifier::{ErrorClassifier, ErrorSeverity};
use argo::error::{AgentError, Span};
use argo::growth::engine::GrowthEngine;
use argo::growth::pattern::{ErrorRecord, PatternDetector};
use argo::growth::proposal::ProposalGenerator;
use argo::growth::types::{DetectedPattern, PatternType, ProposalRisk, ProposalType, Ratio};
use argo::heal::{
    default_strategies, ChangeProviderStrategy, DecomposeStrategy, HealAction, HealContext, HealEngine, HealPlan,
    HealResult, HealStrategy, ReduceScopeStrategy, ReframeStrategy, RetryPlan, RetryStrategy, SpawnSubagentStrategy,
    StrategyEntry, SwapToolStrategy,
};
use argo::postmortem::{HealStep, PostMortem};

fn ctx_with(error: AgentError, past: Vec<&str>) -> HealContext {
    HealContext {
        error,
        agent_id: "a".to_string(),
        run_id: "r".to_string(),
        task_id: 1,
        iteration: 0,
        past_strategies: past.into_iter().map(String::from).collect(),
        previous_errors: vec![],
        current_plan: None,
    }
}

fn rate_limit() -> AgentError {
    AgentError::LlmRateLimit { retry_after: Span::from_secs(1), provider: "test".to_string() }
}

fn hallucination(confidence: f32) -> AgentError {
    AgentError::LlmHallucination { evidence: "bad".to_string(), confidence_bits: confidence.to_bits() }
}

fn tool_timeout() -> AgentError {
    AgentError::ToolTimeout { name: "x".to_string(), elapsed: Span::from_secs(5) }
}

#[test]
fn classify_recoverable_errors() {
    let cases = vec![
        rate_limit(),
        AgentError::LlmContextOverflow { current: 100, limit: 50 },
        AgentError::ToolExecutionFailed { name: "bash".to_string(), reason: "fail".to_string(), exit_code: Some(1) },
        AgentError::ToolTimeout { name: "bash".to_string(), elapsed: Span::from_secs(30) },
        AgentError::NetworkTimeout { url: "x".to_string(), elapsed: Span::from_secs(10) },
    ];
    for error in cases {
        assert_eq!(ErrorClassifier::classify(&error), ErrorSeverity::Recoverable);
    }
}

#[test]
fn classify_degradable_errors() {
    let cases = vec![
        AgentError::LlmRefusal { reason: "refused".to_string(), provider: "test".to_string() },
        AgentError::LlmProviderDown { provider: "x".to_string(), reason: "down".to_string() },
        AgentError::ToolNotFound { name: "bash".to_string() },
        AgentError::InfiniteLoop { iteration_count: 20 },
        AgentError::MemoryUnavailable { store: "redis".to_string(), reason: "down".to_string() },
    ];
    for error in cases {
        assert_eq!(ErrorClassifier::classify(&error), ErrorSeverity::Degradable);
    }
}

#[test]
fn classify_fatal_errors() {
    let cases = vec![
        AgentError::ToolPermissionDenied { name: "bash".to_string(), resource: "/etc".to_string() },
        AgentError::GoalUnachievable { reason: "x".to_string() },
        AgentError::ContextCorrupted,
        AgentError::Config("bad".to_string()),
        AgentError::OrchestratorFailed { reason: "x".to_string() },
    ];
    for error in cases {
        assert_eq!(ErrorClassifier::classify(&error), ErrorSeverity::Fatal);
    }
}

#[test]
fn initial_strategy_matches_error_type() {
    assert_eq!(ErrorClassifier::initial_strategy(&rate_limit()), "retry");
    assert_eq!(ErrorClassifier::initial_strategy(&AgentError::ToolNotFound { name: "bash".to_string() }), "swap_tool");
    let down = AgentError::LlmProviderDown { provider: "x".to_string(), reason: "down".to_string() };
    assert_eq!(ErrorClassifier::initial_strategy(&down), "change_provider");
    assert_eq!(ErrorClassifier::initial_strategy(&hallucination(0.5)), "reframe");
    assert_eq!(ErrorClassifier::initial_strategy(&AgentError::InfiniteLoop { iteration_count: 20 }), "reduce_scope");
    let plan = AgentError::PlanInvalid { plan: "x".to_string(), reason: "bad".to_string() };
    assert_eq!(ErrorClassifier::initial_strategy(&plan), "decompose");
    let sub = AgentError::SubAgentFailed { agent_id: "a".to_string(), error: Box::new(AgentError::ContextCorrupted) };
    assert_eq!(ErrorClassifier::initial_strategy(&sub), "spawn_subagent");
}

#[test]
fn retries_up_to_max() {
    let s = RetryStrategy { max_retries: 2, base_delay_ms: 10 };
    let ctx = ctx_with(rate_limit(), vec!["retry"]);
    match s.plan(&ctx) {
        RetryPlan::Wait { delay_ms, attempt } => {
            assert_eq!(delay_ms, 20);
            assert_eq!(attempt, 2);
            let result = RetryStrategy::finish(delay_ms, 1, attempt);
            match result {
                HealResult::Success { output } => assert_eq!(output, "Retried after 21ms (attempt 2)"),
                _ => panic!("expected success"),
            }
        }
        _ => panic!("expected a wait"),
    }
}

#[test]
fn fails_after_max_retries() {
    let s = RetryStrategy { max_retries: 2, base_delay_ms: 10 };
    let ctx = ctx_with(rate_limit(), vec!["retry", "retry"]);
    match s.plan(&ctx) {
        RetryPlan::GiveUp(HealResult::Failed { reason }) => assert_eq!(reason, "Max retries (2) exhausted"),
        _ => panic!("expected to give up"),
    }
}

#[test]
fn handles_correct_error_types() {
    let s = RetryStrategy::default();
    assert!(s.can_handle(&rate_limit()));
    assert!(s.can_handle(&tool_timeout()));
    assert!(!s.can_handle(&AgentError::ToolPermissionDenied { name: "x".to_string(), resource: "/etc".to_string() }));
}

#[test]
fn reframes_prompt() {
    let ctx = ctx_with(hallucination(0.8), vec!["retry"]);
    assert!(matches!(ReframeStrategy.apply(&ctx), HealResult::Success { .. }));
}

#[test]
fn fails_after_max_reframes() {
    let ctx = ctx_with(hallucination(0.5), vec!["reframe", "reframe", "reframe"]);
    assert!(matches!(ReframeStrategy.apply(&ctx), HealResult::Failed { .. }));
}

#[test]
fn reframe_handles_correct_errors() {
    assert!(ReframeStrategy.can_handle(&hallucination(0.5)));
    assert!(ReframeStrategy.can_handle(&AgentError::LlmRefusal { reason: "x".to_string(), provider: "x".to_string() }));
    assert!(!ReframeStrategy.can_handle(&tool_timeout()));
}

#[test]
fn swaps_to_fallback() {
    let ctx = ctx_with(AgentError::ToolNotFound { name: "bash".to_string() }, vec![]);
    match SwapToolStrategy.apply(&ctx) {
        HealResult::Success { output } => assert!(output.contains("python")),
        _ => panic!("Expected success"),
    }
}

#[test]
fn fails_after_max_swaps() {
    let ctx = ctx_with(AgentError::ToolNotFound { name: "bash".to_string() }, vec!["swap_tool", "swap_tool", "swap_tool"]);
    assert!(matches!(SwapToolStrategy.apply(&ctx), HealResult::Failed { .. }));
}

#[test]
fn handles_tool_errors() {
    assert!(SwapToolStrategy.can_handle(&AgentError::ToolNotFound { name: "x".to_string() }));
    assert!(!SwapToolStrategy.can_handle(&rate_limit()));
}

#[test]
fn switches_provider() {
    let s = ChangeProviderStrategy { providers: vec!["anthropic".to_string(), "openai".to_string()] };
    let ctx = ctx_with(AgentError::LlmProviderDown { provider: "anthropic".to_string(), reason: "down".to_string() }, vec![]);
    match s.apply(&ctx) {
        HealResult::Success { output } => assert!(output.contains("openai")),
        _ => panic!("Expected success"),
    }
}

#[test]
fn fails_after_all_providers() {
    let s = ChangeProviderStrategy { providers: vec!["anthropic".to_string(), "openai".to_string()] };
    let ctx = ctx_with(
        AgentError::LlmProviderDown { provider: "ollama".to_string(), reason: "down".to_string() },
        vec!["change_provider", "change_provider"],
    );
    assert!(matches!(s.apply(&ctx), HealResult::Failed { .. }));
}

#[test]
fn handles_provider_errors() {
    let s = ChangeProviderStrategy { providers: vec![] };
    assert!(s.can_handle(&AgentError::LlmProviderDown { provider: "x".to_string(), reason: "down".to_string() }));
    assert!(s.can_handle(&rate_limit()));
    assert!(!s.can_handle(&tool_timeout()));
}

#[test]
fn decomposes_goal() {
    let ctx = ctx_with(AgentError::GoalUnachievable { reason: "too complex".to_string() }, vec![]);
    assert!(matches!(DecomposeStrategy.apply(&ctx), HealResult::Success { .. }));
}

#[test]
fn decompose_fails_after_max() {
    let ctx = ctx_with(
        AgentError::PlanInvalid { plan: "x".to_string(), reason: "bad".to_string() },
        vec!["decompose", "decompose", "decompose"],
    );
    assert!(matches!(DecomposeStrategy.apply(&ctx), HealResult::Failed { .. }));
}

#[test]
fn reduces_scope() {
    let ctx = ctx_with(AgentError::InfiniteLoop { iteration_count: 20 }, vec![]);
    assert!(matches!(ReduceScopeStrategy.apply(&ctx), HealResult::Success { .. }));
}

#[test]
fn reduce_scope_fails_after_max() {
    let ctx = ctx_with(
        AgentError::GoalUnachievable { reason: "impossible".to_string() },
        vec!["reduce_scope", "reduce_scope", "reduce_scope"],
    );
    assert!(matches!(ReduceScopeStrategy.apply(&ctx), HealResult::Failed { .. }));
}

#[test]
fn reduce_scope_handles_correct_errors() {
    assert!(ReduceScopeStrategy.can_handle(&AgentError::InfiniteLoop { iteration_count: 20 }));
    assert!(ReduceScopeStrategy.can_handle(&AgentError::GoalUnachievable { reason: "x".to_string() }));
    assert!(!ReduceScopeStrategy.can_handle(&tool_timeout()));
}

#[test]
fn spawns_subagent() {
    let err = AgentError::SubAgentFailed { agent_id: "a1".to_string(), error: Box::new(AgentError::ContextCorrupted) };
    assert!(matches!(SpawnSubagentStrategy.apply(&ctx_with(err, vec![])), HealResult::Success { .. }));
}

#[test]
fn spawn_subagent_fails_after_max() {
    let err = AgentError::SubAgentFailed { agent_id: "a1".to_string(), error: Box::new(AgentError::ContextCorrupted) };
    let ctx = ctx_with(err, vec!["spawn_subagent", "spawn_subagent", "spawn_subagent"]);
    assert!(matches!(SpawnSubagentStrategy.apply(&ctx), HealResult::Failed { .. }));
}

fn run_plan(strategies: Vec<(&str, bool, HealResult)>, error: &AgentError) -> (HealResult, Vec<usize>) {
    let entries: Vec<StrategyEntry> =
        strategies.iter().map(|(n, h, _)| StrategyEntry { name: n.to_string(), handles: *h }).collect();
    let initial = ErrorClassifier::initial_strategy(error);
    let mut plan = HealPlan::new(&entries, initial);
    let mut last: Option<HealResult> = None;
    let mut applied = vec![];
    loop {
        match plan.step(&entries, last.take(), error) {
            HealAction::Apply(i) => {
                applied.push(i);
                last = Some(strategies[i].2.clone());
            }
            HealAction::Finish(r) => return (r, applied),
        }
    }
}

fn ok(s: &str) -> HealResult {
    HealResult::Success { output: s.to_string() }
}

fn failed(s: &str) -> HealResult {
    HealResult::Failed { reason: s.to_string() }
}

#[test]
fn stops_at_first_success() {
    let (r, applied) = run_plan(vec![("retry", true, ok("ok")), ("reframe", true, ok("should not reach"))], &rate_limit());
    assert!(matches!(r, HealResult::Success { ref output } if output == "ok"));
    assert_eq!(applied, vec![0]);
}

#[test]
fn exhausts_all_strategies() {
    let (r, applied) = run_plan(vec![("retry", true, failed("failed")), ("reframe", true, failed("failed"))], &rate_limit());
    match r {
        HealResult::Failed { reason } => assert!(reason.starts_with("All 2 strategies exhausted for error: ")),
        _ => panic!("expected failure"),
    }
    assert_eq!(applied, vec![0, 1]);
}

#[test]
fn skips_non_matching_strategies() {
    let (r, applied) =
        run_plan(vec![("swap_tool", false, failed("should not be called")), ("retry", true, ok("ok"))], &rate_limit());
    assert!(matches!(r, HealResult::Success { .. }));
    assert_eq!(applied, vec![1]);
}

#[test]
fn tries_fallback_after_initial_failure() {
    let (r, applied) =
        run_plan(vec![("retry", true, failed("exhausted")), ("reframe", true, ok("reframed"))], &hallucination(0.8));
    assert!(matches!(r, HealResult::Success { ref output } if output == "reframed"));
    assert_eq!(applied, vec![1]);
}

#[test]
fn engine_plans_with_builtin_strategies() {
    let engine = HealEngine::new(default_strategies()).with_max_attempts(5);
    assert_eq!(engine.max_attempts, 5);
    let names: Vec<&str> = engine.strategies.iter().map(|s| s.name()).collect();
    assert_eq!(names, vec!["retry", "reframe", "swap_tool", "decompose", "spawn_subagent", "change_provider", "reduce_scope"]);
    let error = AgentError::ToolNotFound { name: "bash".to_string() };
    let (plan, entries) = engine.plan_for(&error);
    assert_eq!(plan.order, vec![2]);
    assert!(entries[2].handles);
    assert!(engine.strategy(2).can_handle(&error));
}

fn make_ctx_and_step() -> (HealContext, HealStep) {
    let ctx = HealContext {
        error: AgentError::ToolExecutionFailed {
            name: "bash".to_string(),
            reason: "command not found".to_string(),
            exit_code: Some(127),
        },
        agent_id: "coder".to_string(),
        run_id: "run-001".to_string(),
        task_id: 42,
        iteration: 2,
        past_strategies: vec![],
        previous_errors: vec![],
        current_plan: None,
    };
    let step = HealStep {
        id: 7,
        error: ctx.error.clone(),
        strategy_name: "swap_tool".to_string(),
        started_at_ms: 0,
        ended_at_ms: Some(1),
        success: true,
        output: Some("Swapped bash -> python (attempt 1)".to_string()),
    };
    (ctx, step)
}

#[test]
fn generates_lesson_with_all_fields() {
    let (ctx, step) = make_ctx_and_step();
    let lesson = PostMortem::generate_lesson(&ctx, &step);
    assert!(!lesson.error_type.is_empty());
    assert!(!lesson.context_summary.is_empty());
    assert!(!lesson.root_cause.is_empty());
    assert!(!lesson.resolution.is_empty());
    assert!(!lesson.prevention.is_empty());
    assert!(lesson.confidence_percent > 0 && lesson.confidence_percent <= 100);
}

#[test]
fn lesson_error_type_matches() {
    let (ctx, step) = make_ctx_and_step();
    assert!(PostMortem::generate_lesson(&ctx, &step).error_type.contains("ToolExecutionFailed"));
}

#[test]
fn lesson_resolution_includes_strategy_output() {
    let (ctx, step) = make_ctx_and_step();
    assert!(PostMortem::generate_lesson(&ctx, &step).resolution.contains("Swapped bash -> python"));
}

#[test]
fn lesson_root_cause_includes_tool_name() {
    let (ctx, step) = make_ctx_and_step();
    assert!(PostMortem::generate_lesson(&ctx, &step).root_cause.contains("bash"));
}

#[test]
fn lesson_prevention_is_nonempty() {
    let (ctx, step) = make_ctx_and_step();
    assert!(PostMortem::generate_lesson(&ctx, &step).prevention.len() > 10);
}

#[test]
fn lesson_texts_are_exact() {
    let (ctx, step) = make_ctx_and_step();
    let lesson = PostMortem::generate_lesson(&ctx, &step);
    assert_eq!(lesson.error_type, "ToolExecutionFailed");
    assert_eq!(lesson.root_cause, "Tool 'bash' failed: command not found");
    assert_eq!(lesson.prevention, "Validate tool inputs before execution and handle edge cases");
    assert_eq!(PostMortem::suggest_prevention("Unheard"), "Review error logs and adjust configuration accordingly");
}

fn make_records() -> Vec<ErrorRecord> {
    let now = chrono::Utc::now().timestamp_millis();
    let hour = 3_600_000;
    let rec = |t: &str, tool: Option<&str>, s: &str, resolved: bool, h: i64| ErrorRecord {
        error_type: t.to_string(),
        tool_name: tool.map(String::from),
        strategy_used: Some(s.to_string()),
        resolved,
        timestamp_ms: now - h * hour,
    };
    vec![
        rec("ToolExecutionFailed", Some("bash"), "swap_tool", true, 1),
        rec("ToolExecutionFailed", Some("bash"), "swap_tool", true, 2),
        rec("ToolExecutionFailed", Some("bash"), "retry", false, 3),
        rec("LlmRateLimit", None, "retry", true, 4),
        rec("LlmRateLimit", None, "retry", true, 5),
        rec("LlmRateLimit", None, "retry", true, 6),
    ]
}

#[test]
fn detects_recurring_errors() {
    let patterns = PatternDetector::default().detect(&make_records());
    assert!(patterns.iter().filter(|p| p.pattern_type == PatternType::RecurringError).count() >= 2);
}

#[test]
fn detects_tool_failures() {
    let patterns = PatternDetector::default().detect(&make_records());
    let tool_fails: Vec<_> = patterns.iter().filter(|p| p.pattern_type == PatternType::ToolFailure).collect();
    assert!(!tool_fails.is_empty());
    assert!(tool_fails[0].tool_names.contains(&"bash".to_string()));
}

#[test]
fn detects_strategy_effectiveness() {
    let patterns = PatternDetector::default().detect(&make_records());
    assert!(patterns.iter().any(|p| p.pattern_type == PatternType::StrategyEffectiveness));
}

#[test]
fn respects_min_occurrences() {
    let patterns = PatternDetector::new(10, 24).detect(&make_records());
    for pattern in &patterns {
        assert!(pattern.occurrences >= 10);
    }
}

#[test]
fn old_records_fall_outside_the_window() {
    let now = chrono::Utc::now().timestamp_millis();
    let records: Vec<ErrorRecord> = (0..5)
        .map(|i| ErrorRecord {
            error_type: "LlmRateLimit".to_string(),
            tool_name: None,
            strategy_used: None,
            resolved: false,
            timestamp_ms: now - (48 + i) * 3_600_000,
        })
        .collect();
    assert!(PatternDetector::default().detect(&records).is_empty());
}

fn pattern(kind: PatternType, tool: &str, num: usize, den: usize) -> DetectedPattern {
    DetectedPattern {
        pattern_type: kind,
        description: "Test pattern".to_string(),
        occurrences: 5,
        error_types: vec!["ToolExecutionFailed".to_string()],
        tool_names: vec![tool.to_string()],
        time_range_hours: 24,
        confidence: Ratio { num, den },
    }
}

#[test]
fn generates_proposals_for_recurring_error() {
    let proposals = ProposalGenerator::default().generate(&[pattern(PatternType::RecurringError, "bash", 9, 10)]);
    assert!(!proposals.is_empty());
    assert!(proposals.iter().any(|p| p.proposal_type == ProposalType::PreCheck));
}

#[test]
fn generates_proposals_for_tool_failure() {
    let proposals = ProposalGenerator::default().generate(&[pattern(PatternType::ToolFailure, "python", 8, 10)]);
    assert!(!proposals.is_empty());
    assert!(proposals.iter().any(|p| p.proposal_type == ProposalType::ToolSwap));
}

#[test]
fn high_confidence_is_low_risk() {
    let proposals = ProposalGenerator::default().generate(&[pattern(PatternType::RecurringError, "bash", 9, 10)]);
    let precheck = proposals.iter().find(|p| p.proposal_type == ProposalType::PreCheck).unwrap();
    assert_eq!(precheck.risk_level, ProposalRisk::Low);
}

#[test]
fn strategy_proposal_reports_rounded_percent() {
    let proposals = ProposalGenerator::default().generate(&[pattern(PatternType::StrategyEffectiveness, "x", 2, 3)]);
    assert_eq!(proposals.len(), 1);
    assert_eq!(proposals[0].risk_level, ProposalRisk::High);
    assert!(proposals[0].content.starts_with("Strategy effectiveness: 67% success rate."));
}

#[test]
fn growth_cycle_runs() {
    let now = chrono::Utc::now().timestamp_millis();
    let records: Vec<ErrorRecord> = make_records().into_iter().take(3).collect();
    let report = GrowthEngine::default().run_cycle("test-agent", &records);
    assert_eq!(report.agent_id, "test-agent");
    assert_eq!(report.errors_analyzed, 3);
    assert!(!report.patterns.is_empty() || report.proposals.is_empty());
    assert!(report.cycle_end_ms >= report.cycle_start_ms && report.cycle_start_ms >= now - 1000);
}

#[test]
fn growth_cycle_with_no_records() {
    let report = GrowthEngine::default().run_cycle("test-agent", &[]);
    assert_eq!(report.errors_analyzed, 0);
    assert!(report.patterns.is_empty());
    assert!(report.proposals.is_empty());
}

#[test]
fn growth_cycle_applies_low_risk() {
    let records: Vec<ErrorRecord> = make_records().into_iter().take(3).collect();
    let report = GrowthEngine::default().run_cycle("test-agent", &records);
    let low = report.proposals.iter().filter(|p| p.risk_level == ProposalRisk::Low).count();
    if low > 0 {
        assert!(report.low_risk_applied > 0 || report.high_risk_flagged > 0);
    }
    assert_eq!(report.low_risk_applied, low);
}

#[test]
fn failing_heal_applies_each_capable_strategy_once() {
    let error = AgentError::ToolNotFound { name: "bash".to_string() };
    let (r, applied) = run_plan(
        vec![
            ("retry", true, failed("a")),
            ("reframe", false, failed("b")),
            ("swap_tool", true, failed("c")),
            ("decompose", true, failed("d")),
        ],
        &error,
    );
    assert!(matches!(r, HealResult::Failed { ref reason } if reason.starts_with("All 3 strategies exhausted")));
    assert_eq!(applied, vec![2, 0, 3]);
}
