//! How severe an agent error is, and which heal strategy is tried first.
use vstd::prelude::*;
use crate::error::{AgentError, AgentErrorView};

verus! {

/// How an error affects a run.
#[derive(Clone, Copy, Debug, PartialEq, Eq, Structural)]
pub enum ErrorSeverity {
    /// The run can go on after a heal strategy repairs the cause.
    Recoverable,
    /// The run can go on with reduced capability.
    Degradable,
    /// The run cannot go on.
    Fatal,
}

/// The severity of each kind of error.
pub open spec fn severity_of(e: AgentErrorView) -> ErrorSeverity {
    match e {
        AgentErrorView::LlmRateLimit { .. } => ErrorSeverity::Recoverable,
        AgentErrorView::LlmContextOverflow { .. } => ErrorSeverity::Recoverable,
        AgentErrorView::LlmHallucination { .. } => ErrorSeverity::Recoverable,
        AgentErrorView::LlmRefusal { .. } => ErrorSeverity::Degradable,
        AgentErrorView::LlmTimeout { .. } => ErrorSeverity::Recoverable,
        AgentErrorView::LlmProviderDown { .. } => ErrorSeverity::Degradable,
        AgentErrorView::ToolNotFound { .. } => ErrorSeverity::Degradable,
        AgentErrorView::ToolExecutionFailed { .. } => ErrorSeverity::Recoverable,
        AgentErrorView::ToolTimeout { .. } => ErrorSeverity::Recoverable,
        AgentErrorView::ToolPermissionDenied { .. } => ErrorSeverity::Fatal,
        AgentErrorView::ToolOutputInvalid { .. } => ErrorSeverity::Recoverable,
        AgentErrorView::InfiniteLoop { .. } => ErrorSeverity::Degradable,
        AgentErrorView::GoalUnachievable { .. } => ErrorSeverity::Fatal,
        AgentErrorView::PlanInvalid { .. } => ErrorSeverity::Recoverable,
        AgentErrorView::ContextCorrupted => ErrorSeverity::Fatal,
        AgentErrorView::MemoryUnavailable { .. } => ErrorSeverity::Degradable,
        AgentErrorView::McpConnectionFailed { .. } => ErrorSeverity::Recoverable,
        AgentErrorView::NetworkTimeout { .. } => ErrorSeverity::Recoverable,
        AgentErrorView::SubAgentFailed { .. } => ErrorSeverity::Degradable,
        AgentErrorView::OrchestratorFailed { .. } => ErrorSeverity::Fatal,
        AgentErrorView::Config(_) => ErrorSeverity::Fatal,
    }
}

/// The name of the heal strategy tried first for each kind of error.
pub open spec fn first_strategy_of(e: AgentErrorView) -> Seq<char> {
    match e {
        AgentErrorView::LlmRateLimit { .. } => "retry"@,
        AgentErrorView::LlmContextOverflow { .. } => "retry"@,
        AgentErrorView::LlmHallucination { .. } => "reframe"@,
        AgentErrorView::LlmRefusal { .. } => "reframe"@,
        AgentErrorView::LlmTimeout { .. } => "retry"@,
        AgentErrorView::LlmProviderDown { .. } => "change_provider"@,
        AgentErrorView::ToolNotFound { .. } => "swap_tool"@,
        AgentErrorView::ToolExecutionFailed { .. } => "retry"@,
        AgentErrorView::ToolTimeout { .. } => "retry"@,
        AgentErrorView::ToolPermissionDenied { .. } => "retry"@,
        AgentErrorView::ToolOutputInvalid { .. } => "reframe"@,
        AgentErrorView::InfiniteLoop { .. } => "reduce_scope"@,
        AgentErrorView::GoalUnachievable { .. } => "reduce_scope"@,
        AgentErrorView::PlanInvalid { .. } => "decompose"@,
        AgentErrorView::ContextCorrupted => "retry"@,
        AgentErrorView::MemoryUnavailable { .. } => "retry"@,
        AgentErrorView::McpConnectionFailed { .. } => "retry"@,
        AgentErrorView::NetworkTimeout { .. } => "retry"@,
        AgentErrorView::SubAgentFailed { .. } => "spawn_subagent"@,
        AgentErrorView::OrchestratorFailed { .. } => "retry"@,
        AgentErrorView::Config(_) => "retry"@,
    }
}

/// Which errors are recoverable, which degrade the run and which are fatal.
/// Transient failures (rate limits, timeouts of the model, a tool or the
/// network, a failed or invalid tool run, an overflowing context, a
/// hallucination, an invalid plan, a lost MCP connection) are recoverable;
/// a refusal, a provider outage, a missing tool, a loop, an unavailable
/// store or a failed sub-agent degrade the run; a denied permission, an
/// unachievable goal, a corrupted context, a failed orchestrator and a bad
/// configuration are fatal.
pub proof fn lemma_severity_classes(e: AgentErrorView)
    ensures
        severity_of(e) == ErrorSeverity::Recoverable <==> (e is LlmRateLimit || e is LlmContextOverflow
            || e is LlmHallucination || e is LlmTimeout || e is ToolExecutionFailed || e is ToolTimeout
            || e is ToolOutputInvalid || e is PlanInvalid || e is McpConnectionFailed
            || e is NetworkTimeout),
        severity_of(e) == ErrorSeverity::Degradable <==> (e is LlmRefusal || e is LlmProviderDown
            || e is ToolNotFound || e is InfiniteLoop || e is MemoryUnavailable || e is SubAgentFailed),
        severity_of(e) == ErrorSeverity::Fatal <==> (e is ToolPermissionDenied || e is GoalUnachievable
            || e is ContextCorrupted || e is OrchestratorFailed || e is Config),
{
}

/// Which heal strategy each kind of error tries first: a retry for
/// transient failures, a reframed prompt for a hallucination, a refusal or
/// invalid tool output, another provider when one is down, another tool
/// when one is missing, a reduced scope for a loop or an unachievable
/// goal, a decomposition for an invalid plan and a sub-agent when one
/// failed.
pub proof fn lemma_first_strategy_classes(e: AgentErrorView)
    ensures
        first_strategy_of(e) == "retry"@ <==> (e is LlmRateLimit || e is LlmContextOverflow
            || e is LlmTimeout || e is ToolExecutionFailed || e is ToolTimeout || e is ToolPermissionDenied
            || e is ContextCorrupted || e is MemoryUnavailable || e is McpConnectionFailed
            || e is NetworkTimeout || e is OrchestratorFailed || e is Config),
        first_strategy_of(e) == "reframe"@ <==> (e is LlmHallucination || e is LlmRefusal
            || e is ToolOutputInvalid),
        first_strategy_of(e) == "change_provider"@ <==> e is LlmProviderDown,
        first_strategy_of(e) == "swap_tool"@ <==> e is ToolNotFound,
        first_strategy_of(e) == "reduce_scope"@ <==> (e is InfiniteLoop || e is GoalUnachievable),
        first_strategy_of(e) == "decompose"@ <==> e is PlanInvalid,
        first_strategy_of(e) == "spawn_subagent"@ <==> e is SubAgentFailed,
{
    reveal_strlit("retry");
    reveal_strlit("reframe");
    reveal_strlit("change_provider");
    reveal_strlit("swap_tool");
    reveal_strlit("reduce_scope");
    reveal_strlit("decompose");
    reveal_strlit("spawn_subagent");
    assert("retry"@.len() == 5);
    assert("reframe"@.len() == 7);
    assert("change_provider"@.len() == 15);
    assert("swap_tool"@.len() == 9 && "swap_tool"@[0] == 's');
    assert("reduce_scope"@.len() == 12);
    assert("decompose"@.len() == 9 && "decompose"@[0] == 'd');
    assert("spawn_subagent"@.len() == 14);
}

/// Classifies errors and names the strategy to try first.
pub struct ErrorClassifier;

impl ErrorClassifier {
    /// The severity of `error`.
    pub fn classify(error: &AgentError) -> (r: ErrorSeverity)
        ensures
            r == severity_of(error@),
    {
        match error {
            AgentError::LlmRateLimit { .. } => ErrorSeverity::Recoverable,
            AgentError::LlmContextOverflow { .. } => ErrorSeverity::Recoverable,
            AgentError::LlmHallucination { .. } => ErrorSeverity::Recoverable,
            AgentError::LlmRefusal { .. } => ErrorSeverity::Degradable,
            AgentError::LlmTimeout { .. } => ErrorSeverity::Recoverable,
            AgentError::LlmProviderDown { .. } => ErrorSeverity::Degradable,
            AgentError::ToolNotFound { .. } => ErrorSeverity::Degradable,
            AgentError::ToolExecutionFailed { .. } => ErrorSeverity::Recoverable,
            AgentError::ToolTimeout { .. } => ErrorSeverity::Recoverable,
            AgentError::ToolPermissionDenied { .. } => ErrorSeverity::Fatal,
            AgentError::ToolOutputInvalid { .. } => ErrorSeverity::Recoverable,
            AgentError::InfiniteLoop { .. } => ErrorSeverity::Degradable,
            AgentError::GoalUnachievable { .. } => ErrorSeverity::Fatal,
            AgentError::PlanInvalid { .. } => ErrorSeverity::Recoverable,
            AgentError::ContextCorrupted => ErrorSeverity::Fatal,
            AgentError::MemoryUnavailable { .. } => ErrorSeverity::Degradable,
            AgentError::McpConnectionFailed { .. } => ErrorSeverity::Recoverable,
            AgentError::NetworkTimeout { .. } => ErrorSeverity::Recoverable,
            AgentError::SubAgentFailed { .. } => ErrorSeverity::Degradable,
            AgentError::OrchestratorFailed { .. } => ErrorSeverity::Fatal,
            AgentError::Config(_) => ErrorSeverity::Fatal,
        }
    }

    /// The name of the heal strategy to try first for `error`.
    pub fn initial_strategy(error: &AgentError) -> (r: &'static str)
        ensures
            r@ == first_strategy_of(error@),
    {
        match error {
            AgentError::LlmRateLimit { .. } => "retry",
            AgentError::LlmContextOverflow { .. } => "retry",
            AgentError::LlmHallucination { .. } => "reframe",
            AgentError::LlmRefusal { .. } => "reframe",
            AgentError::LlmTimeout { .. } => "retry",
            AgentError::LlmProviderDown { .. } => "change_provider",
            AgentError::ToolNotFound { .. } => "swap_tool",
            AgentError::ToolExecutionFailed { .. } => "retry",
            AgentError::ToolTimeout { .. } => "retry",
            AgentError::ToolPermissionDenied { .. } => "retry",
            AgentError::ToolOutputInvalid { .. } => "reframe",
            AgentError::InfiniteLoop { .. } => "reduce_scope",
            AgentError::GoalUnachievable { .. } => "reduce_scope",
            AgentError::PlanInvalid { .. } => "decompose",
            AgentError::ContextCorrupted => "retry",
            AgentError::MemoryUnavailable { .. } => "retry",
            AgentError::McpConnectionFailed { .. } => "retry",
            AgentError::NetworkTimeout { .. } => "retry",
            AgentError::SubAgentFailed { .. } => "spawn_subagent",
            AgentError::OrchestratorFailed { .. } => "retry",
            AgentError::Config(_) => "retry",
        }
    }
}

} // verus!
