//! Post-mortems: the lesson learned from a healed error.
use vstd::prelude::*;
use vstd::string::StringExecFns;
use crate::error::{AgentError, AgentErrorView, agent_error_text, agent_error_wf, cat2, cat3, cat5};
use crate::heal::HealContext;
use crate::stamp::{clock_in_range, fresh_id, is_v4, now_millis};
use crate::text::{
    before_char, chars_before, chars_of, decimal, decimal_text, str_eq, string_debug,
    string_debug_text, text_from_chars, trim, trim_chars,
};

verus! {

/// One application of a heal strategy to an error.
#[derive(Debug)]
pub struct HealStep {
    pub id: u128,
    pub error: AgentError,
    pub strategy_name: String,
    pub started_at_ms: i64,
    pub ended_at_ms: Option<i64>,
    pub success: bool,
    pub output: Option<String>,
}

/// What was learned from an error: its kind, where it happened, why, how it
/// was resolved and how to prevent it. The confidence is in percent.
#[derive(Debug)]
pub struct Lesson {
    pub id: u128,
    pub error_type: String,
    pub context_summary: String,
    pub root_cause: String,
    pub resolution: String,
    pub prevention: String,
    pub confidence_percent: u32,
    pub created_at_ms: i64,
}

/// The short name of an error's kind: the variant's name, as the error's
/// debug text reads before its first `{`, trimmed.
pub open spec fn error_type_name(e: AgentErrorView) -> Seq<char> {
    match e {
        AgentErrorView::LlmRateLimit { .. } => "LlmRateLimit"@,
        AgentErrorView::LlmContextOverflow { .. } => "LlmContextOverflow"@,
        AgentErrorView::LlmHallucination { .. } => "LlmHallucination"@,
        AgentErrorView::LlmRefusal { .. } => "LlmRefusal"@,
        AgentErrorView::LlmTimeout { .. } => "LlmTimeout"@,
        AgentErrorView::LlmProviderDown { .. } => "LlmProviderDown"@,
        AgentErrorView::ToolNotFound { .. } => "ToolNotFound"@,
        AgentErrorView::ToolExecutionFailed { .. } => "ToolExecutionFailed"@,
        AgentErrorView::ToolTimeout { .. } => "ToolTimeout"@,
        AgentErrorView::ToolPermissionDenied { .. } => "ToolPermissionDenied"@,
        AgentErrorView::ToolOutputInvalid { .. } => "ToolOutputInvalid"@,
        AgentErrorView::InfiniteLoop { .. } => "InfiniteLoop"@,
        AgentErrorView::GoalUnachievable { .. } => "GoalUnachievable"@,
        AgentErrorView::PlanInvalid { .. } => "PlanInvalid"@,
        AgentErrorView::MemoryUnavailable { .. } => "MemoryUnavailable"@,
        AgentErrorView::McpConnectionFailed { .. } => "McpConnectionFailed"@,
        AgentErrorView::NetworkTimeout { .. } => "NetworkTimeout"@,
        AgentErrorView::SubAgentFailed { .. } => "SubAgentFailed"@,
        AgentErrorView::OrchestratorFailed { .. } => "OrchestratorFailed"@,
        AgentErrorView::Config(msg) => trim(
            before_char("Config("@ + string_debug(msg) + ")"@, '{'),
        ),
        AgentErrorView::ContextCorrupted => "ContextCorrupted"@,
    }
}

/// The prevention advice for an error kind.
pub open spec fn prevention_for(t: Seq<char>) -> Seq<char> {
    if t == "LlmRateLimit"@ {
        "Implement exponential backoff and respect retry-after headers"@
    } else if t == "ToolExecutionFailed"@ {
        "Validate tool inputs before execution and handle edge cases"@
    } else if t == "ToolNotFound"@ {
        "Ensure all required tools are registered before agent execution"@
    } else if t == "ToolTimeout"@ {
        "Increase timeout or optimize tool execution for large inputs"@
    } else if t == "LlmContextOverflow"@ {
        "Monitor token count and trigger overflow handling proactively"@
    } else if t == "LlmHallucination"@ {
        "Add explicit constraints to the system prompt about factual accuracy"@
    } else if t == "LlmRefusal"@ {
        "Rephrase the request to be more specific and within policy boundaries"@
    } else if t == "LlmProviderDown"@ {
        "Configure fallback providers and implement provider health checks"@
    } else if t == "LlmTimeout"@ {
        "Increase timeout or reduce request complexity"@
    } else if t == "ToolPermissionDenied"@ {
        "Request appropriate permissions or use alternative tools"@
    } else if t == "ToolOutputInvalid"@ {
        "Add output validation and parsing with error recovery"@
    } else if t == "InfiniteLoop"@ {
        "Add iteration limits and progress detection to break loops"@
    } else if t == "GoalUnachievable"@ {
        "Decompose complex goals into achievable sub-tasks"@
    } else if t == "PlanInvalid"@ {
        "Validate plans before execution and include error recovery steps"@
    } else if t == "MemoryUnavailable"@ {
        "Implement graceful degradation when memory stores are unavailable"@
    } else if t == "McpConnectionFailed"@ {
        "Add reconnection logic with exponential backoff"@
    } else if t == "NetworkTimeout"@ {
        "Configure appropriate timeouts and retry policies"@
    } else if t == "SubAgentFailed"@ {
        "Add sub-agent health monitoring and automatic restart"@
    } else if t == "OrchestratorFailed"@ {
        "Implement orchestrator health checks and failover"@
    } else {
        "Review error logs and adjust configuration accordingly"@
    }
}

/// The root cause a post-mortem names for an error.
pub open spec fn root_cause_of(e: AgentErrorView) -> Seq<char> {
    match e {
        AgentErrorView::LlmRateLimit { provider, .. } => "Rate limited by "@ + provider
            + " provider"@,
        AgentErrorView::ToolExecutionFailed { name, reason, .. } => "Tool '"@ + name
            + "' failed: "@ + reason,
        AgentErrorView::ToolNotFound { name } => "Tool '"@ + name
            + "' not registered in the tool registry"@,
        AgentErrorView::ToolTimeout { name, elapsed } => "Tool '"@ + name
            + "' exceeded timeout of "@ + elapsed.debug_text(),
        AgentErrorView::LlmContextOverflow { current, limit } => "Context overflow: "@ + decimal(
            current as nat,
        ) + " tokens exceeds limit of "@ + decimal(limit as nat),
        AgentErrorView::LlmHallucination { evidence, .. } => "LLM produced hallucinated content: "@
            + evidence,
        AgentErrorView::NetworkTimeout { url, .. } => "Network request to '"@ + url
            + "' timed out"@,
        _ => "Error: "@ + agent_error_text(e),
    }
}

/// Where an error happened, in words.
pub open spec fn context_summary_of(ctx: HealContext) -> Seq<char> {
    "Agent '"@ + ctx.agent_id@ + "' during run '"@ + ctx.run_id@
        + "' encountered error at iteration "@ + decimal(ctx.iteration as nat) + ": "@
        + agent_error_text(ctx.error@)
}

/// How the error was resolved: the strategy's output, or a default.
pub open spec fn resolution_of(step: HealStep) -> Seq<char> {
    match step.output {
        Some(o) => o@,
        None => "Strategy applied"@,
    }
}

/// Derives lessons from healed errors.
pub struct PostMortem;

impl PostMortem {
    /// The short name of `error`'s kind.
    pub fn error_type(error: &AgentError) -> (r: String)
        ensures
            r@ == error_type_name(error@),
    {
        match error {
            AgentError::LlmRateLimit { .. } => String::from_str("LlmRateLimit"),
            AgentError::LlmContextOverflow { .. } => String::from_str("LlmContextOverflow"),
            AgentError::LlmHallucination { .. } => String::from_str("LlmHallucination"),
            AgentError::LlmRefusal { .. } => String::from_str("LlmRefusal"),
            AgentError::LlmTimeout { .. } => String::from_str("LlmTimeout"),
            AgentError::LlmProviderDown { .. } => String::from_str("LlmProviderDown"),
            AgentError::ToolNotFound { .. } => String::from_str("ToolNotFound"),
            AgentError::ToolExecutionFailed { .. } => String::from_str("ToolExecutionFailed"),
            AgentError::ToolTimeout { .. } => String::from_str("ToolTimeout"),
            AgentError::ToolPermissionDenied { .. } => String::from_str("ToolPermissionDenied"),
            AgentError::ToolOutputInvalid { .. } => String::from_str("ToolOutputInvalid"),
            AgentError::InfiniteLoop { .. } => String::from_str("InfiniteLoop"),
            AgentError::GoalUnachievable { .. } => String::from_str("GoalUnachievable"),
            AgentError::PlanInvalid { .. } => String::from_str("PlanInvalid"),
            AgentError::MemoryUnavailable { .. } => String::from_str("MemoryUnavailable"),
            AgentError::McpConnectionFailed { .. } => String::from_str("McpConnectionFailed"),
            AgentError::NetworkTimeout { .. } => String::from_str("NetworkTimeout"),
            AgentError::SubAgentFailed { .. } => String::from_str("SubAgentFailed"),
            AgentError::OrchestratorFailed { .. } => String::from_str("OrchestratorFailed"),
            AgentError::Config(msg) => {
                let quoted = string_debug_text(msg.as_str());
                let whole = cat3("Config(", quoted.as_str(), ")");
                let cs = chars_of(whole.as_str());
                let head = chars_before(&cs, '{');
                let t = trim_chars(&head);
                text_from_chars(&t)
            },
            AgentError::ContextCorrupted => String::from_str("ContextCorrupted"),
        }
    }

    /// The advice for preventing errors of kind `error_type`.
    pub fn suggest_prevention(error_type: &str) -> (r: String)
        ensures
            r@ == prevention_for(error_type@),
    {
        let t = error_type;
        let s = if str_eq(t, "LlmRateLimit") {
            "Implement exponential backoff and respect retry-after headers"
        } else if str_eq(t, "ToolExecutionFailed") {
            "Validate tool inputs before execution and handle edge cases"
        } else if str_eq(t, "ToolNotFound") {
            "Ensure all required tools are registered before agent execution"
        } else if str_eq(t, "ToolTimeout") {
            "Increase timeout or optimize tool execution for large inputs"
        } else if str_eq(t, "LlmContextOverflow") {
            "Monitor token count and trigger overflow handling proactively"
        } else if str_eq(t, "LlmHallucination") {
            "Add explicit constraints to the system prompt about factual accuracy"
        } else if str_eq(t, "LlmRefusal") {
            "Rephrase the request to be more specific and within policy boundaries"
        } else if str_eq(t, "LlmProviderDown") {
            "Configure fallback providers and implement provider health checks"
        } else if str_eq(t, "LlmTimeout") {
            "Increase timeout or reduce request complexity"
        } else if str_eq(t, "ToolPermissionDenied") {
            "Request appropriate permissions or use alternative tools"
        } else if str_eq(t, "ToolOutputInvalid") {
            "Add output validation and parsing with error recovery"
        } else if str_eq(t, "InfiniteLoop") {
            "Add iteration limits and progress detection to break loops"
        } else if str_eq(t, "GoalUnachievable") {
            "Decompose complex goals into achievable sub-tasks"
        } else if str_eq(t, "PlanInvalid") {
            "Validate plans before execution and include error recovery steps"
        } else if str_eq(t, "MemoryUnavailable") {
            "Implement graceful degradation when memory stores are unavailable"
        } else if str_eq(t, "McpConnectionFailed") {
            "Add reconnection logic with exponential backoff"
        } else if str_eq(t, "NetworkTimeout") {
            "Configure appropriate timeouts and retry policies"
        } else if str_eq(t, "SubAgentFailed") {
            "Add sub-agent health monitoring and automatic restart"
        } else if str_eq(t, "OrchestratorFailed") {
            "Implement orchestrator health checks and failover"
        } else {
            "Review error logs and adjust configuration accordingly"
        };
        String::from_str(s)
    }

    /// The root cause named for the error in `ctx`.
    pub fn infer_root_cause(ctx: &HealContext) -> (r: String)
        requires
            agent_error_wf(ctx.error@),
        ensures
            r@ == root_cause_of(ctx.error@),
    {
        match &ctx.error {
            AgentError::LlmRateLimit { provider, .. } => cat3(
                "Rate limited by ",
                provider.as_str(),
                " provider",
            ),
            AgentError::ToolExecutionFailed { name, reason, .. } => cat3(
                "Tool '",
                name.as_str(),
                "' failed: ",
            ).concat(reason.as_str()),
            AgentError::ToolNotFound { name } => cat3(
                "Tool '",
                name.as_str(),
                "' not registered in the tool registry",
            ),
            AgentError::ToolTimeout { name, elapsed } => {
                let d = elapsed.to_debug_text();
                cat3("Tool '", name.as_str(), "' exceeded timeout of ").concat(d.as_str())
            },
            AgentError::LlmContextOverflow { current, limit } => {
                let c = decimal_text(*current as u64);
                let l = decimal_text(*limit as u64);
                cat3("Context overflow: ", c.as_str(), " tokens exceeds limit of ").concat(
                    l.as_str(),
                )
            },
            AgentError::LlmHallucination { evidence, .. } => cat2(
                "LLM produced hallucinated content: ",
                evidence.as_str(),
            ),
            AgentError::NetworkTimeout { url, .. } => cat3(
                "Network request to '",
                url.as_str(),
                "' timed out",
            ),
            _ => {
                let e = ctx.error.to_string();
                cat2("Error: ", e.as_str())
            },
        }
    }

    /// The lesson learned from healing the error in `ctx` with `heal_step`.
    /// Its identifier is fresh and its time is the current time.
    pub fn generate_lesson(ctx: &HealContext, heal_step: &HealStep) -> (l: Lesson)
        requires
            agent_error_wf(ctx.error@),
        ensures
            l.error_type@ == error_type_name(ctx.error@),
            l.context_summary@ == context_summary_of(*ctx),
            l.root_cause@ == root_cause_of(ctx.error@),
            l.resolution@ == resolution_of(*heal_step),
            l.prevention@ == prevention_for(error_type_name(ctx.error@)),
            l.confidence_percent == 70,
            is_v4(l.id),
            clock_in_range(l.created_at_ms),
    {
        let error_type = Self::error_type(&ctx.error);
        let iteration = decimal_text(ctx.iteration as u64);
        let err = ctx.error.to_string();
        let context_summary = cat5(
            "Agent '",
            ctx.agent_id.as_str(),
            "' during run '",
            ctx.run_id.as_str(),
            "' encountered error at iteration ",
        ).concat(iteration.as_str()).concat(": ").concat(err.as_str());
        let root_cause = Self::infer_root_cause(ctx);
        let resolution = match &heal_step.output {
            Some(o) => o.clone(),
            None => String::from_str("Strategy applied"),
        };
        let prevention = Self::suggest_prevention(error_type.as_str());
        Lesson {
            id: fresh_id(),
            error_type,
            context_summary,
            root_cause,
            resolution,
            prevention,
            confidence_percent: 70,
            created_at_ms: now_millis(),
        }
    }
}

} // verus!
