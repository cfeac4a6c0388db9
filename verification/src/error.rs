//! The error types of the framework and the messages they read as.
use vstd::prelude::*;
use vstd::string::StringExecFns;
use crate::text::{decimal, decimal_text};

verus! {

/// A span of time: whole seconds and the nanoseconds beyond them, as a
/// standard `Duration` holds it.
#[derive(Clone, Copy, Debug, PartialEq, Eq, Structural)]
pub struct Span {
    pub secs: u64,
    pub nanos: u32,
}

/// The text that `{:?}` renders for the duration `Duration::new(secs, nanos)`.
pub uninterp spec fn duration_debug(secs: u64, nanos: u32) -> Seq<char>;

/// Renders the duration `Duration::new(secs, nanos)` with `{:?}`.
/// Claims only that the text is a function of the two numbers; the
/// rendering itself (units, decimals) is std's and is not restated.
#[verifier::external_body]
fn duration_debug_text(secs: u64, nanos: u32) -> (s: String)
    requires
        secs as int + nanos as int / 1_000_000_000 <= u64::MAX,
    ensures
        s@ == duration_debug(secs, nanos),
{
    format!("{:?}", std::time::Duration::new(secs, nanos))
}

impl Span {
    /// Whether the span is normalised: fewer than a second of nanoseconds.
    pub open spec fn wf(self) -> bool {
        self.nanos < 1_000_000_000
    }

    /// The span in nanoseconds.
    pub open spec fn total_nanos(self) -> int {
        self.secs * 1_000_000_000 + self.nanos
    }

    /// A span of whole seconds.
    pub fn from_secs(secs: u64) -> (r: Span)
        ensures
            r.secs == secs,
            r.nanos == 0,
    {
        Span { secs, nanos: 0 }
    }

    /// A span of milliseconds, split as `Duration::from_millis` splits it.
    pub fn from_millis(ms: u64) -> (r: Span)
        ensures
            r.wf(),
            r.secs == ms / 1000,
            r.nanos == (ms % 1000) * 1_000_000,
            r.total_nanos() == ms * 1_000_000,
    {
        Span { secs: ms / 1000, nanos: ((ms % 1000) as u32) * 1_000_000 }
    }

    /// The text `{:?}` renders for this span.
    pub open spec fn debug_text(self) -> Seq<char> {
        duration_debug(self.secs, self.nanos)
    }

    /// Renders the span as `{:?}` renders a `Duration`.
    pub fn to_debug_text(&self) -> (s: String)
        requires
            self.wf(),
        ensures
            s@ == self.debug_text(),
    {
        duration_debug_text(self.secs, self.nanos)
    }
}

/// `a + b`.
pub fn cat2(a: &str, b: &str) -> (s: String)
    ensures
        s@ == a@ + b@,
{
    let mut s = String::from_str(a);
    s.append(b);
    s
}

/// `a + b + c`.
pub fn cat3(a: &str, b: &str, c: &str) -> (s: String)
    ensures
        s@ == a@ + b@ + c@,
{
    let mut s = String::from_str(a);
    s.append(b);
    s.append(c);
    s
}

/// `a + b + c + d`.
pub fn cat4(a: &str, b: &str, c: &str, d: &str) -> (s: String)
    ensures
        s@ == a@ + b@ + c@ + d@,
{
    let mut s = String::from_str(a);
    s.append(b);
    s.append(c);
    s.append(d);
    s
}

/// `a + b + c + d + e`.
pub fn cat5(a: &str, b: &str, c: &str, d: &str, e: &str) -> (s: String)
    ensures
        s@ == a@ + b@ + c@ + d@ + e@,
{
    let mut s = String::from_str(a);
    s.append(b);
    s.append(c);
    s.append(d);
    s.append(e);
    s
}

/// An error that stops or disturbs an agent's run.
///
/// Durations are held as `Span`s; the hallucination confidence is held as
/// the bit pattern of the `f32` that the model reported.
#[derive(Debug)]
pub enum AgentError {
    LlmRateLimit { retry_after: Span, provider: String },
    LlmContextOverflow { current: usize, limit: usize },
    LlmHallucination { evidence: String, confidence_bits: u32 },
    LlmRefusal { reason: String, provider: String },
    LlmTimeout { elapsed: Span, provider: String },
    LlmProviderDown { provider: String, reason: String },
    ToolNotFound { name: String },
    ToolExecutionFailed { name: String, reason: String, exit_code: Option<i32> },
    ToolTimeout { name: String, elapsed: Span },
    ToolPermissionDenied { name: String, resource: String },
    ToolOutputInvalid { name: String, output: String },
    InfiniteLoop { iteration_count: usize },
    GoalUnachievable { reason: String },
    PlanInvalid { plan: String, reason: String },
    MemoryUnavailable { store: String, reason: String },
    McpConnectionFailed { server: String, reason: String },
    NetworkTimeout { url: String, elapsed: Span },
    SubAgentFailed { agent_id: String, error: Box<AgentError> },
    OrchestratorFailed { reason: String },
    Config(String),
    ContextCorrupted,
}

impl Clone for AgentError {
    fn clone(&self) -> (r: Self)
        ensures
            r == *self,
        decreases *self,
    {
        match self {
            AgentError::LlmRateLimit { retry_after, provider } => AgentError::LlmRateLimit {
                retry_after: *retry_after,
                provider: provider.clone(),
            },
            AgentError::LlmContextOverflow { current, limit } => AgentError::LlmContextOverflow {
                current: *current,
                limit: *limit,
            },
            AgentError::LlmHallucination { evidence, confidence_bits } =>
                AgentError::LlmHallucination {
                evidence: evidence.clone(),
                confidence_bits: *confidence_bits,
            },
            AgentError::LlmRefusal { reason, provider } => AgentError::LlmRefusal {
                reason: reason.clone(),
                provider: provider.clone(),
            },
            AgentError::LlmTimeout { elapsed, provider } => AgentError::LlmTimeout {
                elapsed: *elapsed,
                provider: provider.clone(),
            },
            AgentError::LlmProviderDown { provider, reason } => AgentError::LlmProviderDown {
                provider: provider.clone(),
                reason: reason.clone(),
            },
            AgentError::ToolNotFound { name } => AgentError::ToolNotFound { name: name.clone() },
            AgentError::ToolExecutionFailed { name, reason, exit_code } =>
                AgentError::ToolExecutionFailed {
                name: name.clone(),
                reason: reason.clone(),
                exit_code: *exit_code,
            },
            AgentError::ToolTimeout { name, elapsed } => AgentError::ToolTimeout {
                name: name.clone(),
                elapsed: *elapsed,
            },
            AgentError::ToolPermissionDenied { name, resource } =>
                AgentError::ToolPermissionDenied { name: name.clone(), resource: resource.clone() },
            AgentError::ToolOutputInvalid { name, output } => AgentError::ToolOutputInvalid {
                name: name.clone(),
                output: output.clone(),
            },
            AgentError::PlanInvalid { plan, reason } => AgentError::PlanInvalid {
                plan: plan.clone(),
                reason: reason.clone(),
            },
            AgentError::InfiniteLoop { iteration_count } => AgentError::InfiniteLoop {
                iteration_count: *iteration_count,
            },
            AgentError::GoalUnachievable { reason } => AgentError::GoalUnachievable {
                reason: reason.clone(),
            },
            AgentError::MemoryUnavailable { store, reason } => AgentError::MemoryUnavailable {
                store: store.clone(),
                reason: reason.clone(),
            },
            AgentError::McpConnectionFailed { server, reason } => AgentError::McpConnectionFailed {
                server: server.clone(),
                reason: reason.clone(),
            },
            AgentError::NetworkTimeout { url, elapsed } => AgentError::NetworkTimeout {
                url: url.clone(),
                elapsed: *elapsed,
            },
            AgentError::SubAgentFailed { agent_id, error } => {
                let inner: AgentError = (**error).clone();
                AgentError::SubAgentFailed { agent_id: agent_id.clone(), error: Box::new(inner) }
            },
            AgentError::OrchestratorFailed { reason } => AgentError::OrchestratorFailed {
                reason: reason.clone(),
            },
            AgentError::Config(msg) => AgentError::Config(msg.clone()),
            AgentError::ContextCorrupted => AgentError::ContextCorrupted,
        }
    }
}

/// The mathematical form of an agent error: each string by its characters.
pub enum AgentErrorView {
    LlmRateLimit { retry_after: Span, provider: Seq<char> },
    LlmContextOverflow { current: usize, limit: usize },
    LlmHallucination { evidence: Seq<char>, confidence_bits: u32 },
    LlmRefusal { reason: Seq<char>, provider: Seq<char> },
    LlmTimeout { elapsed: Span, provider: Seq<char> },
    LlmProviderDown { provider: Seq<char>, reason: Seq<char> },
    ToolNotFound { name: Seq<char> },
    ToolExecutionFailed { name: Seq<char>, reason: Seq<char>, exit_code: Option<i32> },
    ToolTimeout { name: Seq<char>, elapsed: Span },
    ToolPermissionDenied { name: Seq<char>, resource: Seq<char> },
    ToolOutputInvalid { name: Seq<char>, output: Seq<char> },
    InfiniteLoop { iteration_count: usize },
    GoalUnachievable { reason: Seq<char> },
    PlanInvalid { plan: Seq<char>, reason: Seq<char> },
    MemoryUnavailable { store: Seq<char>, reason: Seq<char> },
    McpConnectionFailed { server: Seq<char>, reason: Seq<char> },
    NetworkTimeout { url: Seq<char>, elapsed: Span },
    SubAgentFailed { agent_id: Seq<char>, error: Box<AgentErrorView> },
    OrchestratorFailed { reason: Seq<char> },
    Config(Seq<char>),
    ContextCorrupted,
}

/// The view of an agent error.
pub open spec fn agent_error_view(e: AgentError) -> AgentErrorView
    decreases e,
{
    match e {
        AgentError::LlmRateLimit { retry_after, provider } => AgentErrorView::LlmRateLimit {
            retry_after,
            provider: provider@,
        },
        AgentError::LlmContextOverflow { current, limit } => AgentErrorView::LlmContextOverflow {
            current,
            limit,
        },
        AgentError::LlmHallucination { evidence, confidence_bits } =>
            AgentErrorView::LlmHallucination { evidence: evidence@, confidence_bits },
        AgentError::LlmRefusal { reason, provider } => AgentErrorView::LlmRefusal {
            reason: reason@,
            provider: provider@,
        },
        AgentError::LlmTimeout { elapsed, provider } => AgentErrorView::LlmTimeout {
            elapsed,
            provider: provider@,
        },
        AgentError::LlmProviderDown { provider, reason } => AgentErrorView::LlmProviderDown {
            provider: provider@,
            reason: reason@,
        },
        AgentError::ToolNotFound { name } => AgentErrorView::ToolNotFound { name: name@ },
        AgentError::ToolExecutionFailed { name, reason, exit_code } =>
            AgentErrorView::ToolExecutionFailed { name: name@, reason: reason@, exit_code },
        AgentError::ToolTimeout { name, elapsed } => AgentErrorView::ToolTimeout {
            name: name@,
            elapsed,
        },
        AgentError::ToolPermissionDenied { name, resource } =>
            AgentErrorView::ToolPermissionDenied { name: name@, resource: resource@ },
        AgentError::ToolOutputInvalid { name, output } => AgentErrorView::ToolOutputInvalid {
            name: name@,
            output: output@,
        },
        AgentError::PlanInvalid { plan, reason } => AgentErrorView::PlanInvalid {
            plan: plan@,
            reason: reason@,
        },
        AgentError::InfiniteLoop { iteration_count } => AgentErrorView::InfiniteLoop {
            iteration_count,
        },
        AgentError::GoalUnachievable { reason } => AgentErrorView::GoalUnachievable {
            reason: reason@,
        },
        AgentError::MemoryUnavailable { store, reason } => AgentErrorView::MemoryUnavailable {
            store: store@,
            reason: reason@,
        },
        AgentError::McpConnectionFailed { server, reason } =>
            AgentErrorView::McpConnectionFailed { server: server@, reason: reason@ },
        AgentError::NetworkTimeout { url, elapsed } => AgentErrorView::NetworkTimeout {
            url: url@,
            elapsed,
        },
        AgentError::SubAgentFailed { agent_id, error } => AgentErrorView::SubAgentFailed {
            agent_id: agent_id@,
            error: Box::new(agent_error_view(*error)),
        },
        AgentError::OrchestratorFailed { reason } => AgentErrorView::OrchestratorFailed {
            reason: reason@,
        },
        AgentError::Config(msg) => AgentErrorView::Config(msg@),
        AgentError::ContextCorrupted => AgentErrorView::ContextCorrupted,
    }
}

impl View for AgentError {
    type V = AgentErrorView;

    open spec fn view(&self) -> AgentErrorView {
        agent_error_view(*self)
    }
}

/// The message an agent error reads as.
pub open spec fn agent_error_text(e: AgentErrorView) -> Seq<char>
    decreases e,
{
    match e {
        AgentErrorView::LlmRateLimit { retry_after, .. } => "LLM rate limited, retry after "@
            + retry_after.debug_text(),
        AgentErrorView::LlmContextOverflow { current, limit } => "LLM context overflow: "@
            + decimal(current as nat) + " tokens exceeds limit "@ + decimal(limit as nat),
        AgentErrorView::LlmHallucination { evidence, .. } => "LLM hallucination detected: "@
            + evidence,
        AgentErrorView::LlmRefusal { reason, .. } => "LLM refused: "@ + reason,
        AgentErrorView::LlmTimeout { elapsed, .. } => "LLM timeout after "@ + elapsed.debug_text(),
        AgentErrorView::LlmProviderDown { provider, reason } => "LLM provider "@ + provider
            + " is down: "@ + reason,
        AgentErrorView::ToolNotFound { name } => "Tool not found: "@ + name,
        AgentErrorView::ToolExecutionFailed { name, reason, .. } => "Tool "@ + name + " failed: "@
            + reason,
        AgentErrorView::ToolTimeout { name, elapsed } => "Tool "@ + name + " timed out after "@
            + elapsed.debug_text(),
        AgentErrorView::ToolPermissionDenied { name, resource } => "Tool "@ + name
            + " permission denied for "@ + resource,
        AgentErrorView::ToolOutputInvalid { name, output } => "Tool "@ + name
            + " produced invalid output: "@ + output,
        AgentErrorView::PlanInvalid { reason, .. } => "Plan invalid: "@ + reason,
        AgentErrorView::InfiniteLoop { iteration_count } => "Infinite loop after "@ + decimal(
            iteration_count as nat,
        ) + " iterations"@,
        AgentErrorView::GoalUnachievable { reason } => "Goal unachievable: "@ + reason,
        AgentErrorView::MemoryUnavailable { store, reason } => "Memory store "@ + store
            + " unavailable: "@ + reason,
        AgentErrorView::McpConnectionFailed { server, reason } => "MCP connection to "@ + server
            + " failed: "@ + reason,
        AgentErrorView::NetworkTimeout { url, elapsed } => "Network timeout for "@ + url
            + " after "@ + elapsed.debug_text(),
        AgentErrorView::SubAgentFailed { agent_id, error } => "Sub-agent "@ + agent_id
            + " failed: "@ + agent_error_text(*error),
        AgentErrorView::OrchestratorFailed { reason } => "Orchestrator failed: "@ + reason,
        AgentErrorView::Config(msg) => "Config error: "@ + msg,
        AgentErrorView::ContextCorrupted => "Context corrupted"@,
    }
}

/// Whether every span an error holds (nested errors included) is normalised.
pub open spec fn agent_error_wf(e: AgentErrorView) -> bool
    decreases e,
{
    match e {
        AgentErrorView::LlmRateLimit { retry_after, .. } => retry_after.wf(),
        AgentErrorView::LlmTimeout { elapsed, .. } => elapsed.wf(),
        AgentErrorView::ToolTimeout { elapsed, .. } => elapsed.wf(),
        AgentErrorView::NetworkTimeout { elapsed, .. } => elapsed.wf(),
        AgentErrorView::SubAgentFailed { error, .. } => agent_error_wf(*error),
        _ => true,
    }
}

impl AgentError {
    /// The message this error reads as (what its `Display` shows).
    pub fn to_string(&self) -> (s: String)
        requires
            agent_error_wf(self@),
        ensures
            s@ == agent_error_text(self@),
        decreases *self,
    {
        match self {
            AgentError::LlmRateLimit { retry_after, .. } => {
                let d = retry_after.to_debug_text();
                cat2("LLM rate limited, retry after ", d.as_str())
            },
            AgentError::LlmContextOverflow { current, limit } => {
                let c = decimal_text(*current as u64);
                let l = decimal_text(*limit as u64);
                cat4("LLM context overflow: ", c.as_str(), " tokens exceeds limit ", l.as_str())
            },
            AgentError::LlmHallucination { evidence, .. } => cat2(
                "LLM hallucination detected: ",
                evidence.as_str(),
            ),
            AgentError::LlmRefusal { reason, .. } => cat2("LLM refused: ", reason.as_str()),
            AgentError::LlmTimeout { elapsed, .. } => {
                let d = elapsed.to_debug_text();
                cat2("LLM timeout after ", d.as_str())
            },
            AgentError::LlmProviderDown { provider, reason } => cat4(
                "LLM provider ",
                provider.as_str(),
                " is down: ",
                reason.as_str(),
            ),
            AgentError::ToolNotFound { name } => cat2("Tool not found: ", name.as_str()),
            AgentError::ToolExecutionFailed { name, reason, .. } => cat4(
                "Tool ",
                name.as_str(),
                " failed: ",
                reason.as_str(),
            ),
            AgentError::ToolTimeout { name, elapsed } => {
                let d = elapsed.to_debug_text();
                cat4("Tool ", name.as_str(), " timed out after ", d.as_str())
            },
            AgentError::ToolPermissionDenied { name, resource } => cat4(
                "Tool ",
                name.as_str(),
                " permission denied for ",
                resource.as_str(),
            ),
            AgentError::ToolOutputInvalid { name, output } => cat4(
                "Tool ",
                name.as_str(),
                " produced invalid output: ",
                output.as_str(),
            ),
            AgentError::PlanInvalid { reason, .. } => cat2("Plan invalid: ", reason.as_str()),
            AgentError::InfiniteLoop { iteration_count } => {
                let n = decimal_text(*iteration_count as u64);
                cat3("Infinite loop after ", n.as_str(), " iterations")
            },
            AgentError::GoalUnachievable { reason } => cat2("Goal unachievable: ", reason.as_str()),
            AgentError::MemoryUnavailable { store, reason } => cat4(
                "Memory store ",
                store.as_str(),
                " unavailable: ",
                reason.as_str(),
            ),
            AgentError::McpConnectionFailed { server, reason } => cat4(
                "MCP connection to ",
                server.as_str(),
                " failed: ",
                reason.as_str(),
            ),
            AgentError::NetworkTimeout { url, elapsed } => {
                let d = elapsed.to_debug_text();
                cat4("Network timeout for ", url.as_str(), " after ", d.as_str())
            },
            AgentError::SubAgentFailed { agent_id, error } => {
                let inner = error.to_string();
                cat4("Sub-agent ", agent_id.as_str(), " failed: ", inner.as_str())
            },
            AgentError::OrchestratorFailed { reason } => cat2(
                "Orchestrator failed: ",
                reason.as_str(),
            ),
            AgentError::Config(msg) => cat2("Config error: ", msg.as_str()),
            AgentError::ContextCorrupted => String::from_str("Context corrupted"),
        }
    }
}

/// An error reported by a language-model provider.
#[derive(Clone, Debug)]
pub enum LlmError {
    RateLimited { retry_after_ms: u64 },
    ContextOverflow { current: usize, limit: usize },
    AuthenticationFailed { reason: String },
    ModelNotAvailable { model: String },
    Timeout { elapsed_ms: u64 },
    ProviderError { status: u16, message: String },
    NetworkError { reason: String },
    InvalidResponse { reason: String },
    StreamingError { reason: String },
}

/// The message a provider error reads as.
pub open spec fn llm_error_text(e: LlmError) -> Seq<char> {
    match e {
        LlmError::RateLimited { retry_after_ms } => "Rate limited: retry after "@ + decimal(
            retry_after_ms as nat,
        ) + "ms"@,
        LlmError::ContextOverflow { current, limit } => "Context overflow: "@ + decimal(
            current as nat,
        ) + " tokens, limit "@ + decimal(limit as nat),
        LlmError::AuthenticationFailed { reason } => "Auth failed: "@ + reason@,
        LlmError::ModelNotAvailable { model } => "Model not available: "@ + model@,
        LlmError::Timeout { elapsed_ms } => "Request timed out after "@ + decimal(
            elapsed_ms as nat,
        ) + "ms"@,
        LlmError::ProviderError { status, message } => "Provider error: "@ + decimal(
            status as nat,
        ) + " "@ + message@,
        LlmError::NetworkError { reason } => "Network error: "@ + reason@,
        LlmError::InvalidResponse { reason } => "Invalid response: "@ + reason@,
        LlmError::StreamingError { reason } => "Streaming error: "@ + reason@,
    }
}

/// The agent error that a provider error stands for.
pub open spec fn agent_error_from_llm(e: LlmError) -> AgentErrorView {
    match e {
        LlmError::RateLimited { retry_after_ms } => AgentErrorView::LlmRateLimit {
            retry_after: Span {
                secs: (retry_after_ms / 1000) as u64,
                nanos: ((retry_after_ms % 1000) * 1_000_000) as u32,
            },
            provider: Seq::empty(),
        },
        LlmError::ContextOverflow { current, limit } => AgentErrorView::LlmContextOverflow {
            current,
            limit,
        },
        LlmError::AuthenticationFailed { reason } => AgentErrorView::LlmProviderDown {
            provider: Seq::empty(),
            reason: reason@,
        },
        LlmError::Timeout { elapsed_ms } => AgentErrorView::LlmTimeout {
            elapsed: Span {
                secs: (elapsed_ms / 1000) as u64,
                nanos: ((elapsed_ms % 1000) * 1_000_000) as u32,
            },
            provider: Seq::empty(),
        },
        LlmError::NetworkError { .. } => AgentErrorView::NetworkTimeout {
            url: Seq::empty(),
            elapsed: Span { secs: 0, nanos: 0 },
        },
        _ => AgentErrorView::LlmProviderDown { provider: Seq::empty(), reason: llm_error_text(e) },
    }
}

impl LlmError {
    /// The message this error reads as (what its `Display` shows).
    pub fn to_string(&self) -> (s: String)
        ensures
            s@ == llm_error_text(*self),
    {
        match self {
            LlmError::RateLimited { retry_after_ms } => {
                let n = decimal_text(*retry_after_ms);
                cat3("Rate limited: retry after ", n.as_str(), "ms")
            },
            LlmError::ContextOverflow { current, limit } => {
                let c = decimal_text(*current as u64);
                let l = decimal_text(*limit as u64);
                cat4("Context overflow: ", c.as_str(), " tokens, limit ", l.as_str())
            },
            LlmError::AuthenticationFailed { reason } => cat2("Auth failed: ", reason.as_str()),
            LlmError::ModelNotAvailable { model } => cat2("Model not available: ", model.as_str()),
            LlmError::Timeout { elapsed_ms } => {
                let n = decimal_text(*elapsed_ms);
                cat3("Request timed out after ", n.as_str(), "ms")
            },
            LlmError::ProviderError { status, message } => {
                let n = decimal_text(*status as u64);
                cat4("Provider error: ", n.as_str(), " ", message.as_str())
            },
            LlmError::NetworkError { reason } => cat2("Network error: ", reason.as_str()),
            LlmError::InvalidResponse { reason } => cat2("Invalid response: ", reason.as_str()),
            LlmError::StreamingError { reason } => cat2("Streaming error: ", reason.as_str()),
        }
    }
}

impl AgentError {
    /// The agent error that a provider error stands for: rate limits,
    /// context overflows and timeouts keep their numbers, failed
    /// authentication reads as a provider outage, network errors as a
    /// network timeout, and every other provider error as an outage whose
    /// reason is the provider error's message.
    pub fn from_llm(e: LlmError) -> (r: AgentError)
        ensures
            r@ == agent_error_from_llm(e),
            agent_error_wf(r@),
    {
        match e {
            LlmError::RateLimited { retry_after_ms } => AgentError::LlmRateLimit {
                retry_after: Span::from_millis(retry_after_ms),
                provider: String::new(),
            },
            LlmError::ContextOverflow { current, limit } => AgentError::LlmContextOverflow {
                current,
                limit,
            },
            LlmError::AuthenticationFailed { reason } => AgentError::LlmProviderDown {
                provider: String::new(),
                reason,
            },
            LlmError::Timeout { elapsed_ms } => AgentError::LlmTimeout {
                elapsed: Span::from_millis(elapsed_ms),
                provider: String::new(),
            },
            LlmError::NetworkError { .. } => AgentError::NetworkTimeout {
                url: String::new(),
                elapsed: Span::from_secs(0),
            },
            _ => {
                let reason = e.to_string();
                AgentError::LlmProviderDown { provider: String::new(), reason }
            },
        }
    }
}

/// An error raised while running a tool.
#[derive(Clone, Debug)]
pub enum ToolError {
    PermissionDenied { resource: String },
    ExecutionFailed { reason: String },
    Timeout { elapsed: Span },
    InvalidInput { reason: String },
    OutputTooLarge { size: usize },
}

/// The message a tool error reads as.
pub open spec fn tool_error_text(e: ToolError) -> Seq<char> {
    match e {
        ToolError::PermissionDenied { resource } => "Permission denied: "@ + resource@,
        ToolError::ExecutionFailed { reason } => "Execution failed: "@ + reason@,
        ToolError::Timeout { elapsed } => "Timeout after "@ + elapsed.debug_text(),
        ToolError::InvalidInput { reason } => "Invalid input: "@ + reason@,
        ToolError::OutputTooLarge { size } => "Output too large: "@ + decimal(size as nat)
            + " bytes"@,
    }
}

impl ToolError {
    /// The message this error reads as (what its `Display` shows).
    pub fn to_string(&self) -> (s: String)
        requires
            self matches ToolError::Timeout { elapsed } ==> elapsed.wf(),
        ensures
            s@ == tool_error_text(*self),
    {
        match self {
            ToolError::PermissionDenied { resource } => cat2(
                "Permission denied: ",
                resource.as_str(),
            ),
            ToolError::ExecutionFailed { reason } => cat2("Execution failed: ", reason.as_str()),
            ToolError::Timeout { elapsed } => {
                let d = elapsed.to_debug_text();
                cat2("Timeout after ", d.as_str())
            },
            ToolError::InvalidInput { reason } => cat2("Invalid input: ", reason.as_str()),
            ToolError::OutputTooLarge { size } => {
                let n = decimal_text(*size as u64);
                cat3("Output too large: ", n.as_str(), " bytes")
            },
        }
    }
}

/// An error of the memory stores.
#[derive(Clone, Debug)]
pub enum MemoryError {
    Redis(String),
    Surreal(String),
    Serialization(String),
    ConnectionFailed(String),
    KeyNotFound(String),
}

/// The message a memory error reads as.
pub open spec fn memory_error_text(e: MemoryError) -> Seq<char> {
    match e {
        MemoryError::Redis(m) => "Redis error: "@ + m@,
        MemoryError::Surreal(m) => "SurrealDB error: "@ + m@,
        MemoryError::Serialization(m) => "Serialization error: "@ + m@,
        MemoryError::ConnectionFailed(m) => "Connection failed: "@ + m@,
        MemoryError::KeyNotFound(m) => "Key not found: "@ + m@,
    }
}

impl MemoryError {
    /// The message this error reads as (what its `Display` shows).
    pub fn to_string(&self) -> (s: String)
        ensures
            s@ == memory_error_text(*self),
    {
        match self {
            MemoryError::Redis(m) => cat2("Redis error: ", m.as_str()),
            MemoryError::Surreal(m) => cat2("SurrealDB error: ", m.as_str()),
            MemoryError::Serialization(m) => cat2("Serialization error: ", m.as_str()),
            MemoryError::ConnectionFailed(m) => cat2("Connection failed: ", m.as_str()),
            MemoryError::KeyNotFound(m) => cat2("Key not found: ", m.as_str()),
        }
    }
}

/// An error of the MCP connector.
#[derive(Clone, Debug)]
pub enum McpError {
    ConnectionFailed { server: String, reason: String },
    AuthFailed { reason: String },
    ToolNotFound { tool_name: String },
    ToolInvocationFailed { reason: String },
    ProtocolError { reason: String },
    SerializationError { reason: String },
    Disconnected,
    Timeout { timeout_ms: u64 },
    OAuth2Error { reason: String },
}

/// The message an MCP error reads as.
pub open spec fn mcp_error_text(e: McpError) -> Seq<char> {
    match e {
        McpError::ConnectionFailed { server, reason } => "Connection failed to "@ + server@
            + ": "@ + reason@,
        McpError::AuthFailed { reason } => "Authentication failed: "@ + reason@,
        McpError::ToolNotFound { tool_name } => "Tool not found on server: "@ + tool_name@,
        McpError::ToolInvocationFailed { reason } => "Tool invocation failed: "@ + reason@,
        McpError::ProtocolError { reason } => "Protocol error: "@ + reason@,
        McpError::SerializationError { reason } => "Serialization error: "@ + reason@,
        McpError::Disconnected => "Server disconnected"@,
        McpError::Timeout { timeout_ms } => "Request timed out after "@ + decimal(
            timeout_ms as nat,
        ) + "ms"@,
        McpError::OAuth2Error { reason } => "OAuth2 error: "@ + reason@,
    }
}

impl McpError {
    /// The message this error reads as (what its `Display` shows).
    pub fn to_string(&self) -> (s: String)
        ensures
            s@ == mcp_error_text(*self),
    {
        match self {
            McpError::ConnectionFailed { server, reason } => cat4(
                "Connection failed to ",
                server.as_str(),
                ": ",
                reason.as_str(),
            ),
            McpError::AuthFailed { reason } => cat2("Authentication failed: ", reason.as_str()),
            McpError::ToolNotFound { tool_name } => cat2(
                "Tool not found on server: ",
                tool_name.as_str(),
            ),
            McpError::ToolInvocationFailed { reason } => cat2(
                "Tool invocation failed: ",
                reason.as_str(),
            ),
            McpError::ProtocolError { reason } => cat2("Protocol error: ", reason.as_str()),
            McpError::SerializationError { reason } => cat2(
                "Serialization error: ",
                reason.as_str(),
            ),
            McpError::Disconnected => String::from_str("Server disconnected"),
            McpError::Timeout { timeout_ms } => {
                let n = decimal_text(*timeout_ms);
                cat3("Request timed out after ", n.as_str(), "ms")
            },
            McpError::OAuth2Error { reason } => cat2("OAuth2 error: ", reason.as_str()),
        }
    }
}

} // verus!
