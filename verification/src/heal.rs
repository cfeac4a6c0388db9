//! Self-healing: the heal strategies, what each does with an error, and the
//! order in which a heal engine tries them.
use vstd::prelude::*;
use vstd::string::StringExecFns;
use crate::classifier::{first_strategy_of, severity_of, ErrorSeverity};
use crate::error::{AgentError, AgentErrorView, agent_error_text, agent_error_wf, cat2, cat3, cat4, cat5};
use crate::text::{decimal, decimal_text, str_eq, texts};
use vstd::arithmetic::power2::pow2;

verus! {

/// The outcome of applying a heal strategy.
#[derive(Clone, Debug)]
pub enum HealResult {
    Success { output: String },
    Failed { reason: String },
}

/// The outcome of a heal strategy, by its text.
pub enum HealOutcome {
    Success(Seq<char>),
    Failed(Seq<char>),
}

impl View for HealResult {
    type V = HealOutcome;

    open spec fn view(&self) -> HealOutcome {
        match self {
            HealResult::Success { output } => HealOutcome::Success(output@),
            HealResult::Failed { reason } => HealOutcome::Failed(reason@),
        }
    }
}

impl HealResult {
    /// Whether the strategy succeeded.
    pub fn is_success(&self) -> (r: bool)
        ensures
            r == (self@ is Success),
    {
        match self {
            HealResult::Success { .. } => true,
            HealResult::Failed { .. } => false,
        }
    }
}

/// What a heal strategy is given: the error, where it happened, and which
/// strategies were applied before (by name, oldest first).
#[derive(Debug)]
pub struct HealContext {
    pub error: AgentError,
    pub agent_id: String,
    pub run_id: String,
    pub task_id: u128,
    pub iteration: usize,
    pub past_strategies: Vec<String>,
    pub previous_errors: Vec<AgentError>,
    pub current_plan: Option<String>,
}

/// How many times `x` occurs in `s`.
pub open spec fn count_of(s: Seq<Seq<char>>, x: Seq<char>) -> nat
    decreases s.len(),
{
    if s.len() == 0 {
        0
    } else {
        count_of(s.drop_last(), x) + if s.last() == x { 1nat } else { 0nat }
    }
}

proof fn lemma_count_of_le(s: Seq<Seq<char>>, x: Seq<char>)
    ensures
        count_of(s, x) <= s.len(),
    decreases s.len(),
{
    if s.len() > 0 {
        lemma_count_of_le(s.drop_last(), x);
    }
}

/// How many times the strategy `name` was applied before.
pub fn count_named(past: &Vec<String>, name: &str) -> (n: usize)
    ensures
        n == count_of(texts(past@), name@),
        n <= past@.len(),
{
    let mut n: usize = 0;
    let mut i: usize = 0;
    while i < past.len()
        invariant
            0 <= i <= past.len(),
            n == count_of(texts(past@).take(i as int), name@),
            n <= i,
        decreases past.len() - i,
    {
        proof {
            assert(texts(past@).take(i + 1).drop_last() =~= texts(past@).take(i as int));
        }
        if str_eq(past[i].as_str(), name) {
            n = n + 1;
        }
        i = i + 1;
    }
    assert(texts(past@).take(past.len() as int) =~= texts(past@));
    n
}

/// The number of times a strategy has been applied in `ctx`.
pub open spec fn times_applied(ctx: HealContext, name: Seq<char>) -> nat {
    count_of(texts(ctx.past_strategies@), name)
}

/// The success text "`lead` (attempt `n`)`tail`".
pub open spec fn attempt_text(lead: Seq<char>, n: nat, tail: Seq<char>) -> Seq<char> {
    lead + " (attempt "@ + decimal(n) + ")"@ + tail
}

fn attempt_message(lead: &str, n: usize, tail: &str) -> (s: String)
    ensures
        s@ == attempt_text(lead@, n as nat, tail@),
{
    let d = decimal_text(n as u64);
    cat5(lead, " (attempt ", d.as_str(), ")", tail)
}

// ---------------------------------------------------------------- retry

/// Retries with exponential back-off: the n-th retry waits
/// `base_delay_ms * 2^n` milliseconds plus a random jitter of at most a tenth.
#[derive(Clone, Copy, Debug)]
pub struct RetryStrategy {
    pub max_retries: usize,
    pub base_delay_ms: u64,
}

/// What a retry does next.
#[derive(Clone, Debug)]
pub enum RetryPlan {
    /// Give up with this result.
    GiveUp(HealResult),
    /// Wait `delay_ms` plus jitter, then report attempt `attempt`.
    Wait { delay_ms: u64, attempt: usize },
}

impl RetryStrategy {
    /// Five retries, starting at one second.
    pub fn default() -> (r: RetryStrategy)
        ensures
            r.max_retries == 5,
            r.base_delay_ms == 1000,
    {
        RetryStrategy { max_retries: 5, base_delay_ms: 1000 }
    }

    /// The errors a retry can heal.
    pub open spec fn handles(e: AgentErrorView) -> bool {
        ||| e is LlmRateLimit
        ||| e is LlmContextOverflow
        ||| e is LlmTimeout
        ||| e is ToolExecutionFailed
        ||| e is ToolTimeout
        ||| e is McpConnectionFailed
        ||| e is NetworkTimeout
        ||| e is MemoryUnavailable
        ||| e is LlmProviderDown
    }

    /// Whether a retry can heal `error`.
    pub fn can_handle(&self, error: &AgentError) -> (r: bool)
        ensures
            r == Self::handles(error@),
    {
        match error {
            AgentError::LlmRateLimit { .. } | AgentError::LlmContextOverflow { .. }
            | AgentError::LlmTimeout { .. } | AgentError::ToolExecutionFailed { .. }
            | AgentError::ToolTimeout { .. } | AgentError::McpConnectionFailed { .. }
            | AgentError::NetworkTimeout { .. } | AgentError::MemoryUnavailable { .. }
            | AgentError::LlmProviderDown { .. } => true,
            _ => false,
        }
    }

    /// The strategy's name.
    pub fn name(&self) -> (r: &'static str)
        ensures
            r@ == "retry"@,
    {
        "retry"
    }

    /// Whether the back-off delay of every retry that can still be made
    /// fits in 64 bits.
    pub open spec fn delay_fits(self, ctx: HealContext) -> bool {
        times_applied(ctx, "retry"@) < self.max_retries ==> self.base_delay_ms * pow2(
            times_applied(ctx, "retry"@),
        ) <= u64::MAX
    }

    /// What the retry does for `ctx`: give up once `max_retries` retries
    /// were made, else wait `base_delay_ms * 2^n` (n retries so far) and
    /// report attempt n + 1.
    pub fn plan(&self, ctx: &HealContext) -> (r: RetryPlan)
        requires
            self.delay_fits(*ctx),
        ensures
            ({
                let n = times_applied(*ctx, "retry"@);
                if n >= self.max_retries {
                    r matches RetryPlan::GiveUp(res) && res@ == HealOutcome::Failed(
                        "Max retries ("@ + decimal(self.max_retries as nat) + ") exhausted"@,
                    )
                } else {
                    r matches RetryPlan::Wait { delay_ms, attempt } && delay_ms
                        == self.base_delay_ms * pow2(n) && attempt == n + 1
                }
            }),
    {
        let n = count_named(&ctx.past_strategies, "retry");
        if n >= self.max_retries {
            let m = decimal_text(self.max_retries as u64);
            return RetryPlan::GiveUp(
                HealResult::Failed { reason: cat3("Max retries (", m.as_str(), ") exhausted") },
            );
        }
        let mut delay: u64 = self.base_delay_ms;
        let mut k: usize = 0;
        proof {
            vstd::arithmetic::power2::lemma2_to64();
        }
        while k < n
            invariant
                k <= n,
                n < self.max_retries,
                self.base_delay_ms * pow2(n as nat) <= u64::MAX,
                delay == self.base_delay_ms * pow2(k as nat),
            decreases n - k,
        {
            proof {
                vstd::arithmetic::power2::lemma_pow2_unfold((k + 1) as nat);
                if k + 1 < n {
                    vstd::arithmetic::power2::lemma_pow2_strictly_increases((k + 1) as nat, n as nat);
                }
                assert(self.base_delay_ms * pow2((k + 1) as nat) == 2 * (self.base_delay_ms
                    * pow2(k as nat))) by (nonlinear_arith)
                    requires
                        pow2((k + 1) as nat) == 2 * pow2(k as nat),
                ;
                assert(self.base_delay_ms * pow2((k + 1) as nat) <= self.base_delay_ms * pow2(
                    n as nat,
                )) by (nonlinear_arith)
                    requires
                        pow2((k + 1) as nat) <= pow2(n as nat),
                ;
            }
            delay = delay * 2;
            k = k + 1;
        }
        RetryPlan::Wait { delay_ms: delay, attempt: n + 1 }
    }

    /// The result of a retry that waited `delay_ms + jitter_ms`.
    pub fn finish(delay_ms: u64, jitter_ms: u64, attempt: usize) -> (r: HealResult)
        requires
            delay_ms + jitter_ms <= u64::MAX,
        ensures
            r@ == HealOutcome::Success(
                "Retried after "@ + decimal((delay_ms + jitter_ms) as nat) + "ms (attempt "@
                    + decimal(attempt as nat) + ")"@,
            ),
    {
        let waited = decimal_text(delay_ms + jitter_ms);
        let a = decimal_text(attempt as u64);
        HealResult::Success { output: cat5("Retried after ", waited.as_str(), "ms (attempt ", a.as_str(), ")") }
    }
}

// ---------------------------------------------------------------- reframe

/// Reframes the prompt with a clarification fitted to the error.
#[derive(Clone, Copy, Debug)]
pub struct ReframeStrategy;

/// The clarification added when reframing after `e`.
pub open spec fn reframe_clarification(e: AgentErrorView) -> Seq<char> {
    match e {
        AgentErrorView::LlmHallucination { evidence, .. } =>
            "Previous output contained hallucination: "@ + evidence
            + ". Please be factual and only state verifiable information."@,
        AgentErrorView::LlmRefusal { reason, .. } => "The model refused to complete: "@ + reason
            + ". Rephrase the request to be more specific and actionable."@,
        AgentErrorView::ToolOutputInvalid { output, .. } => "Tool produced invalid output: "@
            + output + ". Parse the output carefully and handle edge cases."@,
        AgentErrorView::PlanInvalid { reason, .. } => "Plan was invalid: "@ + reason
            + ". Create a simpler, more concrete plan."@,
        _ => "Rephrase the instruction with clearer constraints and explicit expectations."@,
    }
}

impl ReframeStrategy {
    /// The errors a reframe can heal.
    pub open spec fn handles(e: AgentErrorView) -> bool {
        ||| e is LlmHallucination
        ||| e is LlmRefusal
        ||| e is ToolOutputInvalid
        ||| e is PlanInvalid
    }

    /// Whether a reframe can heal `error`.
    pub fn can_handle(&self, error: &AgentError) -> (r: bool)
        ensures
            r == Self::handles(error@),
    {
        match error {
            AgentError::LlmHallucination { .. } | AgentError::LlmRefusal { .. }
            | AgentError::ToolOutputInvalid { .. } | AgentError::PlanInvalid { .. } => true,
            _ => false,
        }
    }

    /// The strategy's name.
    pub fn name(&self) -> (r: &'static str)
        ensures
            r@ == "reframe"@,
    {
        "reframe"
    }

    fn clarification(error: &AgentError) -> (s: String)
        ensures
            s@ == reframe_clarification(error@),
    {
        match error {
            AgentError::LlmHallucination { evidence, .. } => cat3(
                "Previous output contained hallucination: ",
                evidence.as_str(),
                ". Please be factual and only state verifiable information.",
            ),
            AgentError::LlmRefusal { reason, .. } => cat3(
                "The model refused to complete: ",
                reason.as_str(),
                ". Rephrase the request to be more specific and actionable.",
            ),
            AgentError::ToolOutputInvalid { output, .. } => cat3(
                "Tool produced invalid output: ",
                output.as_str(),
                ". Parse the output carefully and handle edge cases.",
            ),
            AgentError::PlanInvalid { reason, .. } => cat3(
                "Plan was invalid: ",
                reason.as_str(),
                ". Create a simpler, more concrete plan.",
            ),
            _ => String::from_str(
                "Rephrase the instruction with clearer constraints and explicit expectations.",
            ),
        }
    }

    /// Gives up after three reframes; otherwise reports the reframed prompt.
    pub fn apply(&self, ctx: &HealContext) -> (r: HealResult)
        ensures
            ({
                let n = times_applied(*ctx, "reframe"@);
                if n >= 3 {
                    r@ == HealOutcome::Failed("Max reframe attempts (3) exhausted"@)
                } else {
                    r@ == HealOutcome::Success(
                        attempt_text("Prompt reframed"@, n + 1, ": "@ + reframe_clarification(ctx.error@)),
                    )
                }
            }),
    {
        let n = count_named(&ctx.past_strategies, "reframe");
        if n >= 3 {
            return HealResult::Failed { reason: String::from_str("Max reframe attempts (3) exhausted") };
        }
        let c = Self::clarification(&ctx.error);
        let tail = cat2(": ", c.as_str());
        HealResult::Success { output: attempt_message("Prompt reframed", n + 1, tail.as_str()) }
    }
}

// ---------------------------------------------------------------- swap tool

/// Replaces a failing tool by a fallback tool.
#[derive(Clone, Copy, Debug)]
pub struct SwapToolStrategy;

/// The tool an error is about, if it is about one.
pub open spec fn failing_tool(e: AgentErrorView) -> Option<Seq<char>> {
    match e {
        AgentErrorView::ToolNotFound { name } => Some(name),
        AgentErrorView::ToolExecutionFailed { name, .. } => Some(name),
        AgentErrorView::ToolTimeout { name, .. } => Some(name),
        _ => None,
    }
}

/// The tool that replaces `tool`: a fixed fallback for the built-in tools,
/// else the tool's name with `_alt` appended.
pub open spec fn fallback_tool(tool: Seq<char>) -> Seq<char> {
    if tool == "bash"@ {
        "python"@
    } else if tool == "files"@ {
        "bash"@
    } else if tool == "http"@ {
        "python"@
    } else if tool == "web_search"@ {
        "browser"@
    } else {
        tool + "_alt"@
    }
}

/// The fallback table: `bash` and `http` fall back to `python`, `files` to
/// `bash`, `web_search` to `browser`, and any other tool `t` to `t_alt`.
pub proof fn lemma_fallback_table(t: Seq<char>)
    ensures
        fallback_tool("bash"@) == "python"@,
        fallback_tool("files"@) == "bash"@,
        fallback_tool("http"@) == "python"@,
        fallback_tool("web_search"@) == "browser"@,
        t != "bash"@ && t != "files"@ && t != "http"@ && t != "web_search"@ ==> fallback_tool(t) == t
            + "_alt"@,
        fallback_tool(t) != t,
{
    reveal_strlit("bash");
    reveal_strlit("files");
    reveal_strlit("http");
    reveal_strlit("web_search");
    reveal_strlit("python");
    reveal_strlit("browser");
    reveal_strlit("_alt");
    assert("bash"@.len() == 4 && "http"@.len() == 4 && "bash"@[0] == 'b' && "http"@[0] == 'h');
    assert("files"@.len() == 5);
    assert("web_search"@.len() == 10);
    assert("python"@.len() == 6);
    assert("browser"@.len() == 7);
    assert((t + "_alt"@).len() == t.len() + 4);
}

impl SwapToolStrategy {
    /// The errors a tool swap can heal.
    pub open spec fn handles(e: AgentErrorView) -> bool {
        ||| e is ToolNotFound
        ||| e is ToolExecutionFailed
        ||| e is ToolTimeout
    }

    /// Whether a tool swap can heal `error`.
    pub fn can_handle(&self, error: &AgentError) -> (r: bool)
        ensures
            r == Self::handles(error@),
    {
        match error {
            AgentError::ToolNotFound { .. } | AgentError::ToolExecutionFailed { .. }
            | AgentError::ToolTimeout { .. } => true,
            _ => false,
        }
    }

    /// The strategy's name.
    pub fn name(&self) -> (r: &'static str)
        ensures
            r@ == "swap_tool"@,
    {
        "swap_tool"
    }

    /// The tool that replaces `tool`.
    pub fn fallback(tool: &str) -> (r: String)
        ensures
            r@ == fallback_tool(tool@),
    {
        if str_eq(tool, "bash") {
            String::from_str("python")
        } else if str_eq(tool, "files") {
            String::from_str("bash")
        } else if str_eq(tool, "http") {
            String::from_str("python")
        } else if str_eq(tool, "web_search") {
            String::from_str("browser")
        } else {
            cat2(tool, "_alt")
        }
    }

    /// Gives up after three swaps or when the error is about no tool;
    /// otherwise reports which tool replaces the failing one.
    pub fn apply(&self, ctx: &HealContext) -> (r: HealResult)
        ensures
            ({
                let n = times_applied(*ctx, "swap_tool"@);
                if n >= 3 {
                    r@ == HealOutcome::Failed("Max swap attempts (3) exhausted"@)
                } else {
                    match failing_tool(ctx.error@) {
                        None => r@ == HealOutcome::Failed(
                            "Cannot swap: error type not related to a specific tool"@,
                        ),
                        Some(tool) => r@ == HealOutcome::Success(
                            attempt_text(
                                "Swapped tool '"@ + tool + "' \u{2192} '"@ + fallback_tool(tool)
                                    + "'"@,
                                n + 1,
                                Seq::empty(),
                            ),
                        ),
                    }
                }
            }),
    {
        let n = count_named(&ctx.past_strategies, "swap_tool");
        if n >= 3 {
            return HealResult::Failed { reason: String::from_str("Max swap attempts (3) exhausted") };
        }
        let tool: &String = match &ctx.error {
            AgentError::ToolNotFound { name } => name,
            AgentError::ToolExecutionFailed { name, .. } => name,
            AgentError::ToolTimeout { name, .. } => name,
            _ => {
                return HealResult::Failed {
                    reason: String::from_str("Cannot swap: error type not related to a specific tool"),
                };
            },
        };
        let new_tool = Self::fallback(tool.as_str());
        let lead = cat5("Swapped tool '", tool.as_str(), "' \u{2192} '", new_tool.as_str(), "'");
        let out = attempt_message(lead.as_str(), n + 1, "");
        proof {
            reveal_strlit("");
            assert(out@ == attempt_text(lead@, (n + 1) as nat, Seq::empty()));
        }
        HealResult::Success { output: out }
    }
}

// ---------------------------------------------------------------- decompose

/// Breaks the goal into smaller sub-tasks.
#[derive(Clone, Copy, Debug)]
pub struct DecomposeStrategy;

/// Why a goal is decomposed, by the error.
pub open spec fn decompose_reason(e: AgentErrorView) -> Seq<char> {
    match e {
        AgentErrorView::GoalUnachievable { reason } => reason,
        AgentErrorView::InfiniteLoop { iteration_count } => "Looped "@ + decimal(
            iteration_count as nat,
        ) + " times without progress"@,
        AgentErrorView::PlanInvalid { reason, .. } => reason,
        _ => "Unknown"@,
    }
}

impl DecomposeStrategy {
    /// The errors a decomposition can heal.
    pub open spec fn handles(e: AgentErrorView) -> bool {
        ||| e is GoalUnachievable
        ||| e is InfiniteLoop
        ||| e is PlanInvalid
    }

    /// Whether a decomposition can heal `error`.
    pub fn can_handle(&self, error: &AgentError) -> (r: bool)
        ensures
            r == Self::handles(error@),
    {
        match error {
            AgentError::GoalUnachievable { .. } | AgentError::InfiniteLoop { .. }
            | AgentError::PlanInvalid { .. } => true,
            _ => false,
        }
    }

    /// The strategy's name.
    pub fn name(&self) -> (r: &'static str)
        ensures
            r@ == "decompose"@,
    {
        "decompose"
    }

    /// Gives up after three decompositions; otherwise reports the split.
    pub fn apply(&self, ctx: &HealContext) -> (r: HealResult)
        ensures
            ({
                let n = times_applied(*ctx, "decompose"@);
                if n >= 3 {
                    r@ == HealOutcome::Failed("Max decompose attempts (3) exhausted"@)
                } else {
                    r@ == HealOutcome::Success(
                        attempt_text(
                            "Decomposed into smaller sub-tasks"@,
                            n + 1,
                            ": "@ + decompose_reason(ctx.error@),
                        ),
                    )
                }
            }),
    {
        let n = count_named(&ctx.past_strategies, "decompose");
        if n >= 3 {
            return HealResult::Failed { reason: String::from_str("Max decompose attempts (3) exhausted") };
        }
        let reason = match &ctx.error {
            AgentError::GoalUnachievable { reason } => reason.clone(),
            AgentError::InfiniteLoop { iteration_count } => {
                let d = decimal_text(*iteration_count as u64);
                cat3("Looped ", d.as_str(), " times without progress")
            },
            AgentError::PlanInvalid { reason, .. } => reason.clone(),
            _ => String::from_str("Unknown"),
        };
        let tail = cat2(": ", reason.as_str());
        HealResult::Success {
            output: attempt_message("Decomposed into smaller sub-tasks", n + 1, tail.as_str()),
        }
    }
}

// ---------------------------------------------------------------- reduce scope

/// Reduces the task to a simpler version.
#[derive(Clone, Copy, Debug)]
pub struct ReduceScopeStrategy;

/// The issue a scope reduction reports, by the error.
pub open spec fn reduce_scope_reason(e: AgentErrorView) -> Seq<char> {
    match e {
        AgentErrorView::InfiniteLoop { iteration_count } => "Looped "@ + decimal(
            iteration_count as nat,
        ) + " times"@,
        AgentErrorView::GoalUnachievable { reason } => reason,
        _ => "Unknown"@,
    }
}

impl ReduceScopeStrategy {
    /// The errors a scope reduction can heal.
    pub open spec fn handles(e: AgentErrorView) -> bool {
        e is InfiniteLoop || e is GoalUnachievable
    }

    /// Whether a scope reduction can heal `error`.
    pub fn can_handle(&self, error: &AgentError) -> (r: bool)
        ensures
            r == Self::handles(error@),
    {
        match error {
            AgentError::InfiniteLoop { .. } | AgentError::GoalUnachievable { .. } => true,
            _ => false,
        }
    }

    /// The strategy's name.
    pub fn name(&self) -> (r: &'static str)
        ensures
            r@ == "reduce_scope"@,
    {
        "reduce_scope"
    }

    /// Gives up after three reductions; otherwise reports the reduction.
    pub fn apply(&self, ctx: &HealContext) -> (r: HealResult)
        ensures
            ({
                let n = times_applied(*ctx, "reduce_scope"@);
                if n >= 3 {
                    r@ == HealOutcome::Failed("Max scope reduction attempts (3) exhausted"@)
                } else {
                    r@ == HealOutcome::Success(
                        attempt_text(
                            "Reduced scope to simpler version"@,
                            n + 1,
                            ": original issue was "@ + reduce_scope_reason(ctx.error@),
                        ),
                    )
                }
            }),
    {
        let n = count_named(&ctx.past_strategies, "reduce_scope");
        if n >= 3 {
            return HealResult::Failed {
                reason: String::from_str("Max scope reduction attempts (3) exhausted"),
            };
        }
        let reason = match &ctx.error {
            AgentError::InfiniteLoop { iteration_count } => {
                let d = decimal_text(*iteration_count as u64);
                cat3("Looped ", d.as_str(), " times")
            },
            AgentError::GoalUnachievable { reason } => reason.clone(),
            _ => String::from_str("Unknown"),
        };
        let tail = cat2(": original issue was ", reason.as_str());
        HealResult::Success {
            output: attempt_message("Reduced scope to simpler version", n + 1, tail.as_str()),
        }
    }
}

// ---------------------------------------------------------------- spawn sub-agent

/// Spawns a fresh sub-agent for a failing sub-task.
#[derive(Clone, Copy, Debug)]
pub struct SpawnSubagentStrategy;

impl SpawnSubagentStrategy {
    /// The errors a fresh sub-agent can heal.
    pub open spec fn handles(e: AgentErrorView) -> bool {
        e is SubAgentFailed
    }

    /// Whether a fresh sub-agent can heal `error`.
    pub fn can_handle(&self, error: &AgentError) -> (r: bool)
        ensures
            r == Self::handles(error@),
    {
        match error {
            AgentError::SubAgentFailed { .. } => true,
            _ => false,
        }
    }

    /// The strategy's name.
    pub fn name(&self) -> (r: &'static str)
        ensures
            r@ == "spawn_subagent"@,
    {
        "spawn_subagent"
    }

    /// Gives up after three spawns; otherwise reports the spawn.
    pub fn apply(&self, ctx: &HealContext) -> (r: HealResult)
        ensures
            ({
                let n = times_applied(*ctx, "spawn_subagent"@);
                if n >= 3 {
                    r@ == HealOutcome::Failed("Max sub-agent spawn attempts (3) exhausted"@)
                } else {
                    r@ == HealOutcome::Success(
                        attempt_text(
                            "Spawned fresh sub-agent"@,
                            n + 1,
                            " to retry failing sub-task"@,
                        ),
                    )
                }
            }),
    {
        let n = count_named(&ctx.past_strategies, "spawn_subagent");
        if n >= 3 {
            return HealResult::Failed {
                reason: String::from_str("Max sub-agent spawn attempts (3) exhausted"),
            };
        }
        HealResult::Success {
            output: attempt_message("Spawned fresh sub-agent", n + 1, " to retry failing sub-task"),
        }
    }
}

// ---------------------------------------------------------------- change provider

/// Switches to another language-model provider.
#[derive(Clone, Debug)]
pub struct ChangeProviderStrategy {
    pub providers: Vec<String>,
}

/// The providers tried when none are configured, in order.
pub open spec fn default_providers() -> Seq<Seq<char>> {
    seq!["anthropic"@, "openai"@, "gemini"@, "ollama"@]
}

/// The provider an error is about, or "unknown".
pub open spec fn current_provider(e: AgentErrorView) -> Seq<char> {
    match e {
        AgentErrorView::LlmProviderDown { provider, .. } => provider,
        AgentErrorView::LlmRateLimit { provider, .. } => provider,
        AgentErrorView::LlmRefusal { provider, .. } => provider,
        _ => "unknown"@,
    }
}

/// The first provider in `ps` other than `current`, if any.
pub open spec fn first_other(ps: Seq<Seq<char>>, current: Seq<char>) -> Option<Seq<char>>
    decreases ps.len(),
{
    if ps.len() == 0 {
        None
    } else if ps[0] != current {
        Some(ps[0])
    } else {
        first_other(ps.drop_first(), current)
    }
}

proof fn lemma_first_other_none(ps: Seq<Seq<char>>, current: Seq<char>)
    requires
        forall|j: int| 0 <= j < ps.len() ==> ps[j] == current,
    ensures
        first_other(ps, current) is None,
    decreases ps.len(),
{
    if ps.len() > 0 {
        assert forall|j: int| 0 <= j < ps.drop_first().len() implies ps.drop_first()[j] == current by {
            assert(ps.drop_first()[j] == ps[j + 1]);
        }
        lemma_first_other_none(ps.drop_first(), current);
    }
}

proof fn lemma_first_other_step(ps: Seq<Seq<char>>, current: Seq<char>, i: int)
    requires
        0 <= i < ps.len(),
        forall|j: int| 0 <= j < i ==> ps[j] == current,
    ensures
        first_other(ps, current) == first_other(ps.subrange(i, ps.len() as int), current),
    decreases i,
{
    if i > 0 {
        assert(ps.drop_first().subrange(i - 1, ps.drop_first().len() as int) =~= ps.subrange(
            i,
            ps.len() as int,
        ));
        lemma_first_other_step(ps.drop_first(), current, i - 1);
    } else {
        assert(ps.subrange(0, ps.len() as int) =~= ps);
    }
}

impl ChangeProviderStrategy {
    /// The errors a provider change can heal.
    pub open spec fn handles(e: AgentErrorView) -> bool {
        ||| e is LlmProviderDown
        ||| e is LlmRateLimit
        ||| e is LlmRefusal
    }

    /// Whether a provider change can heal `error`.
    pub fn can_handle(&self, error: &AgentError) -> (r: bool)
        ensures
            r == Self::handles(error@),
    {
        match error {
            AgentError::LlmProviderDown { .. } | AgentError::LlmRateLimit { .. }
            | AgentError::LlmRefusal { .. } => true,
            _ => false,
        }
    }

    /// The strategy's name.
    pub fn name(&self) -> (r: &'static str)
        ensures
            r@ == "change_provider"@,
    {
        "change_provider"
    }

    /// The providers this strategy chooses from.
    pub open spec fn candidates(self) -> Seq<Seq<char>> {
        if self.providers@.len() == 0 {
            default_providers()
        } else {
            texts(self.providers@)
        }
    }

    fn candidate_list(&self) -> (v: Vec<String>)
        ensures
            texts(v@) == self.candidates(),
    {
        if self.providers.len() == 0 {
            let mut v: Vec<String> = Vec::new();
            v.push(String::from_str("anthropic"));
            v.push(String::from_str("openai"));
            v.push(String::from_str("gemini"));
            v.push(String::from_str("ollama"));
            assert(texts(v@) =~= default_providers());
            v
        } else {
            let v = self.providers.clone();
            assert(texts(v@) =~= texts(self.providers@));
            v
        }
    }

    fn pick_other(ps: &Vec<String>, current: &str) -> (r: Option<String>)
        ensures
            match first_other(texts(ps@), current@) {
                None => r is None,
                Some(p) => r matches Some(x) && x@ == p,
            },
    {
        let mut i: usize = 0;
        while i < ps.len()
            invariant
                0 <= i <= ps.len(),
                forall|j: int| 0 <= j < i ==> texts(ps@)[j] == current@,
            decreases ps.len() - i,
        {
            if !str_eq(ps[i].as_str(), current) {
                proof {
                    lemma_first_other_step(texts(ps@), current@, i as int);
                }
                return Some(ps[i].clone());
            }
            i = i + 1;
        }
        proof {
            lemma_first_other_none(texts(ps@), current@);
        }
        None
    }

    /// Gives up once as many changes were made as there are providers;
    /// otherwise switches to the first provider other than the failing one
    /// ("fallback" when there is none).
    pub fn apply(&self, ctx: &HealContext) -> (r: HealResult)
        ensures
            ({
                let n = times_applied(*ctx, "change_provider"@);
                let ps = self.candidates();
                let cur = current_provider(ctx.error@);
                if n >= ps.len() {
                    r@ == HealOutcome::Failed(
                        "All "@ + decimal(ps.len()) + " providers exhausted"@,
                    )
                } else {
                    let next = match first_other(ps, cur) {
                        Some(p) => p,
                        None => "fallback"@,
                    };
                    r@ == HealOutcome::Success(
                        attempt_text(
                            "Changed LLM provider '"@ + cur + "' -> '"@ + next + "'"@,
                            n + 1,
                            Seq::empty(),
                        ),
                    )
                }
            }),
    {
        let n = count_named(&ctx.past_strategies, "change_provider");
        let current: String = match &ctx.error {
            AgentError::LlmProviderDown { provider, .. } => provider.clone(),
            AgentError::LlmRateLimit { provider, .. } => provider.clone(),
            AgentError::LlmRefusal { provider, .. } => provider.clone(),
            _ => String::from_str("unknown"),
        };
        let ps = self.candidate_list();
        if n >= ps.len() {
            let d = decimal_text(ps.len() as u64);
            return HealResult::Failed { reason: cat3("All ", d.as_str(), " providers exhausted") };
        }
        let next = match Self::pick_other(&ps, current.as_str()) {
            Some(p) => p,
            None => String::from_str("fallback"),
        };
        let lead = cat5("Changed LLM provider '", current.as_str(), "' -> '", next.as_str(), "'");
        let out = attempt_message(lead.as_str(), n + 1, "");
        proof {
            reveal_strlit("");
        }
        HealResult::Success { output: out }
    }
}

// ---------------------------------------------------------------- engine

/// A heal strategy as the engine sees it for one error: its name and
/// whether it can handle that error.
#[derive(Clone, Debug)]
pub struct StrategyEntry {
    pub name: String,
    pub handles: bool,
}

/// The positions `j < k` of `es` that `keep` selects, in ascending order.
pub open spec fn positions(es: Seq<StrategyEntry>, k: nat, keep: spec_fn(StrategyEntry) -> bool) -> Seq<usize>
    decreases k,
{
    if k == 0 {
        Seq::empty()
    } else {
        let rest = positions(es, (k - 1) as nat, keep);
        if keep(es[k - 1]) {
            rest.push((k - 1) as usize)
        } else {
            rest
        }
    }
}

/// Selects the strategies named `initial`.
pub open spec fn named(initial: Seq<char>) -> spec_fn(StrategyEntry) -> bool {
    |e: StrategyEntry| e.name@ == initial
}

/// Selects the other strategies that can handle the error.
pub open spec fn other_handling(initial: Seq<char>) -> spec_fn(StrategyEntry) -> bool {
    |e: StrategyEntry| e.name@ != initial && e.handles
}

/// The order in which the engine tries strategies: first every strategy
/// named as the initial one (whether or not it can handle the error), then
/// every other strategy that can handle it, each group in registration order.
pub open spec fn selection_order(es: Seq<StrategyEntry>, initial: Seq<char>) -> Seq<usize> {
    positions(es, es.len(), named(initial)) + positions(es, es.len(), other_handling(initial))
}

/// The first position `k >= from` of `order` whose strategy can handle the
/// error, if any.
pub open spec fn next_handling(order: Seq<usize>, es: Seq<StrategyEntry>, from: nat) -> Option<nat>
    decreases order.len() - from,
{
    if from >= order.len() {
        None
    } else if es[order[from as int] as int].handles {
        Some(from)
    } else {
        next_handling(order, es, from + 1)
    }
}

/// Whether the last strategy applied succeeded.
pub open spec fn succeeded(last: Option<HealResult>) -> bool {
    last matches Some(r) && r@ is Success
}

/// What the engine does next.
#[derive(Clone, Debug)]
pub enum HealAction {
    /// Apply the strategy registered at this position.
    Apply(usize),
    /// Stop with this result.
    Finish(HealResult),
}

/// The progress of healing one error: the strategies in the order they are
/// tried and the position of the next one to consider.
#[derive(Clone, Debug)]
pub struct HealPlan {
    pub order: Vec<usize>,
    pub next: usize,
}

/// The message when every strategy failed.
pub open spec fn exhausted_text(n: nat, error: AgentErrorView) -> Seq<char> {
    "All "@ + decimal(n) + " strategies exhausted for error: "@ + agent_error_text(error)
}

fn select_positions(es: &Vec<StrategyEntry>, initial: &str, first_group: bool) -> (v: Vec<usize>)
    ensures
        v@ == positions(es@, es@.len(), if first_group { named(initial@) } else { other_handling(initial@) }),
{
    let ghost keep = if first_group { named(initial@) } else { other_handling(initial@) };
    let mut v: Vec<usize> = Vec::new();
    let mut i: usize = 0;
    while i < es.len()
        invariant
            0 <= i <= es.len(),
            keep == (if first_group { named(initial@) } else { other_handling(initial@) }),
            v@ == positions(es@, i as nat, keep),
        decreases es.len() - i,
    {
        let same = str_eq(es[i].name.as_str(), initial);
        let take = if first_group { same } else { !same && es[i].handles };
        assert(take == keep(es@[i as int]));
        if take {
            v.push(i);
        }
        i = i + 1;
    }
    v
}

proof fn lemma_positions_bounded(es: Seq<StrategyEntry>, k: nat, keep: spec_fn(StrategyEntry) -> bool)
    requires
        k <= es.len(),
        es.len() <= usize::MAX,
    ensures
        forall|j: int| 0 <= j < positions(es, k, keep).len() ==> positions(es, k, keep)[j] < k,
        positions(es, k, keep).len() <= k,
    decreases k,
{
    if k > 0 {
        lemma_positions_bounded(es, (k - 1) as nat, keep);
    }
}

/// Which positions `positions` selects, and that it selects each once, in
/// ascending order.
pub proof fn lemma_positions(es: Seq<StrategyEntry>, k: nat, keep: spec_fn(StrategyEntry) -> bool)
    requires
        k <= es.len(),
        es.len() <= usize::MAX,
    ensures
        forall|i: usize| #[trigger] positions(es, k, keep).contains(i) <==> (i < k && keep(es[i as int])),
        forall|a: int, b: int| 0 <= a < b < positions(es, k, keep).len() ==> positions(es, k, keep)[a] < positions(es, k, keep)[b],
    decreases k,
{
    if k > 0 {
        lemma_positions(es, (k - 1) as nat, keep);
        lemma_positions_bounded(es, (k - 1) as nat, keep);
        let rest = positions(es, (k - 1) as nat, keep);
        let p = positions(es, k, keep);
        assert forall|i: usize| #[trigger] p.contains(i) <==> (i < k && keep(es[i as int])) by {
            if rest.contains(i) {
                let j = choose|j: int| 0 <= j < rest.len() && rest[j] == i;
                assert(rest[j] < k - 1);
            }
            if p.contains(i) {
                let j = choose|j: int| 0 <= j < p.len() && p[j] == i;
                if j < rest.len() {
                    assert(rest[j] == i);
                    assert(rest.contains(i));
                }
            }
            if i < k && keep(es[i as int]) && i != k - 1 {
                assert(rest.contains(i));
                let j = choose|j: int| 0 <= j < rest.len() && rest[j] == i;
                assert(p[j] == i);
            }
            if i == k - 1 && keep(es[i as int]) {
                assert(p[rest.len() as int] == i);
            }
        }
        assert forall|a: int, b: int| 0 <= a < b < p.len() implies p[a] < p[b] by {
            if b == rest.len() {
                assert(rest[a] < k - 1);
            } else {
                assert(p[a] == rest[a] && p[b] == rest[b]);
            }
        }
    }
}

/// The engine's order of trial: a strategy is tried when it is named as the
/// initial strategy or it can handle the error; each strategy at most once;
/// and every strategy named as the initial one comes before all others.
pub proof fn lemma_selection_order(es: Seq<StrategyEntry>, initial: Seq<char>)
    requires
        es.len() <= usize::MAX,
    ensures
        forall|i: usize| #[trigger] selection_order(es, initial).contains(i) <==> (i < es.len() && (
            es[i as int].name@ == initial || es[i as int].handles)),
        selection_order(es, initial).no_duplicates(),
        forall|a: int, b: int|
            0 <= a < selection_order(es, initial).len() && 0 <= b < selection_order(es, initial).len()
                && es[selection_order(es, initial)[a] as int].name@ == initial
                && es[selection_order(es, initial)[b] as int].name@ != initial ==> a < b,
{
    let n = es.len();
    let pa = positions(es, n, named(initial));
    let pb = positions(es, n, other_handling(initial));
    lemma_positions(es, n, named(initial));
    lemma_positions(es, n, other_handling(initial));
    let o = selection_order(es, initial);
    assert forall|i: usize| #[trigger] o.contains(i) <==> (i < es.len() && (es[i as int].name@ == initial
        || es[i as int].handles)) by {
        if o.contains(i) {
            let j = choose|j: int| 0 <= j < o.len() && o[j] == i;
            if j < pa.len() {
                assert(pa.contains(i));
            } else {
                assert(pb[j - pa.len()] == i);
                assert(pb.contains(i));
            }
        }
        if i < es.len() && es[i as int].name@ == initial {
            assert(pa.contains(i));
            let j = choose|j: int| 0 <= j < pa.len() && pa[j] == i;
            assert(o[j] == i);
        } else if i < es.len() && es[i as int].handles {
            assert(pb.contains(i));
            let j = choose|j: int| 0 <= j < pb.len() && pb[j] == i;
            assert(o[pa.len() + j] == i);
        }
    }
    assert forall|a: int, b: int| 0 <= a < o.len() && 0 <= b < o.len() && a != b implies o[a] != o[b] by {
        if a < pa.len() && b < pa.len() {
        } else if a >= pa.len() && b >= pa.len() {
        } else if a < pa.len() {
            assert(pa.contains(o[a]));
            assert(pb.contains(o[b]));
        } else {
            assert(pb.contains(o[a]));
            assert(pa.contains(o[b]));
        }
    }
    assert forall|a: int, b: int|
        0 <= a < o.len() && 0 <= b < o.len() && es[o[a] as int].name@ == initial && es[o[b] as int].name@
            != initial implies a < b by {
        if b < pa.len() {
            assert(pa.contains(o[b]));
        }
        if a >= pa.len() {
            assert(pb.contains(o[a]));
        }
    }
}

proof fn lemma_next_handling_bounds(order: Seq<usize>, es: Seq<StrategyEntry>, from: nat)
    ensures
        next_handling(order, es, from) matches Some(k) ==> from <= k < order.len() && es[order[k as int] as int].handles,
        next_handling(order, es, from) is None ==> forall|k: int| from <= k < order.len() ==> !es[order[k] as int].handles,
    decreases order.len() - from,
{
    if from < order.len() && !es[order[from as int] as int].handles {
        lemma_next_handling_bounds(order, es, from + 1);
    }
}

/// The strategies a heal applies from position `from` of the order on while
/// each one fails: every one there that can handle the error, in order.
pub open spec fn applied_from(order: Seq<usize>, es: Seq<StrategyEntry>, from: nat) -> Seq<usize>
    decreases order.len() - from,
{
    if from >= order.len() {
        Seq::empty()
    } else if es[order[from as int] as int].handles {
        seq![order[from as int]] + applied_from(order, es, from + 1)
    } else {
        applied_from(order, es, from + 1)
    }
}

/// Each step of a heal takes the next strategy of `applied_from`: when a
/// step applies the strategy at position `k` of the order, what remains to
/// be applied afterwards is `applied_from(k + 1)`; when no strategy is left,
/// nothing remains. So a heal whose strategies all fail applies exactly
/// `applied_from(order, es, 0)`, one step each, and then stops.
pub proof fn lemma_steps_follow_applied(order: Seq<usize>, es: Seq<StrategyEntry>, from: nat)
    ensures
        match next_handling(order, es, from) {
            Some(k) => applied_from(order, es, from) == seq![order[k as int]] + applied_from(
                order,
                es,
                k + 1,
            ),
            None => applied_from(order, es, from) == Seq::<usize>::empty(),
        },
    decreases order.len() - from,
{
    if from < order.len() && !es[order[from as int] as int].handles {
        lemma_steps_follow_applied(order, es, from + 1);
    }
}

proof fn lemma_applied_from_members(order: Seq<usize>, es: Seq<StrategyEntry>, from: nat)
    requires
        order.no_duplicates(),
    ensures
        forall|i: usize| #[trigger] applied_from(order, es, from).contains(i) <==> exists|j: int|
            from <= j < order.len() && order[j] == i && es[i as int].handles,
        applied_from(order, es, from).no_duplicates(),
    decreases order.len() - from,
{
    if from < order.len() {
        lemma_applied_from_members(order, es, from + 1);
        let rest = applied_from(order, es, from + 1);
        let a = applied_from(order, es, from);
        assert forall|i: usize| #[trigger] a.contains(i) <==> exists|j: int|
            from <= j < order.len() && order[j] == i && es[i as int].handles by {
            if a.contains(i) {
                let t = choose|t: int| 0 <= t < a.len() && a[t] == i;
                if es[order[from as int] as int].handles && t == 0 {
                    assert(order[from as int] == i);
                } else if es[order[from as int] as int].handles {
                    assert(rest[t - 1] == i);
                    assert(rest.contains(i));
                } else {
                    assert(rest.contains(i));
                }
            }
            if exists|j: int| from <= j < order.len() && order[j] == i && es[i as int].handles {
                let j = choose|j: int| from <= j < order.len() && order[j] == i && es[i as int].handles;
                if j == from {
                    assert(a[0] == i);
                } else {
                    assert(rest.contains(i));
                    let t = choose|t: int| 0 <= t < rest.len() && rest[t] == i;
                    if es[order[from as int] as int].handles {
                        assert(a[t + 1] == i);
                    } else {
                        assert(a[t] == i);
                    }
                }
            }
        }
        if es[order[from as int] as int].handles {
            let x = order[from as int];
            assert(!rest.contains(x)) by {
                if rest.contains(x) {
                    let j = choose|j: int| from + 1 <= j < order.len() && order[j] == x && es[x as int].handles;
                    assert(order[j] == order[from as int]);
                }
            }
            assert forall|p: int, q: int| 0 <= p < q < a.len() implies a[p] != a[q] by {
                if p == 0 {
                    assert(a[q] == rest[q - 1]);
                    assert(rest.contains(rest[q - 1]));
                } else {
                    assert(a[p] == rest[p - 1] && a[q] == rest[q - 1]);
                }
            }
        }
    }
}

/// What a heal whose strategies all fail applies: exactly the registered
/// strategies that can handle the error, each once.
pub proof fn lemma_failing_heal_applies(es: Seq<StrategyEntry>, initial: Seq<char>)
    requires
        es.len() <= usize::MAX,
    ensures
        forall|i: usize| #[trigger] applied_from(selection_order(es, initial), es, 0).contains(i) <==> (i
            < es.len() && es[i as int].handles),
        applied_from(selection_order(es, initial), es, 0).no_duplicates(),
{
    lemma_selection_order(es, initial);
    let o = selection_order(es, initial);
    lemma_applied_from_members(o, es, 0);
    assert forall|i: usize| #[trigger] applied_from(o, es, 0).contains(i) <==> (i < es.len()
        && es[i as int].handles) by {
        if i < es.len() && es[i as int].handles {
            assert(o.contains(i));
            let j = choose|j: int| 0 <= j < o.len() && o[j] == i;
            assert(0 <= j < o.len() && o[j] == i && es[i as int].handles);
        }
        if applied_from(o, es, 0).contains(i) {
            let j = choose|j: int| 0 <= j < o.len() && o[j] == i && es[i as int].handles;
            assert(o.contains(i));
        }
    }
}

impl HealPlan {
    /// Whether every position in the plan names a registered strategy.
    pub open spec fn wf(self, es: Seq<StrategyEntry>) -> bool {
        &&& forall|j: int| 0 <= j < self.order@.len() ==> (#[trigger] self.order@[j]) < es.len()
        &&& self.next <= self.order@.len()
    }

    /// The plan for an error whose first strategy is `initial`.
    pub fn new(entries: &Vec<StrategyEntry>, initial: &str) -> (p: HealPlan)
        ensures
            p.order@ == selection_order(entries@, initial@),
            p.next == 0,
            p.wf(entries@),
    {
        let mut a = select_positions(entries, initial, true);
        let mut b = select_positions(entries, initial, false);
        let count = entries.len();
        proof {
            lemma_positions_bounded(entries@, entries@.len(), named(initial@));
            lemma_positions_bounded(entries@, entries@.len(), other_handling(initial@));
        }
        a.append(&mut b);
        HealPlan { order: a, next: 0 }
    }

    /// The engine's next move after `last` (the result of the strategy
    /// applied last, if any): stop with it when it succeeded; otherwise
    /// apply the next strategy in the order that can handle the error; when
    /// none is left, stop with a failure naming how many were selected.
    pub fn step(&mut self, entries: &Vec<StrategyEntry>, last: Option<HealResult>, error: &AgentError) -> (a: HealAction)
        requires
            old(self).wf(entries@),
            agent_error_wf(error@),
        ensures
            final(self).order@ == old(self).order@,
            final(self).wf(entries@),
            succeeded(last) ==> (a matches HealAction::Finish(r) && r@ == last->0@
                && final(self).next == old(self).next),
            !succeeded(last) ==> match next_handling(old(self).order@, entries@, old(self).next as nat) {
                Some(k) => a == HealAction::Apply(old(self).order@[k as int]) && final(self).next == k + 1,
                None => a matches HealAction::Finish(r) && r@ == HealOutcome::Failed(
                    exhausted_text(old(self).order@.len(), error@),
                ) && final(self).next == old(self).order@.len(),
            },
    {
        let done = match &last {
            Some(r) => r.is_success(),
            None => false,
        };
        if done {
            return HealAction::Finish(last.unwrap());
        }
        proof {
            lemma_next_handling_bounds(self.order@, entries@, self.next as nat);
        }
        while self.next < self.order.len()
            invariant
                !succeeded(last),
                self.order@ == old(self).order@,
                self.wf(entries@),
                old(self).next <= self.next,
                next_handling(old(self).order@, entries@, old(self).next as nat) == next_handling(
                    self.order@,
                    entries@,
                    self.next as nat,
                ),
            decreases self.order@.len() - self.next,
        {
            let idx = self.order[self.next];
            if entries[idx].handles {
                self.next = self.next + 1;
                return HealAction::Apply(idx);
            }
            self.next = self.next + 1;
        }
        let n = decimal_text(self.order.len() as u64);
        let e = error.to_string();
        HealAction::Finish(HealResult::Failed {
            reason: cat4("All ", n.as_str(), " strategies exhausted for error: ", e.as_str()),
        })
    }
}

// ---------------------------------------------------------------- strategies and engine

/// A way of healing errors: its name and which errors it can heal. What a
/// strategy does when applied is left to its owner.
pub trait HealStrategy {
    /// The strategy's name.
    spec fn strategy_name(&self) -> Seq<char>;

    /// Whether the strategy can heal `error`.
    spec fn heals(&self, error: AgentErrorView) -> bool;

    /// Whether the strategy can heal `error`.
    fn can_handle(&self, error: &AgentError) -> (r: bool)
        ensures
            r == self.heals(error@),
    ;

    /// The strategy's name.
    fn name(&self) -> (r: &str)
        ensures
            r@ == self.strategy_name(),
    ;
}

impl HealStrategy for RetryStrategy {
    open spec fn strategy_name(&self) -> Seq<char> {
        "retry"@
    }

    open spec fn heals(&self, error: AgentErrorView) -> bool {
        RetryStrategy::handles(error)
    }

    fn can_handle(&self, error: &AgentError) -> (r: bool) {
        RetryStrategy::can_handle(self, error)
    }

    fn name(&self) -> (r: &str) {
        RetryStrategy::name(self)
    }
}

impl HealStrategy for ReframeStrategy {
    open spec fn strategy_name(&self) -> Seq<char> {
        "reframe"@
    }

    open spec fn heals(&self, error: AgentErrorView) -> bool {
        ReframeStrategy::handles(error)
    }

    fn can_handle(&self, error: &AgentError) -> (r: bool) {
        ReframeStrategy::can_handle(self, error)
    }

    fn name(&self) -> (r: &str) {
        ReframeStrategy::name(self)
    }
}

impl HealStrategy for SwapToolStrategy {
    open spec fn strategy_name(&self) -> Seq<char> {
        "swap_tool"@
    }

    open spec fn heals(&self, error: AgentErrorView) -> bool {
        SwapToolStrategy::handles(error)
    }

    fn can_handle(&self, error: &AgentError) -> (r: bool) {
        SwapToolStrategy::can_handle(self, error)
    }

    fn name(&self) -> (r: &str) {
        SwapToolStrategy::name(self)
    }
}

impl HealStrategy for DecomposeStrategy {
    open spec fn strategy_name(&self) -> Seq<char> {
        "decompose"@
    }

    open spec fn heals(&self, error: AgentErrorView) -> bool {
        DecomposeStrategy::handles(error)
    }

    fn can_handle(&self, error: &AgentError) -> (r: bool) {
        DecomposeStrategy::can_handle(self, error)
    }

    fn name(&self) -> (r: &str) {
        DecomposeStrategy::name(self)
    }
}

impl HealStrategy for ReduceScopeStrategy {
    open spec fn strategy_name(&self) -> Seq<char> {
        "reduce_scope"@
    }

    open spec fn heals(&self, error: AgentErrorView) -> bool {
        ReduceScopeStrategy::handles(error)
    }

    fn can_handle(&self, error: &AgentError) -> (r: bool) {
        ReduceScopeStrategy::can_handle(self, error)
    }

    fn name(&self) -> (r: &str) {
        ReduceScopeStrategy::name(self)
    }
}

impl HealStrategy for SpawnSubagentStrategy {
    open spec fn strategy_name(&self) -> Seq<char> {
        "spawn_subagent"@
    }

    open spec fn heals(&self, error: AgentErrorView) -> bool {
        SpawnSubagentStrategy::handles(error)
    }

    fn can_handle(&self, error: &AgentError) -> (r: bool) {
        SpawnSubagentStrategy::can_handle(self, error)
    }

    fn name(&self) -> (r: &str) {
        SpawnSubagentStrategy::name(self)
    }
}

impl HealStrategy for ChangeProviderStrategy {
    open spec fn strategy_name(&self) -> Seq<char> {
        "change_provider"@
    }

    open spec fn heals(&self, error: AgentErrorView) -> bool {
        ChangeProviderStrategy::handles(error)
    }

    fn can_handle(&self, error: &AgentError) -> (r: bool) {
        ChangeProviderStrategy::can_handle(self, error)
    }

    fn name(&self) -> (r: &str) {
        ChangeProviderStrategy::name(self)
    }
}

/// One of the built-in strategies.
#[derive(Clone, Debug)]
pub enum BuiltinStrategy {
    Retry(RetryStrategy),
    Reframe(ReframeStrategy),
    SwapTool(SwapToolStrategy),
    Decompose(DecomposeStrategy),
    SpawnSubagent(SpawnSubagentStrategy),
    ChangeProvider(ChangeProviderStrategy),
    ReduceScope(ReduceScopeStrategy),
}

impl HealStrategy for BuiltinStrategy {
    open spec fn strategy_name(&self) -> Seq<char> {
        match self {
            BuiltinStrategy::Retry(s) => s.strategy_name(),
            BuiltinStrategy::Reframe(s) => s.strategy_name(),
            BuiltinStrategy::SwapTool(s) => s.strategy_name(),
            BuiltinStrategy::Decompose(s) => s.strategy_name(),
            BuiltinStrategy::SpawnSubagent(s) => s.strategy_name(),
            BuiltinStrategy::ChangeProvider(s) => s.strategy_name(),
            BuiltinStrategy::ReduceScope(s) => s.strategy_name(),
        }
    }

    open spec fn heals(&self, error: AgentErrorView) -> bool {
        match self {
            BuiltinStrategy::Retry(s) => s.heals(error),
            BuiltinStrategy::Reframe(s) => s.heals(error),
            BuiltinStrategy::SwapTool(s) => s.heals(error),
            BuiltinStrategy::Decompose(s) => s.heals(error),
            BuiltinStrategy::SpawnSubagent(s) => s.heals(error),
            BuiltinStrategy::ChangeProvider(s) => s.heals(error),
            BuiltinStrategy::ReduceScope(s) => s.heals(error),
        }
    }

    fn can_handle(&self, error: &AgentError) -> (r: bool) {
        match self {
            BuiltinStrategy::Retry(s) => RetryStrategy::can_handle(s, error),
            BuiltinStrategy::Reframe(s) => ReframeStrategy::can_handle(s, error),
            BuiltinStrategy::SwapTool(s) => SwapToolStrategy::can_handle(s, error),
            BuiltinStrategy::Decompose(s) => DecomposeStrategy::can_handle(s, error),
            BuiltinStrategy::SpawnSubagent(s) => SpawnSubagentStrategy::can_handle(s, error),
            BuiltinStrategy::ChangeProvider(s) => ChangeProviderStrategy::can_handle(s, error),
            BuiltinStrategy::ReduceScope(s) => ReduceScopeStrategy::can_handle(s, error),
        }
    }

    fn name(&self) -> (r: &str) {
        match self {
            BuiltinStrategy::Retry(s) => RetryStrategy::name(s),
            BuiltinStrategy::Reframe(s) => ReframeStrategy::name(s),
            BuiltinStrategy::SwapTool(s) => SwapToolStrategy::name(s),
            BuiltinStrategy::Decompose(s) => DecomposeStrategy::name(s),
            BuiltinStrategy::SpawnSubagent(s) => SpawnSubagentStrategy::name(s),
            BuiltinStrategy::ChangeProvider(s) => ChangeProviderStrategy::name(s),
            BuiltinStrategy::ReduceScope(s) => ReduceScopeStrategy::name(s),
        }
    }
}

/// The names of the built-in strategies, in the order they are registered
/// by default.
pub open spec fn default_strategy_names() -> Seq<Seq<char>> {
    seq!["retry"@, "reframe"@, "swap_tool"@, "decompose"@, "spawn_subagent"@, "change_provider"@, "reduce_scope"@]
}

/// Every error that is not fatal can be healed by at least one built-in
/// strategy.
pub proof fn lemma_non_fatal_errors_handled(e: AgentErrorView)
    requires
        severity_of(e) != ErrorSeverity::Fatal,
    ensures
        RetryStrategy::handles(e) || ReframeStrategy::handles(e) || SwapToolStrategy::handles(e)
            || DecomposeStrategy::handles(e) || ReduceScopeStrategy::handles(e)
            || SpawnSubagentStrategy::handles(e) || ChangeProviderStrategy::handles(e),
{
}

/// The strategy the classifier names first for any error is one of the
/// built-in strategies registered by default.
pub proof fn lemma_first_strategy_registered(e: AgentErrorView)
    ensures
        default_strategy_names().contains(first_strategy_of(e)),
{
    let d = default_strategy_names();
    let f = first_strategy_of(e);
    if f == "retry"@ {
        assert(d[0] == f);
    } else if f == "reframe"@ {
        assert(d[1] == f);
    } else if f == "swap_tool"@ {
        assert(d[2] == f);
    } else if f == "decompose"@ {
        assert(d[3] == f);
    } else if f == "spawn_subagent"@ {
        assert(d[4] == f);
    } else if f == "change_provider"@ {
        assert(d[5] == f);
    } else {
        assert(d[6] == f);
    }
}

/// The built-in strategies in their default order: retry (five times from
/// one second), reframe, swap tool, decompose, spawn sub-agent, change
/// provider (among the default providers) and reduce scope.
pub fn default_strategies() -> (v: Vec<BuiltinStrategy>)
    ensures
        v.len() == 7,
        forall|i: int| 0 <= i < 7 ==> (#[trigger] v@[i]).strategy_name() == default_strategy_names()[i],
        v@[0] matches BuiltinStrategy::Retry(r) && r.max_retries == 5 && r.base_delay_ms == 1000,
        v@[5] matches BuiltinStrategy::ChangeProvider(c) && c.providers@.len() == 0,
{
    let mut v: Vec<BuiltinStrategy> = Vec::new();
    v.push(BuiltinStrategy::Retry(RetryStrategy::default()));
    v.push(BuiltinStrategy::Reframe(ReframeStrategy));
    v.push(BuiltinStrategy::SwapTool(SwapToolStrategy));
    v.push(BuiltinStrategy::Decompose(DecomposeStrategy));
    v.push(BuiltinStrategy::SpawnSubagent(SpawnSubagentStrategy));
    v.push(BuiltinStrategy::ChangeProvider(ChangeProviderStrategy { providers: Vec::new() }));
    v.push(BuiltinStrategy::ReduceScope(ReduceScopeStrategy));
    v
}

/// The heal engine: its strategies, in registration order, and the most
/// heal attempts it allows.
pub struct HealEngine<S> {
    pub strategies: Vec<S>,
    pub max_attempts: usize,
}

impl<S: HealStrategy> HealEngine<S> {
    /// An engine with these strategies, allowing 20 attempts.
    pub fn new(strategies: Vec<S>) -> (e: HealEngine<S>)
        ensures
            e.strategies@ == strategies@,
            e.max_attempts == 20,
    {
        HealEngine { strategies, max_attempts: 20 }
    }

    /// The same engine allowing `max` attempts.
    pub fn with_max_attempts(self, max: usize) -> (e: HealEngine<S>)
        ensures
            e.strategies@ == self.strategies@,
            e.max_attempts == max,
    {
        HealEngine { strategies: self.strategies, max_attempts: max }
    }

    /// Each strategy as the engine sees it for `error`: its name and whether
    /// it can heal the error.
    pub fn entries_for(&self, error: &AgentError) -> (v: Vec<StrategyEntry>)
        ensures
            v.len() == self.strategies.len(),
            forall|i: int|
                0 <= i < v.len() ==> (#[trigger] v@[i]).name@ == self.strategies@[i].strategy_name()
                    && v@[i].handles == self.strategies@[i].heals(error@),
    {
        let mut v: Vec<StrategyEntry> = Vec::new();
        let mut i: usize = 0;
        while i < self.strategies.len()
            invariant
                i <= self.strategies.len(),
                v.len() == i,
                forall|j: int|
                    0 <= j < i ==> (#[trigger] v@[j]).name@ == self.strategies@[j].strategy_name()
                        && v@[j].handles == self.strategies@[j].heals(error@),
            decreases self.strategies.len() - i,
        {
            let s = &self.strategies[i];
            let name = String::from_str(s.name());
            let handles = s.can_handle(error);
            v.push(StrategyEntry { name, handles });
            i = i + 1;
        }
        v
    }

    /// The plan for healing `error`: the strategies seen for it and the
    /// order of trial, starting from the classifier's first strategy.
    pub fn plan_for(&self, error: &AgentError) -> (r: (HealPlan, Vec<StrategyEntry>))
        ensures
            r.1.len() == self.strategies.len(),
            forall|i: int|
                0 <= i < r.1.len() ==> (#[trigger] r.1@[i]).name@ == self.strategies@[i].strategy_name()
                    && r.1@[i].handles == self.strategies@[i].heals(error@),
            r.0.order@ == selection_order(r.1@, crate::classifier::first_strategy_of(error@)),
            r.0.next == 0,
            r.0.wf(r.1@),
    {
        let entries = self.entries_for(error);
        let initial = crate::classifier::ErrorClassifier::initial_strategy(error);
        let plan = HealPlan::new(&entries, initial);
        (plan, entries)
    }

    /// The strategy registered at `i`.
    pub fn strategy(&self, i: usize) -> (s: &S)
        requires
            i < self.strategies.len(),
        ensures
            *s == self.strategies@[i as int],
    {
        &self.strategies[i]
    }
}

} // verus!
