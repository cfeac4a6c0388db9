//! One agent run as a conversation with the model: the run asks for a
//! completion, runs the tools the model calls, feeds their output back, and
//! ends with the first reply that calls no tool, or after a fixed number of
//! rounds.
use vstd::prelude::*;
use vstd::string::StringExecFns;
use crate::error::{cat3, AgentError, ToolError};
use crate::llm::{CompletionRequest, Message, MessageContent, Role, ToolDefinition};
use crate::memory::TaskRecord;
use crate::message::TaskResult;

verus! {

/// The most completions one run asks for.
pub const MAX_ITERATIONS: usize = 20;

/// The system prompt of a run of agent `agent` towards `goal`.
pub open spec fn system_prompt_text(agent: Seq<char>, goal: Seq<char>) -> Seq<char> {
    "You are an AI agent named "@ + agent + ". Your goal: "@ + goal
        + "\n\nYou have access to tools. When you need to use a tool, respond with a tool call. When you are done, respond with your final answer."@
}

/// Builds the system prompt of a run.
pub fn system_prompt(agent: &str, goal: &str) -> (s: String)
    ensures
        s@ == system_prompt_text(agent@, goal@),
{
    let head = cat3("You are an AI agent named ", agent, ". Your goal: ");
    cat3(
        head.as_str(),
        goal,
        "\n\nYou have access to tools. When you need to use a tool, respond with a tool call. When you are done, respond with your final answer.",
    )
}

/// The error a run reports for a tool call naming no registered tool.
pub fn missing_tool(name: &str) -> (e: ToolError)
    ensures
        e matches ToolError::ExecutionFailed { reason } && reason@ == "Tool '"@ + name@
            + "' not found"@,
{
    ToolError::ExecutionFailed { reason: cat3("Tool '", name, "' not found") }
}

/// The outcome of a run that used up its rounds.
pub fn exhausted() -> (r: TaskResult)
    ensures
        r == (TaskResult::Failed {
            error: AgentError::InfiniteLoop { iteration_count: MAX_ITERATIONS },
        }),
{
    TaskResult::Failed { error: AgentError::InfiniteLoop { iteration_count: MAX_ITERATIONS } }
}

/// A copy of a tool definition.
pub fn copy_tool(t: &ToolDefinition) -> (r: ToolDefinition)
    ensures
        r == *t,
{
    ToolDefinition {
        name: t.name.clone(),
        description: t.description.clone(),
        input_schema: t.input_schema.clone(),
    }
}

/// A copy of a message.
pub fn copy_message(m: &Message) -> (r: Message)
    ensures
        r == *m,
{
    let content = match &m.content {
        MessageContent::Text(t) => MessageContent::Text(t.clone()),
    };
    Message { role: m.role, content }
}

/// A message as its role and text.
pub open spec fn message_view(m: Message) -> (Role, Seq<char>) {
    (m.role, m.text())
}

/// The conversation of one run.
pub struct Execution {
    system_prompt: String,
    messages: Vec<Message>,
    iterations: usize,
    finished: bool,
}

impl Execution {
    /// The system prompt of the run.
    pub closed spec fn prompt(self) -> Seq<char> {
        self.system_prompt@
    }

    /// The conversation so far, as roles and texts.
    pub closed spec fn conversation(self) -> Seq<(Role, Seq<char>)> {
        self.messages@.map_values(|m: Message| message_view(m))
    }

    /// How many completions the run has received.
    pub closed spec fn rounds(self) -> nat {
        self.iterations as nat
    }

    /// Whether the run has its final answer.
    pub closed spec fn done(self) -> bool {
        self.finished
    }

    /// The run's invariant: it never goes past its rounds.
    pub closed spec fn wf(self) -> bool {
        self.iterations <= MAX_ITERATIONS
    }

    /// A run of agent `agent` towards `goal`: the goal is the first message,
    /// from the user.
    pub fn start(agent: &str, goal: &str) -> (e: Execution)
        ensures
            e.wf(),
            e.prompt() == system_prompt_text(agent@, goal@),
            e.conversation() == seq![(Role::User, goal@)],
            e.rounds() == 0,
            !e.done(),
    {
        let mut messages: Vec<Message> = Vec::new();
        messages.push(Message { role: Role::User, content: MessageContent::Text(String::from_str(goal)) });
        let e = Execution { system_prompt: system_prompt(agent, goal), messages, iterations: 0, finished: false };
        assert(e.conversation() =~= seq![(Role::User, goal@)]);
        e
    }

    /// How many completions the run has received.
    pub fn iterations(&self) -> (n: usize)
        ensures
            n == self.rounds(),
    {
        self.iterations
    }

    /// The next completion to ask for, with the model settings and tools
    /// given; none once the run has its answer or has used up its rounds.
    pub fn next_request(&self, temperature_bits: Option<u32>, max_tokens: Option<usize>, tools: &Vec<ToolDefinition>) -> (r: Option<CompletionRequest>)
        requires
            self.wf(),
        ensures
            r is None <==> (self.done() || self.rounds() >= MAX_ITERATIONS),
            r matches Some(q) ==> {
                &&& q.messages@.map_values(|m: Message| message_view(m)) == self.conversation()
                &&& q.system_prompt matches Some(p) && p@ == self.prompt()
                &&& q.temperature_bits == temperature_bits
                &&& q.max_tokens == max_tokens
                &&& q.stop_sequences is None
                &&& (tools.len() == 0 <==> q.tools is None)
                &&& (q.tools matches Some(ts) ==> ts@ == tools@)
            },
    {
        if self.finished || self.iterations >= MAX_ITERATIONS {
            return None;
        }
        let mut messages: Vec<Message> = Vec::new();
        let mut i: usize = 0;
        while i < self.messages.len()
            invariant
                i <= self.messages.len(),
                messages@ == self.messages@.take(i as int),
            decreases self.messages.len() - i,
        {
            messages.push(copy_message(&self.messages[i]));
            proof {
                assert(messages@ =~= self.messages@.take(i + 1));
            }
            i = i + 1;
        }
        proof {
            assert(self.messages@.take(self.messages.len() as int) =~= self.messages@);
        }
        let tool_list = if tools.len() == 0 {
            None
        } else {
            let mut ts: Vec<ToolDefinition> = Vec::new();
            let mut j: usize = 0;
            while j < tools.len()
                invariant
                    j <= tools.len(),
                    ts@ == tools@.take(j as int),
                decreases tools.len() - j,
            {
                ts.push(copy_tool(&tools[j]));
                proof {
                    assert(ts@ =~= tools@.take(j + 1));
                }
                j = j + 1;
            }
            proof {
                assert(tools@.take(tools.len() as int) =~= tools@);
            }
            Some(ts)
        };
        Some(CompletionRequest {
            messages,
            system_prompt: Some(self.system_prompt.clone()),
            temperature_bits,
            max_tokens,
            stop_sequences: None,
            tools: tool_list,
        })
    }

    /// Takes the model's reply, which calls `tool_calls` tools. A reply that
    /// calls tools joins the conversation as the assistant's and the run goes
    /// on; one that calls none is the run's successful answer.
    pub fn record_reply(&mut self, content: String, tool_calls: usize) -> (r: Option<TaskResult>)
        requires
            old(self).wf(),
            !old(self).done(),
            old(self).rounds() < MAX_ITERATIONS,
        ensures
            final(self).wf(),
            final(self).rounds() == old(self).rounds() + 1,
            final(self).prompt() == old(self).prompt(),
            tool_calls > 0 ==> {
                &&& r is None
                &&& !final(self).done()
                &&& final(self).conversation() == old(self).conversation().push((Role::Assistant, content@))
            },
            tool_calls == 0 ==> {
                &&& r matches Some(TaskResult::Success { output }) && output@ == content@
                &&& final(self).done()
                &&& final(self).conversation() == old(self).conversation()
            },
    {
        self.iterations = self.iterations + 1;
        if tool_calls > 0 {
            let ghost before = self.messages@;
            self.messages.push(Message { role: Role::Assistant, content: MessageContent::Text(content) });
            proof {
                assert(self.messages@.map_values(|m: Message| message_view(m)) =~= before.map_values(
                    |m: Message| message_view(m),
                ).push((Role::Assistant, content@)));
            }
            None
        } else {
            self.finished = true;
            Some(TaskResult::Success { output: content })
        }
    }

    /// Feeds a tool's output (its JSON text) back into the conversation.
    pub fn record_tool_output(&mut self, output: String)
        requires
            old(self).wf(),
        ensures
            final(self).wf(),
            final(self).rounds() == old(self).rounds(),
            final(self).done() == old(self).done(),
            final(self).prompt() == old(self).prompt(),
            final(self).conversation() == old(self).conversation().push((Role::Tool, output@)),
    {
        let ghost before = self.messages@;
        self.messages.push(Message { role: Role::Tool, content: MessageContent::Text(output) });
        proof {
            assert(self.messages@.map_values(|m: Message| message_view(m)) =~= before.map_values(
                |m: Message| message_view(m),
            ).push((Role::Tool, output@)));
        }
    }
}

/// The record a successful run leaves in long-term memory.
pub fn success_record(
    agent_id: &str,
    goal: &str,
    summary: &str,
    tools_used: Vec<String>,
    duration_ms: i64,
    run_id: &str,
    started_at: &str,
    ended_at: &str,
) -> (r: TaskRecord)
    ensures
        r.agent_id@ == agent_id@,
        r.goal@ == goal@,
        r.outcome@ == "success"@,
        r.summary@ == summary@,
        r.tools_used@ == tools_used@,
        r.duration_ms == duration_ms,
        r.run_id@ == run_id@,
        r.started_at@ == started_at@,
        r.ended_at@ == ended_at@,
{
    TaskRecord {
        agent_id: String::from_str(agent_id),
        goal: String::from_str(goal),
        outcome: String::from_str("success"),
        summary: String::from_str(summary),
        tools_used,
        duration_ms,
        run_id: String::from_str(run_id),
        started_at: String::from_str(started_at),
        ended_at: String::from_str(ended_at),
    }
}

} // verus!
