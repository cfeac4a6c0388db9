//! Language-model providers: the requests sent to them and how their
//! replies and HTTP statuses are read back.
use vstd::prelude::*;
use vstd::string::StringExecFns;
use crate::error::{cat2, LlmError};
use crate::text::str_eq;

verus! {

/// Who speaks a message.
#[derive(Clone, Copy, Debug, PartialEq, Eq, Structural)]
pub enum Role {
    System,
    User,
    Assistant,
    Tool,
}

/// What a message holds.
#[derive(Clone, Debug)]
pub enum MessageContent {
    Text(String),
}

/// One message of a conversation.
#[derive(Clone, Debug)]
pub struct Message {
    pub role: Role,
    pub content: MessageContent,
}

impl Message {
    /// The text of the message.
    pub open spec fn text(self) -> Seq<char> {
        match self.content {
            MessageContent::Text(t) => t@,
        }
    }
}

/// A tool the model may call.
#[derive(Clone, Debug)]
pub struct ToolDefinition {
    pub name: String,
    pub description: String,
    pub input_schema: serde_json::Value,
}

/// A request for one completion. The temperature is held as the bit pattern
/// of its `f32`.
#[derive(Clone, Debug)]
pub struct CompletionRequest {
    pub messages: Vec<Message>,
    pub system_prompt: Option<String>,
    pub temperature_bits: Option<u32>,
    pub max_tokens: Option<usize>,
    pub stop_sequences: Option<Vec<String>>,
    pub tools: Option<Vec<ToolDefinition>>,
}

/// Why the model stopped.
#[derive(Clone, Copy, Debug, PartialEq, Eq, Structural)]
pub enum StopReason {
    EndTurn,
    MaxTokens,
    ToolUse,
}

/// Tokens spent by one completion.
#[derive(Clone, Copy, Debug, PartialEq, Eq, Structural)]
pub struct TokenUsage {
    pub input_tokens: usize,
    pub output_tokens: usize,
    pub total_tokens: usize,
}

/// A call of a tool that the model asks for.
#[derive(Debug)]
pub struct ToolCallRequest {
    pub id: String,
    pub name: String,
    pub input: serde_json::Value,
}

/// One completion.
#[derive(Debug)]
pub struct CompletionResponse {
    pub content: String,
    pub tool_calls: Vec<ToolCallRequest>,
    pub usage: TokenUsage,
    pub stop_reason: StopReason,
    pub model: String,
}

/// Whether an HTTP status is a success (2xx).
pub open spec fn is_success(status: u16) -> bool {
    200 <= status <= 299
}

/// Reads a provider's HTTP status (and the body it came with) as an error,
/// if it is one: 429 is a rate limit of a minute, 401 a refused key, any
/// other status outside 2xx a provider error carrying the body; a success
/// is no error.
pub fn status_error(status: u16, body: String) -> (r: Option<LlmError>)
    ensures
        status == 429 ==> r == Some(LlmError::RateLimited { retry_after_ms: 60000 }),
        status == 401 ==> (r matches Some(LlmError::AuthenticationFailed { reason }) && reason@
            == "Invalid API key"@),
        status != 429 && status != 401 && !is_success(status) ==> (r matches Some(
            LlmError::ProviderError { status: s, message },
        ) && s == status && message@ == body@),
        is_success(status) ==> r is None,
{
    if status == 429 {
        Some(LlmError::RateLimited { retry_after_ms: 60000 })
    } else if status == 401 {
        Some(LlmError::AuthenticationFailed { reason: String::from_str("Invalid API key") })
    } else if !(200 <= status && status <= 299) {
        Some(LlmError::ProviderError { status, message: body })
    } else {
        None
    }
}

/// The error every provider gives for a streamed completion, which none
/// offers yet.
pub fn streaming_unavailable() -> (e: LlmError)
    ensures
        e matches LlmError::StreamingError { reason } && reason@
            == "Streaming not yet implemented"@,
{
    LlmError::StreamingError { reason: String::from_str("Streaming not yet implemented") }
}

// ------------------------------------------------------------------ Anthropic

/// The role under which Anthropic's API receives a message: it knows only
/// users and assistants.
pub open spec fn anthropic_role(role: Role) -> Seq<char> {
    match role {
        Role::Assistant => "assistant"@,
        _ => "user"@,
    }
}

/// Anthropic's role for `role`.
pub fn anthropic_role_name(role: Role) -> (s: &'static str)
    ensures
        s@ == anthropic_role(role),
{
    match role {
        Role::User => "user",
        Role::Assistant => "assistant",
        Role::Tool => "user",
        Role::System => "user",
    }
}

/// One message as Anthropic's API takes it.
#[derive(Clone, Debug)]
pub struct AnthropicMessage {
    pub role: String,
    pub content: String,
}

/// The body of a request to Anthropic's messages endpoint.
#[derive(Clone, Debug)]
pub struct AnthropicRequest {
    pub model: String,
    pub max_tokens: usize,
    pub system: Option<String>,
    pub messages: Vec<AnthropicMessage>,
}

/// One content block of Anthropic's reply.
#[derive(Debug)]
pub struct AnthropicContent {
    pub content_type: String,
    pub text: Option<String>,
    pub id: Option<String>,
    pub name: Option<String>,
    /// The tool's input; a block that gives none reads as JSON `null`.
    pub input: serde_json::Value,
}

/// Anthropic's count of tokens.
#[derive(Clone, Copy, Debug)]
pub struct AnthropicUsage {
    pub input_tokens: usize,
    pub output_tokens: usize,
}

/// Anthropic's reply to a request.
#[derive(Debug)]
pub struct AnthropicResponse {
    pub content: Vec<AnthropicContent>,
    pub usage: AnthropicUsage,
    pub stop_reason: Option<String>,
}

/// The text of the reply: the texts of its `text` blocks, in order.
pub open spec fn anthropic_text(blocks: Seq<AnthropicContent>) -> Seq<char>
    decreases blocks.len(),
{
    if blocks.len() == 0 {
        Seq::empty()
    } else {
        let b = blocks.last();
        let t = if b.content_type@ == "text"@ {
            match b.text {
                Some(t) => t@,
                None => Seq::empty(),
            }
        } else {
            Seq::empty()
        };
        anthropic_text(blocks.drop_last()) + t
    }
}

/// The `tool_use` blocks of the reply, in order.
pub open spec fn anthropic_tool_blocks(blocks: Seq<AnthropicContent>) -> Seq<AnthropicContent>
    decreases blocks.len(),
{
    if blocks.len() == 0 {
        Seq::empty()
    } else {
        let rest = anthropic_tool_blocks(blocks.drop_last());
        let kind = blocks.last().content_type@;
        if kind != "text"@ && kind == "tool_use"@ {
            rest.push(blocks.last())
        } else {
            rest
        }
    }
}

/// `Some(s)` as its text, `None` as the empty text.
pub open spec fn text_or_empty(s: Option<String>) -> Seq<char> {
    match s {
        Some(t) => t@,
        None => Seq::empty(),
    }
}

/// Whether the call stands for the `tool_use` block: its id and name are
/// the block's (empty where the block has none), its input the block's
/// where the block has one.
pub open spec fn call_of_block(call: ToolCallRequest, b: AnthropicContent) -> bool {
    &&& call.id@ == text_or_empty(b.id)
    &&& call.name@ == text_or_empty(b.name)
    &&& call.input == b.input
}

/// How Anthropic's stop reason reads.
pub open spec fn anthropic_stop(reason: Option<Seq<char>>) -> StopReason {
    match reason {
        Some(r) => if r == "end_turn"@ {
            StopReason::EndTurn
        } else if r == "max_tokens"@ {
            StopReason::MaxTokens
        } else if r == "tool_use"@ {
            StopReason::ToolUse
        } else {
            StopReason::EndTurn
        },
        None => StopReason::EndTurn,
    }
}

/// A client of Anthropic's messages API.
#[derive(Clone, Debug)]
pub struct AnthropicProvider {
    api_key: String,
    model: String,
}

impl AnthropicProvider {
    /// The key the provider sends.
    pub closed spec fn key(self) -> Seq<char> {
        self.api_key@
    }

    /// The model the provider asks for.
    pub closed spec fn model_spec(self) -> Seq<char> {
        self.model@
    }

    /// A provider sending `api_key` and asking for `model`.
    pub fn new(api_key: String, model: String) -> (p: AnthropicProvider)
        ensures
            p.key() == api_key@,
            p.model_spec() == model@,
    {
        AnthropicProvider { api_key, model }
    }

    /// The key sent in the `x-api-key` header.
    pub fn api_key(&self) -> (k: &str)
        ensures
            k@ == self.key(),
    {
        self.api_key.as_str()
    }

    /// `"anthropic"`.
    pub fn provider_name(&self) -> (s: &'static str)
        ensures
            s@ == "anthropic"@,
    {
        "anthropic"
    }

    /// The model asked for.
    pub fn model_name(&self) -> (s: &str)
        ensures
            s@ == self.model_spec(),
    {
        self.model.as_str()
    }

    /// The context window, in tokens.
    pub fn context_limit(&self) -> (n: usize)
        ensures
            n == 200_000,
    {
        200_000
    }

    /// The most tokens one reply may hold.
    pub fn max_output_tokens(&self) -> (n: usize)
        ensures
            n == 8192,
    {
        8192
    }

    /// The request body for `request`: each message under Anthropic's role
    /// for it, the system prompt apart, and 8192 tokens unless the request
    /// asks for another number.
    pub fn request_body(&self, request: &CompletionRequest) -> (body: AnthropicRequest)
        ensures
            body.model@ == self.model_spec(),
            body.max_tokens == match request.max_tokens {
                Some(n) => n,
                None => 8192,
            },
            match request.system_prompt {
                Some(p) => body.system matches Some(s) && s@ == p@,
                None => body.system is None,
            },
            body.messages.len() == request.messages.len(),
            forall|i: int|
                0 <= i < body.messages.len() ==> {
                    &&& (#[trigger] body.messages[i]).role@ == anthropic_role(request.messages[i].role)
                    &&& body.messages[i].content@ == request.messages[i].text()
                },
    {
        let mut messages: Vec<AnthropicMessage> = Vec::new();
        let mut i: usize = 0;
        while i < request.messages.len()
            invariant
                i <= request.messages.len(),
                messages.len() == i,
                forall|j: int|
                    0 <= j < i ==> {
                        &&& (#[trigger] messages[j]).role@ == anthropic_role(request.messages[j].role)
                        &&& messages[j].content@ == request.messages[j].text()
                    },
            decreases request.messages.len() - i,
        {
            let m = &request.messages[i];
            let role = anthropic_role_name(m.role);
            let content = match &m.content {
                MessageContent::Text(t) => t.clone(),
            };
            messages.push(AnthropicMessage { role: String::from_str(role), content });
            i = i + 1;
        }
        let system = match &request.system_prompt {
            Some(p) => Some(p.clone()),
            None => None,
        };
        let max_tokens = match request.max_tokens {
            Some(n) => n,
            None => 8192,
        };
        AnthropicRequest { model: self.model.clone(), max_tokens, system, messages }
    }

    /// The completion that Anthropic's reply stands for: the texts of its
    /// `text` blocks joined, one call per `tool_use` block, the usage with
    /// its total, the stop reason read, and the provider's model.
    pub fn completion_from(&self, reply: AnthropicResponse) -> (r: CompletionResponse)
        requires
            reply.usage.input_tokens + reply.usage.output_tokens <= usize::MAX,
        ensures
            r.content@ == anthropic_text(reply.content@),
            r.tool_calls.len() == anthropic_tool_blocks(reply.content@).len(),
            forall|i: int|
                0 <= i < r.tool_calls.len() ==> call_of_block(
                    #[trigger] r.tool_calls[i],
                    anthropic_tool_blocks(reply.content@)[i],
                ),
            r.usage == (TokenUsage {
                input_tokens: reply.usage.input_tokens,
                output_tokens: reply.usage.output_tokens,
                total_tokens: (reply.usage.input_tokens + reply.usage.output_tokens) as usize,
            }),
            r.stop_reason == anthropic_stop(
                match reply.stop_reason {
                    Some(s) => Some(s@),
                    None => None,
                },
            ),
            r.model@ == self.model_spec(),
    {
        let ghost all = reply.content@;
        let mut blocks = reply.content;
        let mut content = String::new();
        let mut tool_calls: Vec<ToolCallRequest> = Vec::new();
        let mut k: usize = 0;
        let n: usize = blocks.len();
        while blocks.len() > 0
            invariant
                k + blocks.len() == n,
                n == all.len(),
                blocks@ == all.skip(k as int),
                content@ == anthropic_text(all.take(k as int)),
                tool_calls.len() == anthropic_tool_blocks(all.take(k as int)).len(),
                forall|i: int|
                    0 <= i < tool_calls.len() ==> call_of_block(
                        #[trigger] tool_calls[i],
                        anthropic_tool_blocks(all.take(k as int))[i],
                    ),
            decreases blocks.len(),
        {
            let b = blocks.remove(0);
            proof {
                assert(b == all[k as int]);
                assert(all.take(k + 1).drop_last() =~= all.take(k as int));
                assert(all.take(k + 1).last() == b);
                assert(blocks@ =~= all.skip(k + 1));
            }
            if str_eq(b.content_type.as_str(), "text") {
                match &b.text {
                    Some(t) => {
                        content.append(t.as_str());
                    },
                    None => {},
                }
            } else if str_eq(b.content_type.as_str(), "tool_use") {
                let id = match &b.id {
                    Some(x) => x.clone(),
                    None => String::new(),
                };
                let name = match &b.name {
                    Some(x) => x.clone(),
                    None => String::new(),
                };
                let input = b.input;
                let call = ToolCallRequest { id, name, input };
                tool_calls.push(call);
            }
            k = k + 1;
        }
        proof {
            assert(all.take(n as int) =~= all);
        }
        let stop_reason = match &reply.stop_reason {
            Some(s) => if str_eq(s.as_str(), "end_turn") {
                StopReason::EndTurn
            } else if str_eq(s.as_str(), "max_tokens") {
                StopReason::MaxTokens
            } else if str_eq(s.as_str(), "tool_use") {
                StopReason::ToolUse
            } else {
                StopReason::EndTurn
            },
            None => StopReason::EndTurn,
        };
        let usage = TokenUsage {
            input_tokens: reply.usage.input_tokens,
            output_tokens: reply.usage.output_tokens,
            total_tokens: reply.usage.input_tokens + reply.usage.output_tokens,
        };
        CompletionResponse { content, tool_calls, usage, stop_reason, model: self.model.clone() }
    }
}

// ------------------------------------------------------------------- OpenAI

/// The role under which OpenAI's API receives a message; tool output goes
/// in as the assistant's.
pub open spec fn openai_role(role: Role) -> Seq<char> {
    match role {
        Role::System => "system"@,
        Role::User => "user"@,
        _ => "assistant"@,
    }
}

/// OpenAI's role for `role`.
pub fn openai_role_name(role: Role) -> (s: &'static str)
    ensures
        s@ == openai_role(role),
{
    match role {
        Role::System => "system",
        Role::User => "user",
        Role::Assistant => "assistant",
        Role::Tool => "assistant",
    }
}

/// One message as OpenAI's API takes it.
#[derive(Clone, Debug)]
pub struct OpenAiMessage {
    pub role: String,
    pub content: Option<String>,
}

/// The body of a request to OpenAI's chat completions endpoint; the
/// temperature is held as its `f32`'s bit pattern.
#[derive(Clone, Debug)]
pub struct OpenAiRequest {
    pub model: String,
    pub messages: Vec<OpenAiMessage>,
    pub max_tokens: Option<usize>,
    pub temperature_bits: Option<u32>,
}

/// One choice of OpenAI's reply.
#[derive(Clone, Debug)]
pub struct OpenAiChoice {
    pub content: Option<String>,
    pub finish_reason: Option<String>,
}

/// OpenAI's count of tokens.
#[derive(Clone, Copy, Debug)]
pub struct OpenAiUsage {
    pub prompt_tokens: usize,
    pub completion_tokens: usize,
    pub total_tokens: usize,
}

/// OpenAI's reply to a request.
#[derive(Clone, Debug)]
pub struct OpenAiResponse {
    pub choices: Vec<OpenAiChoice>,
    pub usage: OpenAiUsage,
}

/// How OpenAI's finish reason reads.
pub open spec fn openai_stop(reason: Option<Seq<char>>) -> StopReason {
    match reason {
        Some(r) => if r == "stop"@ {
            StopReason::EndTurn
        } else if r == "length"@ {
            StopReason::MaxTokens
        } else if r == "tool_calls"@ {
            StopReason::ToolUse
        } else {
            StopReason::EndTurn
        },
        None => StopReason::EndTurn,
    }
}

/// The messages sent for `request`: the system prompt first, as a system
/// message, then each message under OpenAI's role for it.
pub open spec fn openai_messages_of(request: CompletionRequest) -> Seq<(Seq<char>, Seq<char>)> {
    let own = request.messages@.map_values(|m: Message| (openai_role(m.role), m.text()));
    match request.system_prompt {
        Some(p) => seq![("system"@, p@)] + own,
        None => own,
    }
}

/// A client of OpenAI's chat completions API, or of a server that speaks it.
#[derive(Clone, Debug)]
pub struct OpenAiProvider {
    api_key: String,
    model: String,
    base_url: String,
}

impl OpenAiProvider {
    /// The key the provider sends.
    pub closed spec fn key(self) -> Seq<char> {
        self.api_key@
    }

    /// The model the provider asks for.
    pub closed spec fn model_spec(self) -> Seq<char> {
        self.model@
    }

    /// The address the API is reached under.
    pub closed spec fn base(self) -> Seq<char> {
        self.base_url@
    }

    /// A provider of OpenAI's own API.
    pub fn new(api_key: String, model: String) -> (p: OpenAiProvider)
        ensures
            p.key() == api_key@,
            p.model_spec() == model@,
            p.base() == "https://api.openai.com/v1"@,
    {
        OpenAiProvider { api_key, model, base_url: String::from_str("https://api.openai.com/v1") }
    }

    /// The same provider reaching the API under `base_url`.
    pub fn with_base_url(self, base_url: String) -> (p: OpenAiProvider)
        ensures
            p.key() == self.key(),
            p.model_spec() == self.model_spec(),
            p.base() == base_url@,
    {
        OpenAiProvider { base_url, ..self }
    }

    /// `"openai"`.
    pub fn provider_name(&self) -> (s: &'static str)
        ensures
            s@ == "openai"@,
    {
        "openai"
    }

    /// The model asked for.
    pub fn model_name(&self) -> (s: &str)
        ensures
            s@ == self.model_spec(),
    {
        self.model.as_str()
    }

    /// The context window, in tokens.
    pub fn context_limit(&self) -> (n: usize)
        ensures
            n == 128_000,
    {
        128_000
    }

    /// The most tokens one reply may hold.
    pub fn max_output_tokens(&self) -> (n: usize)
        ensures
            n == 16384,
    {
        16384
    }

    /// The endpoint completions are posted to.
    pub fn completions_url(&self) -> (u: String)
        ensures
            u@ == self.base() + "/chat/completions"@,
    {
        cat2(self.base_url.as_str(), "/chat/completions")
    }

    /// The `Authorization` header's value.
    pub fn authorization(&self) -> (h: String)
        ensures
            h@ == "Bearer "@ + self.key(),
    {
        cat2("Bearer ", self.api_key.as_str())
    }

    /// The request body for `request`.
    pub fn request_body(&self, request: &CompletionRequest) -> (body: OpenAiRequest)
        ensures
            body.model@ == self.model_spec(),
            body.max_tokens == request.max_tokens,
            body.temperature_bits == request.temperature_bits,
            body.messages.len() == openai_messages_of(*request).len(),
            forall|i: int|
                0 <= i < body.messages.len() ==> {
                    &&& (#[trigger] body.messages[i]).role@ == openai_messages_of(*request)[i].0
                    &&& body.messages[i].content matches Some(c) && c@
                        == openai_messages_of(*request)[i].1
                },
    {
        let ghost want = openai_messages_of(*request);
        let mut messages: Vec<OpenAiMessage> = Vec::new();
        let mut off: usize = 0;
        match &request.system_prompt {
            Some(p) => {
                messages.push(OpenAiMessage { role: String::from_str("system"), content: Some(p.clone()) });
                off = 1;
            },
            None => {},
        }
        let mut i: usize = 0;
        while i < request.messages.len()
            invariant
                i <= request.messages.len(),
                off == (if request.system_prompt is Some { 1int } else { 0int }),
                want == openai_messages_of(*request),
                want.len() == off + request.messages.len(),
                messages.len() == off + i,
                forall|j: int|
                    0 <= j < messages.len() ==> {
                        &&& (#[trigger] messages[j]).role@ == want[j].0
                        &&& messages[j].content matches Some(c) && c@ == want[j].1
                    },
            decreases request.messages.len() - i,
        {
            let m = &request.messages[i];
            let role = openai_role_name(m.role);
            let content = match &m.content {
                MessageContent::Text(t) => t.clone(),
            };
            proof {
                assert(want[off + i] == (openai_role(m.role), m.text()));
            }
            messages.push(OpenAiMessage { role: String::from_str(role), content: Some(content) });
            i = i + 1;
        }
        OpenAiRequest {
            model: self.model.clone(),
            messages,
            max_tokens: request.max_tokens,
            temperature_bits: request.temperature_bits,
        }
    }

    /// The completion that OpenAI's reply stands for: the first choice's
    /// text (empty if it has none) and finish reason, the reply's usage and
    /// the provider's model; an invalid response when there is no choice.
    pub fn completion_from(&self, reply: OpenAiResponse) -> (r: Result<CompletionResponse, LlmError>)
        ensures
            reply.choices.len() == 0 <==> r is Err,
            r matches Err(e) ==> e matches LlmError::InvalidResponse { reason } && reason@
                == "No choices in response"@,
            r matches Ok(c) ==> {
                let first = reply.choices[0];
                &&& c.content@ == text_or_empty(first.content)
                &&& c.tool_calls.len() == 0
                &&& c.usage == (TokenUsage {
                    input_tokens: reply.usage.prompt_tokens,
                    output_tokens: reply.usage.completion_tokens,
                    total_tokens: reply.usage.total_tokens,
                })
                &&& c.stop_reason == openai_stop(
                    match first.finish_reason {
                        Some(s) => Some(s@),
                        None => None,
                    },
                )
                &&& c.model@ == self.model_spec()
            },
    {
        if reply.choices.len() == 0 {
            return Err(LlmError::InvalidResponse { reason: String::from_str("No choices in response") });
        }
        let first = &reply.choices[0];
        let content = match &first.content {
            Some(t) => t.clone(),
            None => String::new(),
        };
        let stop_reason = match &first.finish_reason {
            Some(s) => if str_eq(s.as_str(), "stop") {
                StopReason::EndTurn
            } else if str_eq(s.as_str(), "length") {
                StopReason::MaxTokens
            } else if str_eq(s.as_str(), "tool_calls") {
                StopReason::ToolUse
            } else {
                StopReason::EndTurn
            },
            None => StopReason::EndTurn,
        };
        Ok(CompletionResponse {
            content,
            tool_calls: Vec::new(),
            usage: TokenUsage {
                input_tokens: reply.usage.prompt_tokens,
                output_tokens: reply.usage.completion_tokens,
                total_tokens: reply.usage.total_tokens,
            },
            stop_reason,
            model: self.model.clone(),
        })
    }
}

/// A provider of completions the command line can run with.
#[derive(Clone, Debug)]
pub enum Provider {
    Anthropic(AnthropicProvider),
    OpenAi(OpenAiProvider),
}

} // verus!
