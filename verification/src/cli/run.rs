//! The `run` command: which provider and tools a configuration asks for.
use vstd::prelude::*;
use vstd::string::StringExecFns;
use crate::config::{AgentConfig, PermissionsSection};
use crate::error::cat3;
use crate::llm::{AnthropicProvider, OpenAiProvider, Provider};
use crate::text::{str_eq, texts};

verus! {

/// The key a configuration gives its model: the empty text when it gives
/// none.
pub open spec fn api_key_of(config: AgentConfig) -> Seq<char> {
    match config.model.api_key {
        Some(k) => k@,
        None => Seq::empty(),
    }
}

/// Whether `p` is the provider named `name` with the configuration's key
/// and model (an OpenAI provider at OpenAI's own address).
pub open spec fn provider_for(p: Provider, name: Seq<char>, config: AgentConfig) -> bool {
    if name == "anthropic"@ {
        p matches Provider::Anthropic(a) && a.key() == api_key_of(config) && a.model_spec()
            == config.model.model@
    } else {
        p matches Provider::OpenAi(o) && o.key() == api_key_of(config) && o.model_spec()
            == config.model.model@ && o.base() == "https://api.openai.com/v1"@
    }
}

/// The provider of a configuration, for the providers the command line
/// supports (`anthropic`, `openai`), else an error ending in `suffix`.
pub(crate) fn provider_of(config: &AgentConfig, suffix: &str) -> (r: Result<Provider, String>)
    ensures
        config.model.provider@ == "anthropic"@ || config.model.provider@ == "openai"@ ==> (r matches Ok(
            p,
        ) && provider_for(p, config.model.provider@, *config)),
        !(config.model.provider@ == "anthropic"@ || config.model.provider@ == "openai"@) ==> (r matches Err(
            m,
        ) && m@ == "Provider '"@ + config.model.provider@ + suffix@),
{
    let api_key = match &config.model.api_key {
        Some(k) => k.clone(),
        None => String::new(),
    };
    if str_eq(config.model.provider.as_str(), "anthropic") {
        Ok(Provider::Anthropic(AnthropicProvider::new(api_key, config.model.model.clone())))
    } else if str_eq(config.model.provider.as_str(), "openai") {
        Ok(Provider::OpenAi(OpenAiProvider::new(api_key, config.model.model.clone())))
    } else {
        Err(cat3("Provider '", config.model.provider.as_str(), suffix))
    }
}

/// The provider an agent runs with: Anthropic's or OpenAI's, with the
/// configured key (empty when none is given) and model; any other provider
/// is refused.
pub fn create_provider(config: &AgentConfig) -> (r: Result<Provider, String>)
    ensures
        config.model.provider@ == "anthropic"@ || config.model.provider@ == "openai"@ ==> (r matches Ok(
            p,
        ) && provider_for(p, config.model.provider@, *config)),
        !(config.model.provider@ == "anthropic"@ || config.model.provider@ == "openai"@) ==> (r matches Err(
            m,
        ) && m@ == "Provider '"@ + config.model.provider@ + "' is not yet supported for CLI run"@),
{
    provider_of(config, "' is not yet supported for CLI run")
}

/// A built-in tool.
#[derive(Clone, Copy, Debug, PartialEq, Eq, Structural)]
pub enum ToolChoice {
    Bash,
    Files,
    Http,
}

/// The built-in tool a name stands for.
pub open spec fn tool_named(name: Seq<char>) -> Option<ToolChoice> {
    if name == "bash"@ {
        Some(ToolChoice::Bash)
    } else if name == "files"@ {
        Some(ToolChoice::Files)
    } else if name == "http"@ {
        Some(ToolChoice::Http)
    } else {
        None
    }
}

/// The built-in tool `name` stands for; none for an unknown name, which
/// the run skips with a warning.
pub fn tool_choice(name: &str) -> (t: Option<ToolChoice>)
    ensures
        t == tool_named(name@),
{
    if str_eq(name, "bash") {
        Some(ToolChoice::Bash)
    } else if str_eq(name, "files") {
        Some(ToolChoice::Files)
    } else if str_eq(name, "http") {
        Some(ToolChoice::Http)
    } else {
        None
    }
}

/// The warning for a tool name the run does not know.
pub fn unknown_tool_warning(name: &str) -> (s: String)
    ensures
        s@ == "Warning: unknown tool '"@ + name@ + "', skipping"@,
{
    cat3("Warning: unknown tool '", name, "', skipping")
}

/// How long a tool may run, in seconds: as configured, five minutes when
/// not.
pub fn execution_limit_secs(permissions: &PermissionsSection) -> (s: u64)
    ensures
        s == match permissions.max_execution_time {
            Some(t) => t,
            None => 300,
        },
{
    match permissions.max_execution_time {
        Some(t) => t,
        None => 300,
    }
}

/// The paths the file tool may touch: as configured, the working directory
/// when not.
pub fn allowed_paths(permissions: &PermissionsSection) -> (v: Vec<String>)
    ensures
        match permissions.allowed_paths {
            Some(p) => texts(v@) == texts(p@),
            None => texts(v@) == seq!["."@],
        },
{
    match &permissions.allowed_paths {
        Some(p) => {
            let mut v: Vec<String> = Vec::new();
            let mut i: usize = 0;
            while i < p.len()
                invariant
                    i <= p.len(),
                    v.len() == i,
                    forall|j: int| 0 <= j < i ==> (#[trigger] v@[j])@ == p@[j]@,
                decreases p.len() - i,
            {
                v.push(p[i].clone());
                i = i + 1;
            }
            proof {
                assert(texts(v@) =~= texts(p@));
            }
            v
        },
        None => {
            let mut v: Vec<String> = Vec::new();
            v.push(String::from_str("."));
            assert(texts(v@) =~= seq!["."@]);
            v
        },
    }
}

/// The short-term store's address.
pub fn redis_url() -> (s: &'static str)
    ensures
        s@ == "redis://localhost:6379"@,
{
    "redis://localhost:6379"
}

} // verus!
