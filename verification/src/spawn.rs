//! Child agents spawned for a goal: the configuration they run with and how
//! their result is reported to the parent.
use vstd::prelude::*;
use vstd::string::StringExecFns;
use crate::config::{AgentConfig, AgentSection, ModelSection, PermissionsSection, ToolsSection};
use crate::error::{cat4, AgentError};
use crate::message::TaskResult;
use crate::stamp::{fresh_id, is_v4, uuid_text, uuid_text_of};
use crate::text::texts;

verus! {

/// Whether `c` is the configuration a child agent named `child_id` runs
/// with when its parent gives none: the Anthropic model `model` at
/// temperature 0.2 with 4096 tokens, the `bash` and `files` tools,
/// file-system access and no network.
pub open spec fn is_default_child_config(c: AgentConfig, child_id: Seq<char>, model: Seq<char>) -> bool {
    &&& c.agent.name@ == child_id
    &&& c.agent.version matches Some(v) && v@ == "0.1.0"@
    &&& c.agent.description matches Some(d) && d@ == "Spawned child agent"@
    &&& c.model.provider@ == "anthropic"@
    &&& c.model.model@ == model
    &&& c.model.api_key is None
    &&& c.model.base_url is None
    &&& c.model.temperature_bits == Some(0x3E4C_CCCDu32)
    &&& c.model.max_tokens == Some(4096usize)
    &&& c.model.context_strategy is None
    &&& c.memory is None
    &&& c.heal is None
    &&& c.quality is None
    &&& texts(c.tools.enabled@) == seq!["bash"@, "files"@]
    &&& !c.permissions.allow_network
    &&& c.permissions.allow_filesystem
    &&& c.permissions.allowed_paths is None
    &&& c.permissions.max_execution_time is None
    &&& c.observe is None
}

/// The text a child's result reads as for its parent: its output, a
/// partial output with its reason; a failed child is an error of its own.
pub open spec fn child_report(child_id: Seq<char>, result: TaskResult) -> Result<Seq<char>, AgentError> {
    match result {
        TaskResult::Success { output } => Ok(output@),
        TaskResult::Partial { output, reason } => Ok("[partial: "@ + reason@ + "] "@ + output@),
        TaskResult::Failed { error } => Err(error),
    }
}

/// Spawns child agents with the providers it holds; a child given no
/// configuration runs the Anthropic model `child_model`.
pub struct AgentSpawner<P> {
    llm_providers: Vec<P>,
    child_model: String,
}

impl<P> AgentSpawner<P> {
    /// The providers a child may use; a child uses the first.
    pub closed spec fn providers(self) -> Seq<P> {
        self.llm_providers@
    }

    /// The model a child given no configuration runs.
    pub closed spec fn model(self) -> Seq<char> {
        self.child_model@
    }

    /// A spawner with these providers, whose children run `child_model`
    /// by default.
    pub fn new(llm_providers: Vec<P>, child_model: &str) -> (s: AgentSpawner<P>)
        ensures
            s.providers() == llm_providers@,
            s.model() == child_model@,
    {
        AgentSpawner { llm_providers, child_model: String::from_str(child_model) }
    }

    /// A fresh child id: the text of a random UUID.
    pub fn new_child_id(&self) -> (id: String)
        ensures
            exists|n: u128| is_v4(n) && id@ == uuid_text_of(n),
    {
        uuid_text(fresh_id())
    }

    /// The provider a child runs with: the first; an error when there is
    /// none.
    pub fn first_provider(&self) -> (r: Result<&P, AgentError>)
        ensures
            self.providers().len() > 0 ==> (r matches Ok(p) && *p == self.providers()[0]),
            self.providers().len() == 0 ==> (r matches Err(AgentError::OrchestratorFailed { reason })
                && reason@ == "No LLM providers available for child agent"@),
    {
        if self.llm_providers.len() == 0 {
            Err(AgentError::OrchestratorFailed {
                reason: String::from_str("No LLM providers available for child agent"),
            })
        } else {
            Ok(&self.llm_providers[0])
        }
    }

    /// The configuration a child named `child_id` runs with: the parent's
    /// override when it gives one, else the default child configuration.
    pub fn child_config(&self, child_id: &str, config_override: Option<AgentConfig>) -> (c: AgentConfig)
        ensures
            match config_override {
                Some(o) => c == o,
                None => is_default_child_config(c, child_id@, self.model()),
            },
    {
        match config_override {
            Some(o) => o,
            None => self.default_child_config(child_id),
        }
    }

    /// The default configuration of a child named `child_id`.
    pub fn default_child_config(&self, child_id: &str) -> (c: AgentConfig)
        ensures
            is_default_child_config(c, child_id@, self.model()),
    {
        let mut enabled: Vec<String> = Vec::new();
        enabled.push(String::from_str("bash"));
        enabled.push(String::from_str("files"));
        assert(texts(enabled@) =~= seq!["bash"@, "files"@]);
        AgentConfig {
            agent: AgentSection {
                name: String::from_str(child_id),
                version: Some(String::from_str("0.1.0")),
                description: Some(String::from_str("Spawned child agent")),
            },
            model: ModelSection {
                provider: String::from_str("anthropic"),
                model: self.child_model.clone(),
                api_key: None,
                base_url: None,
                temperature_bits: Some(0x3E4C_CCCD),
                max_tokens: Some(4096),
                context_strategy: None,
            },
            memory: None,
            heal: None,
            quality: None,
            tools: ToolsSection { enabled },
            permissions: PermissionsSection {
                allow_network: false,
                allow_filesystem: true,
                allowed_paths: None,
                max_execution_time: None,
            },
            observe: None,
        }
    }

    /// What the parent gets back from child `child_id`: its output (a
    /// partial one marked with its reason), or, when the child failed, a
    /// sub-agent failure naming the child and carrying its error.
    pub fn child_outcome(child_id: String, result: TaskResult) -> (r: Result<String, AgentError>)
        ensures
            match child_report(child_id@, result) {
                Ok(t) => r matches Ok(s) && s@ == t,
                Err(e) => r matches Err(AgentError::SubAgentFailed { agent_id, error }) && agent_id@
                    == child_id@ && *error == e,
            },
    {
        match result {
            TaskResult::Success { output } => Ok(output),
            TaskResult::Partial { output, reason } => Ok(
                cat4("[partial: ", reason.as_str(), "] ", output.as_str()),
            ),
            TaskResult::Failed { error } => Err(
                AgentError::SubAgentFailed { agent_id: child_id, error: Box::new(error) },
            ),
        }
    }
}

} // verus!
