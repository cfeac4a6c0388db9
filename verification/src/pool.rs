//! A pool of workers that share one agent template and take turns with the
//! language-model providers.
use vstd::prelude::*;
use crate::config::AgentConfig;
use crate::error::{cat2, AgentError};
use crate::memory::{lower_ascii_agrees, lowercase, to_lower};
use crate::text::str_eq;

verus! {

/// How the pool's workers share memory.
#[derive(Clone, Copy, Debug, PartialEq, Eq, Structural)]
pub enum MemoryMode {
    Shared,
    Isolated,
    Persistent,
}

/// The mode a text names, ignoring case: `shared`, `isolated` or
/// `persistent`; persistent when it names none.
pub open spec fn pool_mode_named(s: Seq<char>) -> MemoryMode {
    if lowercase(s) == "shared"@ {
        MemoryMode::Shared
    } else if lowercase(s) == "isolated"@ {
        MemoryMode::Isolated
    } else {
        MemoryMode::Persistent
    }
}

impl MemoryMode {
    /// The mode `s` names, ignoring case; persistent when it names none.
    pub fn from_str(s: &str) -> (m: MemoryMode)
        ensures
            m == pool_mode_named(s@),
            lower_ascii_agrees(s@),
    {
        let l = to_lower(s);
        if str_eq(l.as_str(), "shared") {
            MemoryMode::Shared
        } else if str_eq(l.as_str(), "isolated") {
            MemoryMode::Isolated
        } else if str_eq(l.as_str(), "persistent") {
            MemoryMode::Persistent
        } else {
            MemoryMode::Persistent
        }
    }
}

/// Workers that run goals with one agent template, handing the providers
/// out in turn.
pub struct AgentPool<P> {
    workers: usize,
    agent_template: AgentConfig,
    llm_providers: Vec<P>,
    memory_mode: MemoryMode,
    next_worker: usize,
}

impl<P> AgentPool<P> {
    /// The number of workers.
    pub closed spec fn workers_spec(self) -> usize {
        self.workers
    }

    /// The configuration every worker runs with.
    pub closed spec fn template(self) -> AgentConfig {
        self.agent_template
    }

    /// The providers handed out in turn.
    pub closed spec fn providers(self) -> Seq<P> {
        self.llm_providers@
    }

    /// The memory mode.
    pub closed spec fn mode(self) -> MemoryMode {
        self.memory_mode
    }

    /// How many providers have been handed out (modulo the word size).
    pub closed spec fn handed_out(self) -> usize {
        self.next_worker
    }

    /// A pool of `workers` workers.
    pub fn new(workers: usize, agent_template: AgentConfig, llm_providers: Vec<P>, memory_mode: MemoryMode) -> (p: AgentPool<P>)
        ensures
            p.workers_spec() == workers,
            p.template() == agent_template,
            p.providers() == llm_providers@,
            p.mode() == memory_mode,
            p.handed_out() == 0,
    {
        AgentPool { workers, agent_template, llm_providers, memory_mode, next_worker: 0 }
    }

    /// The provider whose turn it is: providers are handed out round-robin,
    /// starting with the first.
    pub fn next_llm_provider(&mut self) -> (p: &P)
        requires
            old(self).providers().len() > 0,
        ensures
            *p == old(self).providers()[(old(self).handed_out() as int) % (old(self).providers().len() as int)],
            final(self).handed_out() == old(self).handed_out().wrapping_add(1),
            final(self).providers() == old(self).providers(),
            final(self).template() == old(self).template(),
            final(self).mode() == old(self).mode(),
            final(self).workers_spec() == old(self).workers_spec(),
    {
        let idx = self.next_worker % self.llm_providers.len();
        self.next_worker = self.next_worker.wrapping_add(1);
        &self.llm_providers[idx]
    }

    /// The configuration every worker runs with.
    pub fn agent_template(&self) -> (c: &AgentConfig)
        ensures
            *c == self.template(),
    {
        &self.agent_template
    }

    /// The number of providers handed out in turn.
    pub fn provider_count(&self) -> (n: usize)
        ensures
            n == self.providers().len(),
    {
        self.llm_providers.len()
    }

    /// The number of workers.
    pub fn worker_count(&self) -> (n: usize)
        ensures
            n == self.workers_spec(),
    {
        self.workers
    }

    /// The memory mode.
    pub fn memory_mode(&self) -> (m: &MemoryMode)
        ensures
            *m == self.mode(),
    {
        &self.memory_mode
    }
}

/// The error that stands for a worker whose task panicked.
pub fn worker_panicked(reason: &str) -> (e: AgentError)
    ensures
        e matches AgentError::OrchestratorFailed { reason: r } && r@ == "Worker task panicked: "@ + reason@,
{
    AgentError::OrchestratorFailed { reason: cat2("Worker task panicked: ", reason) }
}

} // verus!
