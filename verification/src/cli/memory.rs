//! The `memory` command's sub-commands.
use vstd::prelude::*;

verus! {

/// What the `memory` command can do. The memory type is held under `kind`.
#[derive(Clone, Debug)]
pub enum MemoryCommands {
    /// List an agent's memory entries.
    List { agent: String, kind: Option<String>, limit: usize },
    /// Search semantic memory.
    Search { query: String, agent: Option<String>, limit: usize },
    /// Clear an agent's memory.
    Clear { agent: String, kind: String, force: bool },
}

} // verus!
