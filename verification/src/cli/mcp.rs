//! The `mcp` command's sub-commands.
use vstd::prelude::*;

verus! {

/// What the `mcp` command can do.
#[derive(Clone, Debug)]
pub enum McpCommands {
    /// Connect to a server.
    Connect { url: String, auth_type: String, token: Option<String> },
    /// List a server's tools.
    Tools { url: String, token: Option<String> },
}

} // verus!
