//! The `tools` command: the built-in tools and what is known of each.
use vstd::prelude::*;
use crate::error::cat2;
use crate::text::str_eq;

verus! {

/// What the `tools` command can do.
#[derive(Clone, Debug)]
pub enum ToolsCommands {
    /// List the built-in tools.
    List,
    /// Describe one tool.
    Info { name: String },
}

/// The built-in tools: name, description and version.
pub open spec fn tool_catalog() -> Seq<(Seq<char>, Seq<char>, Seq<char>)> {
    seq![
        ("bash"@, "Execute shell commands with sandboxing"@, "0.1.0"@),
        ("files"@, "Read, write, list, and delete files"@, "0.1.0"@),
        ("http"@, "Make HTTP requests with domain restrictions"@, "0.1.0"@),
    ]
}

/// The built-in tools, in the order they are listed.
pub fn available_tools() -> (v: Vec<(&'static str, &'static str, &'static str)>)
    ensures
        v@.map_values(|t: (&'static str, &'static str, &'static str)| (t.0@, t.1@, t.2@)) == tool_catalog(),
{
    let mut v: Vec<(&'static str, &'static str, &'static str)> = Vec::new();
    v.push(("bash", "Execute shell commands with sandboxing", "0.1.0"));
    v.push(("files", "Read, write, list, and delete files", "0.1.0"));
    v.push(("http", "Make HTTP requests with domain restrictions", "0.1.0"));
    assert(v@.map_values(|t: (&'static str, &'static str, &'static str)| (t.0@, t.1@, t.2@)) =~= tool_catalog());
    v
}

/// The description and version of the built-in tool `name`: the
/// catalogue entry with that name.
pub open spec fn info_of(name: Seq<char>) -> Option<(Seq<char>, Seq<char>)> {
    if name == tool_catalog()[0].0 {
        Some((tool_catalog()[0].1, tool_catalog()[0].2))
    } else if name == tool_catalog()[1].0 {
        Some((tool_catalog()[1].1, tool_catalog()[1].2))
    } else if name == tool_catalog()[2].0 {
        Some((tool_catalog()[2].1, tool_catalog()[2].2))
    } else {
        None
    }
}

/// The catalogue entry of the tool named `name`, if it is built in.
pub fn tool_info(name: &str) -> (r: Option<(&'static str, &'static str)>)
    ensures
        match info_of(name@) {
            Some(t) => r matches Some(x) && x.0@ == t.0 && x.1@ == t.1,
            None => r is None,
        },
{
    if str_eq(name, "bash") {
        Some(("Execute shell commands with sandboxing", "0.1.0"))
    } else if str_eq(name, "files") {
        Some(("Read, write, list, and delete files", "0.1.0"))
    } else if str_eq(name, "http") {
        Some(("Make HTTP requests with domain restrictions", "0.1.0"))
    } else {
        None
    }
}

/// The error for a tool that is not built in.
pub fn unknown_tool(name: &str) -> (s: String)
    ensures
        s@ == "Unknown tool: "@ + name@,
{
    cat2("Unknown tool: ", name)
}

} // verus!
