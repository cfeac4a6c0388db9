//! The decisions behind the command-line interface.
pub mod loop_cmd;
pub mod mcp;
pub mod memory;
pub mod run;
pub mod stats;
pub mod tools;
