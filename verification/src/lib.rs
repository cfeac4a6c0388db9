//! Argo: decision logic of a self-healing agent framework.
//!
//! The library holds the rules by which errors are classified and healed,
//! how lessons and improvement proposals are derived from past errors, how
//! memory keys and modes are resolved, how agent configurations are checked,
//! and how long conversations are split for summarisation.
pub mod text;
pub mod error;
pub mod classifier;
pub mod heal;
pub mod stamp;
pub mod postmortem;
pub mod seqs;
pub mod growth;
pub mod memory;
pub mod config;
pub mod llm;
pub mod message;
pub mod execution;
pub mod loop_agent;
pub mod orchestrator;
pub mod pool;
pub mod spawn;
pub mod mcp;
pub mod cli;
