//! Growth: detecting patterns in past errors and proposing improvements.
pub mod types;
pub mod pattern;
pub mod proposal;
pub mod engine;
