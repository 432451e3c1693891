//! Rate-limited fetching of an organisation's repositories: a token-bucket
//! admission gate, a bounded retry orchestrator driven as a state machine, and
//! the transform of raw repository records into secret-scanning summaries.

pub mod artifact;
pub mod command;
pub mod fetch;
pub mod limiter;
pub mod retry;
pub mod summary;
