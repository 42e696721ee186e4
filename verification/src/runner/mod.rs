//! Workers and what they do with their jobs.

pub mod run_once;
pub mod sources;
pub mod worker;
