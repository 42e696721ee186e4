//! The local queue: jobs that this process has claimed but not started yet.

pub mod buffers;
pub mod capacity;
pub mod config;
pub mod fetch;
pub mod jobs;
pub mod release;
pub mod retry;
pub mod state;
