//! Statements that workers send, and what their rows mean.

pub mod batch_get_jobs;
pub mod batch_sql;
pub mod claim_queue_jobs;
pub mod claim_sql;
pub mod rows;
