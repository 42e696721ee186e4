//! Verified core of a PostgreSQL-backed job worker.

pub mod actions;
pub mod claim_coordinator;
pub mod claim_one;
pub mod definition;
pub mod job;
pub mod laws;
pub mod local_queue;
pub mod options;
pub mod queries;
pub mod query;
pub mod quotas;
pub mod runner;
pub mod schema;
mod shared;
pub mod tasks;
pub mod time;
