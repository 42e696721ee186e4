//! What the operations of the library are for, told of their calls.
//!
//! Each law speaks of one or more calls: of what went in, what came out, and what
//! changed. None of them speaks of how a call comes to its result.

pub mod claims;
pub mod local_queue;
pub mod statements;
pub mod workers;
