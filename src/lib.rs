//! Read-only views over a workflow orchestrator's metadata store: systems
//! inferred from trigger metadata, their DAG runs, the task attempts of a run,
//! and the attempt logs on disk.
//!
//! The store and the file system are reached by the caller; this library
//! says which queries to run and decides what their answers amount to.

pub mod log;
pub mod negotiate;
pub mod record;
pub mod resolve;
pub mod search;
pub mod state;
pub mod text;
pub mod time;
