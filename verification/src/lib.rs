//! Orchestration core of the final stage of a staged proof-aggregation
//! pipeline.
//!
//! The crate holds the decisions of the scheduler witness generator: which
//! job may start, how its input is assembled from the artifacts of the
//! previous round, what the compute step is handed, under which key the
//! result is stored and which ledger writes record it. Everything that waits
//! on a queue, a blob store or a worker stays with the caller, which hands
//! the values it obtained to the functions here.

pub mod artifacts;
pub mod error;
pub mod ledger;
pub mod metrics;
pub mod scheduler;
pub mod types;
