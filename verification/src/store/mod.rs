//! What is remembered between plans.
pub mod workload;

pub use workload::WorkloadStore;
