//! Configuration that the controller reads.
pub mod workloads;

pub use workloads::{WorkloadEntry, WorkloadRegistry};
