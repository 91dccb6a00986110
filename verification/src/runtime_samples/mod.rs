//! Samples that agents report of their sketches at run time.
pub mod json;
pub mod store;

pub use store::{
    RuntimeRecord, RuntimeSamplesStats, RuntimeSamplesStatsSnapshot, RuntimeSamplesStore, SampleKey,
};
